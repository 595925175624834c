use hogg::common::config::ScannerNucleiConfig;
use hogg::daemon::nuclei::{
    database_path, parent_path, detections_notification_body, nuclei_args, scan_target,
    NucleiJsonOutput, NucleiTreeInfo,
    DATABASE_FILENAME,
};

fn info(name: &str) -> NucleiTreeInfo {
    NucleiTreeInfo {
        name: name.to_string(),
        author: vec!["pd".to_string()],
        tags: vec!["git".to_string(), "exposure".to_string()],
        severity: "high".to_string(),
        description: Some("desc".to_string()),
        reference: Some(vec!["https://x".to_string()]),
    }
}

fn finding(template_id: &str, host: &str, timestamp: &str) -> NucleiJsonOutput {
    NucleiJsonOutput {
        template: "t.yaml".to_string(),
        template_id: template_id.to_string(),
        info: info("Git Config"),
        host: host.to_string(),
        matched_at: Some(format!("{}/.git/config", host)),
        type_: "http".to_string(),
        ip: Some("1.2.3.4".to_string()),
        timestamp: timestamp.to_string(),
        curl_command: None,
        matcher_status: true,
        matched_line: None,
    }
}

#[test]
fn target_uses_http_unless_https_is_forced_and_checked() {
    assert_eq!(scan_target("example.com", false, false), "http://example.com");
    assert_eq!(scan_target("example.com", false, true), "http://example.com");
    assert_eq!(scan_target("example.com", true, false), "http://example.com");
    assert_eq!(scan_target("example.com", true, true), "https://example.com");
}

#[test]
fn nuclei_arguments_in_order() {
    let c = ScannerNucleiConfig {
        nuclei_executable: "nuclei".to_string(),
        cli_args: vec!["-silent".to_string(), "-rl".to_string(), "10".to_string()],
        using_community_templates: vec!["exposures/".to_string(), "cves/".to_string()],
    };
    assert_eq!(
        nuclei_args(&c, "http://a.com"),
        vec!["-silent", "-rl", "10", "--json", "-u", "http://a.com", "-t", "exposures/", "-t", "cves/"]
    );
}

#[test]
fn nuclei_arguments_without_extras() {
    let c = ScannerNucleiConfig {
        nuclei_executable: "nuclei".to_string(),
        cli_args: vec![],
        using_community_templates: vec![],
    };
    assert_eq!(nuclei_args(&c, "https://b.org"), vec!["--json", "-u", "https://b.org"]);
}

#[test]
fn findings_compare_by_template_place_host_and_info() {
    let a = finding("git-config", "http://a.com", "2023-01-01");
    let b = finding("git-config", "http://a.com", "2024-05-05");
    assert!(a == b);
    let c = finding("git-config", "http://b.com", "2023-01-01");
    assert!(a != c);
    let mut d = finding("git-config", "http://a.com", "2023-01-01");
    d.info.tags.push("more".to_string());
    assert!(a != d);
    let mut e = finding("git-config", "http://a.com", "2023-01-01");
    e.matched_at = None;
    assert!(a != e);
    let mut f = finding("git-config", "http://a.com", "2023-01-01");
    f.ip = None;
    f.curl_command = Some("curl".to_string());
    assert!(a == f);
}

#[test]
fn tree_info_equality_is_field_by_field() {
    assert!(info("x") == info("x"));
    assert!(info("x") != info("y"));
    let mut i = info("x");
    i.reference = None;
    assert!(i != info("x"));
    let mut j = info("x");
    j.description = Some("other".to_string());
    assert!(j != info("x"));
}

#[test]
fn notification_text() {
    assert_eq!(
        detections_notification_body("a.com"),
        "New vulnerability detected @ a.com\nCheck CLI for more information"
    );
    assert_eq!(DATABASE_FILENAME, ".hoggdb.json");
}

#[test]
fn finding_sameness_is_an_equivalence() {
    let a = finding("t", "h", "1");
    let b = finding("t", "h", "2");
    let c = finding("t", "h", "3");
    assert!(a == a);
    assert!(a == b && b == a);
    assert!(b == c && a == c);
}

#[test]
fn https_probe() {
    assert_eq!(hogg::common::ssladapter::probe_url("a.com"), "http://a.com");
    assert!(hogg::common::ssladapter::forces_https(Some(200), true));
    assert!(hogg::common::ssladapter::forces_https(Some(299), true));
    assert!(!hogg::common::ssladapter::forces_https(Some(200), false));
    assert!(!hogg::common::ssladapter::forces_https(Some(301), true));
    assert!(!hogg::common::ssladapter::forces_https(Some(199), true));
    assert!(!hogg::common::ssladapter::forces_https(None, true));
    assert!(!hogg::common::ssladapter::forces_https(None, false));
}

#[test]
fn database_lies_beside_the_configuration_file() {
    assert_eq!(database_path("/home/u/.config/hogg/hogg.toml").unwrap(), "/home/u/.config/hogg/.hoggdb.json");
    assert_eq!(database_path("/hogg.toml").unwrap(), "/.hoggdb.json");
    assert_eq!(database_path("hogg.toml").unwrap(), ".hoggdb.json");
    assert_eq!(database_path(""), None);
    assert_eq!(database_path("/"), None);
}

const PATHS: [&str; 40] = [
    "", "/", "//", "///", ".", "..", "./", "../", "a", "a/", "a//", "a/.", "a/./", "a/b", "a/b/",
    "a//b", "a/./b", "a/../b", "a/..", "./a", "./a/b", "../a", "/a", "/a/", "/a/b", "/a//b//",
    "/./a", "/./", "/.", "/..", "//a", "a/b/.", "a/b/./.", "./.", "././a", ".a", "..a/b", "a/.b",
    "hogg.toml", "/home/u/.config/hogg/hogg.toml",
];

#[test]
fn parent_follows_std_path() {
    for p in PATHS {
        let expected = std::path::Path::new(p).parent().map(|d| d.to_str().unwrap().to_string());
        assert_eq!(parent_path(p), expected, "{:?}", p);
        let joined = std::path::Path::new(p)
            .parent()
            .map(|d| d.join(DATABASE_FILENAME).to_str().unwrap().to_string());
        assert_eq!(database_path(p), joined, "{:?}", p);
    }
}
