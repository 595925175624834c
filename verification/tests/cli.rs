use hogg::cli::{detection_report, get_database_dir};
use hogg::daemon::nuclei::{NucleiJsonOutput, NucleiTreeInfo, DATABASE_FILENAME};

#[test]
fn database_path_joins_with_one_separator() {
    assert_eq!(get_database_dir("/home/u/.config/hogg"), "/home/u/.config/hogg/.hoggdb.json");
    assert_eq!(get_database_dir("/home/u/.config/hogg/"), "/home/u/.config/hogg/.hoggdb.json");
    assert_eq!(get_database_dir(""), ".hoggdb.json");
    assert_eq!(get_database_dir("rel"), "rel/.hoggdb.json");
    assert_eq!(DATABASE_FILENAME, ".hoggdb.json");
}

fn finding(description: Option<&str>, reference: Option<Vec<&str>>, matched_at: Option<&str>) -> NucleiJsonOutput {
    NucleiJsonOutput {
        template: "t".to_string(),
        template_id: "git-config".to_string(),
        info: NucleiTreeInfo {
            name: "Git Config".to_string(),
            author: vec![],
            tags: vec![],
            severity: "medium".to_string(),
            description: description.map(|s| s.to_string()),
            reference: reference.map(|v| v.into_iter().map(|s| s.to_string()).collect()),
        },
        host: "http://a.com".to_string(),
        matched_at: matched_at.map(|s| s.to_string()),
        type_: "http".to_string(),
        ip: None,
        timestamp: "2023-01-01T00:00:00Z".to_string(),
        curl_command: None,
        matcher_status: true,
        matched_line: None,
    }
}

#[test]
fn report_of_a_full_finding() {
    let d = finding(Some("  Exposed git config \n"), Some(vec!["https://a", "https://b"]), Some("http://a.com/.git"));
    assert_eq!(
        detection_report(&d),
        vec![
            "Vulnerability Git Config - medium",
            " - Host: http://a.com",
            " - Matched at: http://a.com/.git",
            " - Description: Exposed git config",
            " - References: https://a, https://b",
            " - Timestamp: 2023-01-01T00:00:00Z",
        ]
    );
}

#[test]
fn report_defaults() {
    let d = finding(None, None, None);
    let r = detection_report(&d);
    assert_eq!(r[2], " - Matched at: ");
    assert_eq!(r[3], " - Description: No description");
    assert_eq!(r[4], " - References: None");
    let e = finding(Some("x"), Some(vec![]), None);
    assert_eq!(detection_report(&e)[4], " - References: ");
}

#[test]
fn trim_matches_std() {
    for s in [
        "", " ", "a", "  a  ", "\t\na b\r\n", "\u{85}x\u{a0}", "\u{3000}\u{2000}y\u{200a}\u{202f}",
        "\u{1680}\u{2028}\u{2029}\u{205f}z", "\u{200b}w\u{200b}", "mid  dle", "\u{0b}\u{0c}v",
    ] {
        assert_eq!(hogg::common::strings::trim_text(s), s.trim(), "{:?}", s);
    }
}

#[test]
fn report_of_a_bare_finding() {
    let d = finding(None, None, None);
    assert_eq!(
        detection_report(&d),
        vec![
            "Vulnerability Git Config - medium",
            " - Host: http://a.com",
            " - Matched at: ",
            " - Description: No description",
            " - References: None",
            " - Timestamp: 2023-01-01T00:00:00Z",
        ]
    );
    let e = finding(Some(" \t "), None, None);
    assert_eq!(detection_report(&e)[3], " - Description: ");
}
