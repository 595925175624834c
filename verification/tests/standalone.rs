use hogg::config::{default_nuclei_path, Config, NucleiConfig};
use hogg::grpc::services::{ping_reply, DaemonHealthService, DaemonService};
use hogg::notifiers::{telegram_endpoint, telegram_text};
use hogg::scanner::scanners::{git_config_url, GitCredsScanner, GitDirectoryScanner, ScanError};
use hogg::scanner::{split_spaces, ServicesScanner};

fn config(cli_args: &str) -> Config {
    Config {
        nuclei: NucleiConfig {
            nuclei_path: "/usr/bin/nuclei".to_string(),
            config_file: "nuclei.yaml".to_string(),
            cli_args: cli_args.to_string(),
        },
    }
}

#[test]
fn default_nuclei_path_is_nuclei() {
    assert_eq!(default_nuclei_path(), "nuclei");
}

#[test]
fn services_scanner_copies_the_nuclei_settings() {
    let s = ServicesScanner::new(&config("-silent"));
    assert_eq!(s.nuclei_config.nuclei_path, "/usr/bin/nuclei");
    assert_eq!(s.nuclei_config.config_file, "nuclei.yaml");
    assert_eq!(s.nuclei_config.cli_args, "-silent");
}

#[test]
fn scan_arguments() {
    let s = ServicesScanner::new(&config("-silent -rl 5"));
    assert_eq!(
        s.scan_args("http://a.com"),
        vec!["-u", "http://a.com", "-config", "nuclei.yaml", "--json", "-silent", "-rl", "5"]
    );
    let t = ServicesScanner::new(&config(""));
    assert_eq!(t.scan_args("x"), vec!["-u", "x", "-config", "nuclei.yaml", "--json", ""]);
}

#[test]
fn split_at_spaces_like_str_split() {
    for s in ["", "a", "a b", "a  b", " a", "a ", " ", "héllo wörld  x"] {
        let expected: Vec<String> = s.split(' ').map(|p| p.to_string()).collect();
        assert_eq!(split_spaces(s), expected, "{:?}", s);
    }
}

#[test]
fn git_creds_scanner_wants_the_header_first() {
    let s = GitCredsScanner {};
    assert_eq!(s.name(), "Git Credentials Leak");
    let a = s.answers("http://a.com/.git/config".to_string(), "[core]\n\trepositoryformatversion = 0");
    assert_eq!(a.len(), 1);
    assert_eq!(a[0].full_url, "http://a.com/.git/config");
    assert_eq!(a[0].detection_name, "Git Credentials Leak");
    assert!(s.answers("u".to_string(), "<html>[core]</html>").is_empty());
    assert!(s.answers("u".to_string(), "[cor").is_empty());
}

#[test]
fn git_directory_scanner_looks_anywhere() {
    let s = GitDirectoryScanner {};
    assert_eq!(s.name(), "Git Directory Leak");
    let a = s.answers("u".to_string(), "<html>[core]</html>");
    assert_eq!(a.len(), 1);
    assert_eq!(a[0].detection_name, "Git Directory Leak");
    assert_eq!(s.answers("u".to_string(), "[core]").len(), 1);
    assert!(s.answers("u".to_string(), "[Core]").is_empty());
    assert!(s.answers("u".to_string(), "").is_empty());
}

#[test]
fn telegram_needs_token_and_chat() {
    let t = Some("123:abc".to_string());
    let c = Some("42".to_string());
    assert_eq!(
        telegram_endpoint(&t, &c),
        Some("https://api.telegram.org/bot123:abc/sendMessage".to_string())
    );
    assert_eq!(telegram_endpoint(&None, &c), None);
    assert_eq!(telegram_endpoint(&t, &None), None);
    assert_eq!(telegram_endpoint(&Some(String::new()), &c), None);
    assert_eq!(telegram_endpoint(&t, &Some(String::new())), None);
    assert_eq!(telegram_text("X"), "New vulnerability found:\n```X```");
}

#[test]
fn daemon_service_keeps_its_reload_hook() {
    let calls = std::sync::Arc::new(std::sync::atomic::AtomicUsize::new(0));
    let seen = calls.clone();
    let s = DaemonService::new(move || {
        seen.fetch_add(1, std::sync::atomic::Ordering::SeqCst);
    });
    let r = s.reload_database();
    assert_eq!(calls.load(std::sync::atomic::Ordering::SeqCst), 1);
    assert!(r.success);
    assert!(r.error.is_none());
    assert_eq!(s.ping().message, "Hello from the other side!");
    let h = DaemonHealthService::default();
    assert_eq!(h.ping().message, "Hello from the other side!");
    assert_eq!(ping_reply().message, "Hello from the other side!");
}

#[test]
fn git_config_address_replaces_the_path() {
    assert_eq!(git_config_url("http://a.com/x/y?q=1#f"), Ok("http://a.com/.git/config".to_string()));
    assert_eq!(git_config_url("HTTPS://Example.COM"), Ok("https://example.com/.git/config".to_string()));
    assert_eq!(
        git_config_url("example.com"),
        Err(ScanError::InvalidUrl(url::ParseError::RelativeUrlWithoutBase))
    );
    assert!(matches!(git_config_url(""), Err(ScanError::InvalidUrl(_))));
    assert_eq!(
        git_config_url("http://[::1"),
        Err(ScanError::InvalidUrl(url::ParseError::InvalidIpv6Address))
    );
}
