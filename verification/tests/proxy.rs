use hogg::daemon::dnsproxy::{ScanCache, ScanDecision};
use hogg::daemon::upstream::{first_step, next_step, ForwardError, ForwardRule, ForwardStep, UpstreamOutcome};
use hogg::hijackers::proxy_scan_targets;

#[test]
fn first_sight_of_a_domain_is_scanned_and_recorded() {
    let mut c = ScanCache::new();
    assert_eq!(c.len(), 0);
    assert_eq!(c.check("example.com".to_string(), 100, 60), ScanDecision::FirstScan);
    assert_eq!(c.last_scan("example.com"), Some(100));
    assert_eq!(c.len(), 1);
}

#[test]
fn domain_is_not_rescanned_within_ttl() {
    let mut c = ScanCache::new();
    c.check("a.com".to_string(), 100, 60);
    assert_eq!(c.check("a.com".to_string(), 100, 60), ScanDecision::Cached);
    assert_eq!(c.check("a.com".to_string(), 160, 60), ScanDecision::Cached);
    assert_eq!(c.last_scan("a.com"), Some(100));
}

#[test]
fn domain_is_rescanned_after_ttl() {
    let mut c = ScanCache::new();
    c.check("a.com".to_string(), 100, 60);
    assert_eq!(c.check("a.com".to_string(), 161, 60), ScanDecision::TtlExpired);
    assert_eq!(c.last_scan("a.com"), Some(161));
    assert_eq!(c.check("a.com".to_string(), 200, 60), ScanDecision::Cached);
}

#[test]
fn domains_are_tracked_separately() {
    let mut c = ScanCache::new();
    c.check("a.com".to_string(), 100, 10);
    assert_eq!(c.check("b.com".to_string(), 105, 10), ScanDecision::FirstScan);
    assert_eq!(c.last_scan("a.com"), Some(100));
    assert_eq!(c.last_scan("c.com"), None);
    assert_eq!(c.len(), 2);
}

#[test]
fn zero_ttl_rescans_only_when_time_moved() {
    let mut c = ScanCache::new();
    c.check("a.com".to_string(), 5, 0);
    assert_eq!(c.check("a.com".to_string(), 5, 0), ScanDecision::Cached);
    assert_eq!(c.check("a.com".to_string(), 6, 0), ScanDecision::TtlExpired);
}

#[test]
fn dispatch_starts_at_the_first_upstream() {
    assert_eq!(first_step(ForwardRule::SkipTimeouts, 3), ForwardStep::Query(0));
    assert_eq!(first_step(ForwardRule::SkipTimeouts, 0), ForwardStep::Fail(ForwardError::NoUpstream));
    assert_eq!(first_step(ForwardRule::StopOnFailure, 0), ForwardStep::Fail(ForwardError::NoUpstream));
    assert_eq!(first_step(ForwardRule::SkipFailedExchanges, 0), ForwardStep::DeliverEmpty);
}

#[test]
fn answers_are_delivered() {
    for rule in [ForwardRule::SkipTimeouts, ForwardRule::StopOnFailure, ForwardRule::SkipFailedExchanges] {
        assert_eq!(next_step(rule, 0, 2, UpstreamOutcome::Answered), ForwardStep::Deliver);
        assert_eq!(next_step(rule, 1, 2, UpstreamOutcome::BindFailed), ForwardStep::Fail(ForwardError::Bind));
    }
}

#[test]
fn daemon_skips_timeouts_only() {
    let r = ForwardRule::SkipTimeouts;
    assert_eq!(next_step(r, 0, 2, UpstreamOutcome::TimedOut), ForwardStep::Query(1));
    assert_eq!(next_step(r, 1, 2, UpstreamOutcome::TimedOut), ForwardStep::Fail(ForwardError::NoUpstream));
    assert_eq!(next_step(r, 0, 2, UpstreamOutcome::ExchangeFailed), ForwardStep::Fail(ForwardError::Exchange));
}

#[test]
fn hijacker_stops_on_any_failure() {
    let r = ForwardRule::StopOnFailure;
    assert_eq!(next_step(r, 0, 2, UpstreamOutcome::TimedOut), ForwardStep::Fail(ForwardError::Timeout));
    assert_eq!(next_step(r, 0, 2, UpstreamOutcome::ExchangeFailed), ForwardStep::Fail(ForwardError::Exchange));
}

#[test]
fn server_skips_failed_exchanges_and_answers_empty_at_the_end() {
    let r = ForwardRule::SkipFailedExchanges;
    assert_eq!(next_step(r, 0, 3, UpstreamOutcome::ExchangeFailed), ForwardStep::Query(1));
    assert_eq!(next_step(r, 2, 3, UpstreamOutcome::ExchangeFailed), ForwardStep::DeliverEmpty);
    assert_eq!(next_step(r, 0, 3, UpstreamOutcome::TimedOut), ForwardStep::Fail(ForwardError::Timeout));
}

#[test]
fn hijacker_scans_both_schemes() {
    assert_eq!(proxy_scan_targets("example.com"), vec!["http://example.com", "https://example.com"]);
}

#[test]
fn scans_of_a_domain_are_more_than_ttl_apart_over_a_run() {
    let ttl = 10u32;
    let mut c = ScanCache::new();
    let domains = ["a.com", "b.com", "a.com", "c.com", "a.com", "b.com", "a.com", "a.com"];
    let mut scans: Vec<(String, u64)> = Vec::new();
    let mut now = 0u64;
    for (k, d) in domains.iter().cycle().take(200).enumerate() {
        now += (k % 4) as u64;
        if c.check(d.to_string(), now, ttl) != ScanDecision::Cached {
            scans.push((d.to_string(), now));
        }
    }
    for i in 0..scans.len() {
        for j in i + 1..scans.len() {
            if scans[i].0 == scans[j].0 {
                assert!(scans[j].1 - scans[i].1 > ttl as u64);
            }
        }
    }
    assert!(scans.len() > 3);
}
