use vstd::prelude::*;
use vstd::hash_map::StringHashMap;

verus! {

/// What the DNS proxy does with a domain that a client just resolved.
#[derive(Debug, Clone, Copy, PartialEq, Eq, Structural)]
pub enum ScanDecision {
    /// The domain was never scanned: scan it.
    FirstScan,
    /// The last scan is older than the cache's time to live: scan it again.
    TtlExpired,
    /// The domain was scanned recently: skip it.
    Cached,
}

impl ScanDecision {
    /// Whether the domain is to be scanned.
    pub open spec fn scans(self) -> bool {
        self != ScanDecision::Cached
    }
}

/// The decision for `domain` at time `now`, and the cache afterwards, given
/// `cache` (the time of each domain's last scan) and the time to live `ttl`.
pub open spec fn scan_step(cache: Map<Seq<char>, u64>, domain: Seq<char>, now: u64, ttl: u32) -> (
    ScanDecision,
    Map<Seq<char>, u64>,
) {
    if !cache.contains_key(domain) {
        (ScanDecision::FirstScan, cache.insert(domain, now))
    } else if now - cache[domain] > ttl {
        (ScanDecision::TtlExpired, cache.insert(domain, now))
    } else {
        (ScanDecision::Cached, cache)
    }
}

/// Whether no domain of `cache` was last scanned after `now`.
pub open spec fn all_before(cache: Map<Seq<char>, u64>, now: u64) -> bool {
    forall|d: Seq<char>| #[trigger] cache.contains_key(d) ==> cache[d] <= now
}

/// When each domain was last scanned, in seconds.
pub struct ScanCache {
    entries: StringHashMap<u64>,
}

impl View for ScanCache {
    type V = Map<Seq<char>, u64>;

    closed spec fn view(&self) -> Map<Seq<char>, u64> {
        self.entries@
    }
}

impl ScanCache {
    /// A cache that knows no domain.
    pub fn new() -> (c: Self)
        ensures
            c@ == Map::<Seq<char>, u64>::empty(),
    {
        ScanCache { entries: StringHashMap::new() }
    }

    /// How many domains the cache knows.
    pub fn len(&self) -> (n: usize)
        ensures
            n == self@.len(),
    {
        self.entries.len()
    }

    /// When `domain` was last scanned, if ever.
    pub fn last_scan(&self, domain: &str) -> (t: Option<u64>)
        ensures
            t == (if self@.contains_key(domain@) {
                Some(self@[domain@])
            } else {
                None::<u64>
            }),
    {
        match self.entries.get(domain) {
            Some(t) => Some(*t),
            None => None,
        }
    }

    /// Decides whether `domain`, resolved at time `now`, is to be scanned, and
    /// records `now` as its last scan when it is.
    pub fn check(&mut self, domain: String, now: u64, ttl: u32) -> (d: ScanDecision)
        requires
            old(self)@.contains_key(domain@) ==> old(self)@[domain@] <= now,
        ensures
            (d, final(self)@) == scan_step(old(self)@, domain@, now, ttl),
    {
        match self.entries.get(domain.as_str()) {
            None => {
                self.entries.insert(domain, now);
                ScanDecision::FirstScan
            },
            Some(last) => {
                if now - *last > ttl as u64 {
                    self.entries.insert(domain, now);
                    ScanDecision::TtlExpired
                } else {
                    ScanDecision::Cached
                }
            },
        }
    }
}

/// A domain that was just scanned is not scanned again while its time to
/// live runs, and the cache is left as it was by those checks.
pub proof fn law_no_rescan_within_ttl(
    cache: Map<Seq<char>, u64>,
    domain: Seq<char>,
    t1: u64,
    t2: u64,
    ttl: u32,
)
    requires
        scan_step(cache, domain, t1, ttl).0.scans(),
        t1 <= t2 <= t1 + ttl,
    ensures
        scan_step(scan_step(cache, domain, t1, ttl).1, domain, t2, ttl) == (
            ScanDecision::Cached,
            scan_step(cache, domain, t1, ttl).1,
        ),
{
}

/// Once the time to live has run out, the domain is scanned again.
pub proof fn law_rescan_after_ttl(
    cache: Map<Seq<char>, u64>,
    domain: Seq<char>,
    t1: u64,
    t2: u64,
    ttl: u32,
)
    requires
        scan_step(cache, domain, t1, ttl).0.scans(),
        t2 > t1 + ttl,
    ensures
        scan_step(scan_step(cache, domain, t1, ttl).1, domain, t2, ttl).0
            == ScanDecision::TtlExpired,
{
}

/// A check only touches the domain it is about, and a domain is scanned
/// exactly when it is recorded at the time of the check.
pub proof fn law_check_touches_one_domain(
    cache: Map<Seq<char>, u64>,
    domain: Seq<char>,
    other: Seq<char>,
    now: u64,
    ttl: u32,
)
    requires
        other != domain,
    ensures
        scan_step(cache, domain, now, ttl).1.contains_key(other) == cache.contains_key(other),
        cache.contains_key(other) ==> scan_step(cache, domain, now, ttl).1[other] == cache[other],
        scan_step(cache, domain, now, ttl).1.contains_key(domain),
        scan_step(cache, domain, now, ttl).0.scans() <==> scan_step(cache, domain, now, ttl).1[domain]
            == now && (!cache.contains_key(domain) || now - cache[domain] > ttl),
{
}

/// The cache after checking, in order, each (domain, time) of `checks`.
pub open spec fn cache_after(cache: Map<Seq<char>, u64>, checks: Seq<(Seq<char>, u64)>, ttl: u32) -> Map<
    Seq<char>,
    u64,
>
    decreases checks.len(),
{
    if checks.len() == 0 {
        cache
    } else {
        scan_step(cache_after(cache, checks.drop_last(), ttl), checks.last().0, checks.last().1, ttl).1
    }
}

/// The decision of the `k`-th check of `checks`, made on the cache that the
/// checks before it left.
pub open spec fn decision_at(cache: Map<Seq<char>, u64>, checks: Seq<(Seq<char>, u64)>, k: int, ttl: u32) -> ScanDecision {
    scan_step(cache_after(cache, checks.take(k), ttl), checks[k].0, checks[k].1, ttl).0
}

/// After a scan of `d` at the `i`-th check, every later cache records for
/// `d` a time no earlier than that scan.
proof fn lemma_scan_stays_recorded(
    cache: Map<Seq<char>, u64>,
    checks: Seq<(Seq<char>, u64)>,
    i: int,
    m: int,
    ttl: u32,
)
    requires
        0 <= i < m <= checks.len(),
        forall|a: int, b: int| 0 <= a <= b < checks.len() ==> checks[a].1 <= checks[b].1,
        decision_at(cache, checks, i, ttl).scans(),
    ensures
        cache_after(cache, checks.take(m), ttl).contains_key(checks[i].0),
        cache_after(cache, checks.take(m), ttl)[checks[i].0] >= checks[i].1,
    decreases m,
{
    let d = checks[i].0;
    assert(checks.take(m).drop_last() =~= checks.take(m - 1));
    assert(checks.take(m).last() == checks[m - 1]);
    if m - 1 > i {
        lemma_scan_stays_recorded(cache, checks, i, m - 1, ttl);
    }
}

/// Over any run of checks whose clock never goes back, two scans of the same
/// domain are more than the time to live apart.
pub proof fn law_scans_of_a_domain_are_ttl_apart(
    cache: Map<Seq<char>, u64>,
    checks: Seq<(Seq<char>, u64)>,
    i: int,
    j: int,
    ttl: u32,
)
    requires
        0 <= i < j < checks.len(),
        forall|a: int, b: int| 0 <= a <= b < checks.len() ==> checks[a].1 <= checks[b].1,
        checks[i].0 == checks[j].0,
        decision_at(cache, checks, i, ttl).scans(),
        decision_at(cache, checks, j, ttl).scans(),
    ensures
        checks[j].1 - checks[i].1 > ttl,
{
    lemma_scan_stays_recorded(cache, checks, i, j, ttl);
}

/// If no recorded scan lies after `now`, none does after the check either,
/// for any later time: checks made with a clock that does not go back never
/// meet a scan recorded in their future.
pub proof fn law_checks_keep_times_in_the_past(
    cache: Map<Seq<char>, u64>,
    domain: Seq<char>,
    now: u64,
    later: u64,
    ttl: u32,
)
    requires
        all_before(cache, now),
        now <= later,
    ensures
        all_before(scan_step(cache, domain, now, ttl).1, later),
{
}

} // verus!
