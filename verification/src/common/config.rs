use vstd::prelude::*;

verus! {

/// Settings of the DNS proxy that the daemon serves.
#[derive(Debug, Clone)]
pub struct DnsProxyConfig {
    pub enabled: bool,
    pub bind: String,
    pub upstreams: Vec<String>,
}

/// Settings of the daemon.
#[derive(Debug, Clone)]
pub struct DaemonConfig {
    pub api: DaemonApiConfig,
}

/// Settings of the daemon's control API.
#[derive(Debug, Clone)]
pub struct DaemonApiConfig {
    pub enabled: bool,
    pub bind: String,
}

/// Settings of the scanner.
#[derive(Debug, Clone)]
pub struct ScannerConfig {
    pub nuclei: ScannerNucleiConfig,
    pub check_force_ssl: bool,
    pub cache_ttl: u32,
}

/// How nuclei is started.
#[derive(Debug, Clone)]
pub struct ScannerNucleiConfig {
    pub nuclei_executable: String,
    pub cli_args: Vec<String>,
    pub using_community_templates: Vec<String>,
}

/// Settings of the detection database.
#[derive(Debug, Clone)]
pub struct DatabaseConfig {
    pub save_detections: bool,
    pub detections_limiter_enabled: bool,
    pub max_detections: usize,
}

impl Default for DatabaseConfig {
    /// Every switch off and no limit.
    fn default() -> (c: Self)
        ensures
            !c.save_detections,
            !c.detections_limiter_enabled,
            c.max_detections == 0,
    {
        DatabaseConfig { save_detections: false, detections_limiter_enabled: false, max_detections: 0 }
    }
}

/// The whole configuration, together with the file it was read from.
#[derive(Debug, Clone)]
pub struct HoggConfig {
    pub dnsproxy: DnsProxyConfig,
    pub daemon: DaemonConfig,
    pub scanner: ScannerConfig,
    pub database: DatabaseConfig,
    pub _file: String,
}

/// Whether an entry of the configuration template is written out: its path
/// matches the pattern `*.*`, that is, it holds a `.` somewhere.
pub fn is_template_file(path: &str) -> (r: bool)
    ensures
        r == path@.contains('.'),
{
    let n = path.unicode_len();
    let mut i: usize = 0;
    while i < n
        invariant
            n == path@.len(),
            i <= n,
            forall|j: int| 0 <= j < i ==> path@[j] != '.',
        decreases n - i,
    {
        if path.get_char(i) == '.' {
            return true;
        }
        i = i + 1;
    }
    false
}

} // verus!
