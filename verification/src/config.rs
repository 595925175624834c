use vstd::prelude::*;

verus! {

/// The nuclei executable used when the configuration names none.
pub fn default_nuclei_path() -> (p: String)
    ensures
        p@ == "nuclei"@,
{
    String::from_str("nuclei")
}

/// How the scanner runs nuclei.
#[derive(Debug, Clone)]
pub struct NucleiConfig {
    pub nuclei_path: String,
    pub config_file: String,
    pub cli_args: String,
}

/// The scanner's configuration.
#[derive(Debug, Clone)]
pub struct Config {
    pub nuclei: NucleiConfig,
}

} // verus!
