//! The command line, as parsed values.

use vstd::prelude::*;

verus! {

/// What the user asked for on the command line. A field left unset falls back
/// to the configuration file, then to the built-in default.
#[derive(Debug, Clone)]
pub struct Cli {
    /// Target IP addresses, host names or URLs.
    pub targets: Vec<String>,
    /// All targets must answer; otherwise one is enough.
    pub strict: bool,
    /// The configuration file to read.
    pub config: Option<String>,
    /// Read `./config.json` from the working directory.
    pub read_json: bool,
    /// Seconds between regular checks.
    pub normal_interval: Option<u64>,
    /// Seconds between emergency retries.
    pub emergency_interval: Option<u64>,
    /// Emergency retries before the host is shut down.
    pub emergency_retries: Option<u32>,
    /// How many times verbosity was raised.
    pub verbose: u8,
    /// Only summaries are printed.
    pub quiet: bool,
    /// Only structured status summaries are printed.
    pub status_only: bool,
    /// A spinner is shown while waiting.
    pub progress: bool,
}

} // verus!
