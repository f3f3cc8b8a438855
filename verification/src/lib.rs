//! Connectivity watchdog: probes a set of targets on a schedule and decides
//! when sustained unreachability warrants powering the host off.
//!
//! The crate holds the decisions only. Probing, sleeping, powering off and
//! writing files are left to the caller, which feeds results in and carries
//! the returned actions out.

pub mod address;
pub mod cli;
pub mod config;
pub mod monitor;
pub mod ping;
pub mod runtime;
pub mod signals;
pub mod system;
pub mod text;

pub use cli::Cli;
pub use config::{
    build_monitor_config, build_monitor_config_with_loader, ConfigError, ConfigLoader,
    MonitorConfig, OutputInfo, DEFAULT_CONFIG_PATH, ENV_CONFIG_PATH,
};
