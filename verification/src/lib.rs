//! Resolution of a guest agent's runtime configuration from a kernel command
//! line, a structured configuration file overlay, and environment overrides.
//!
//! The crate turns the raw textual sources into one fully populated
//! [`config::AgentConfig`] record, with the merge order, per-field validation
//! and silent-versus-fatal failure policy stated in contracts and proved.

pub mod cmdline;
pub mod coercers;
pub mod config;
pub mod errors;
pub mod laws;
pub mod loglevel;
pub mod numparse;
pub mod strutil;

pub use cmdline::{CmdlineOutcome, ConfigFileArg, config_file_from_args};
pub use coercers::{
    get_bool_value, get_container_pipe_size, get_guest_components_features_value,
    get_guest_components_procs_value, get_string_value, get_timeout, get_url_value,
    get_vsock_port, GuestComponentsFeatures, GuestComponentsProcs,
};
pub use config::{AgentConfig, AgentConfigBuilder};
pub use errors::{ConfigError, IntErrorKind};
pub use loglevel::{get_log_level, logrus_to_slog_level, LogLevel};
