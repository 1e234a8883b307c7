//! The six-value severity scale and the mapping from the legacy textual level
//! names onto it.

use vstd::prelude::*;

use crate::errors::ConfigError;
use crate::strutil::{exactly_one_eq, find_eq, contains_eq_from, name_of, value_of, str_eq};
use vstd::string::StrSliceExecFns;

verus! {

/// The ordered severity scale a resolved configuration stores.
#[derive(Clone, Copy, Debug, PartialEq, Eq, Structural)]
pub enum LogLevel {
    Critical,
    Error,
    Warning,
    Info,
    Debug,
    Trace,
}

/// The level a legacy textual name denotes. `fatal` and `panic` deliberately
/// map to `Critical`: the scale has no aborting level.
pub open spec fn level_of(v: Seq<char>) -> Result<LogLevel, ConfigError> {
    if v == "fatal"@ || v == "panic"@ || v == "critical"@ {
        Ok(LogLevel::Critical)
    } else if v == "error"@ {
        Ok(LogLevel::Error)
    } else if v == "warn"@ || v == "warning"@ {
        Ok(LogLevel::Warning)
    } else if v == "info"@ {
        Ok(LogLevel::Info)
    } else if v == "debug"@ {
        Ok(LogLevel::Debug)
    } else if v == "trace"@ {
        Ok(LogLevel::Trace)
    } else {
        Err(ConfigError::InvalidLogLevel)
    }
}

/// What a whole `agent.log=<level>` token resolves to: exactly two
/// `=`-separated fields, the log level key, and a recognized level name.
pub open spec fn log_level_of(t: Seq<char>) -> Result<LogLevel, ConfigError> {
    if !exactly_one_eq(t) {
        Err(ConfigError::InvalidLogLevelParam)
    } else if name_of(t) != "agent.log"@ {
        Err(ConfigError::InvalidLogLevelKey)
    } else {
        level_of(value_of(t))
    }
}

/// Map a legacy textual level name to the internal scale.
pub fn logrus_to_slog_level(logrus_level: &str) -> (r: Result<LogLevel, ConfigError>)
    ensures
        r == level_of(logrus_level@),
{
    if str_eq(logrus_level, "fatal") || str_eq(logrus_level, "panic") || str_eq(
        logrus_level,
        "critical",
    ) {
        Ok(LogLevel::Critical)
    } else if str_eq(logrus_level, "error") {
        Ok(LogLevel::Error)
    } else if str_eq(logrus_level, "warn") || str_eq(logrus_level, "warning") {
        Ok(LogLevel::Warning)
    } else if str_eq(logrus_level, "info") {
        Ok(LogLevel::Info)
    } else if str_eq(logrus_level, "debug") {
        Ok(LogLevel::Debug)
    } else if str_eq(logrus_level, "trace") {
        Ok(LogLevel::Trace)
    } else {
        Err(ConfigError::InvalidLogLevel)
    }
}

/// Extract the level from a whole `agent.log=<level>` token.
pub fn get_log_level(param: &str) -> (r: Result<LogLevel, ConfigError>)
    ensures
        r == log_level_of(param@),
{
    let n = param.unicode_len();
    match find_eq(param) {
        None => Err(ConfigError::InvalidLogLevelParam),
        Some(i) => {
            if contains_eq_from(param, i + 1) {
                return Err(ConfigError::InvalidLogLevelParam);
            }
            let name = param.substring_char(0, i);
            if !str_eq(name, "agent.log") {
                return Err(ConfigError::InvalidLogLevelKey);
            }
            let value = param.substring_char(i + 1, n);
            logrus_to_slog_level(value)
        },
    }
}

} // verus!
