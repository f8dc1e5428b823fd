//! The settings of logging.

use crate::text::{concat2, lowercase_of, str_eq, to_lowercase};
use vstd::prelude::*;

verus! {

/// How much is logged.
#[derive(Debug, Clone, Copy, PartialEq, Eq, Structural)]
pub enum LogLevel {
    Trace,
    Debug,
    Info,
    Warn,
    Error,
}

/// The level that a name in lower case stands for.
pub open spec fn level_named(lower: Seq<char>) -> Option<LogLevel> {
    if lower == "trace"@ {
        Some(LogLevel::Trace)
    } else if lower == "debug"@ {
        Some(LogLevel::Debug)
    } else if lower == "info"@ {
        Some(LogLevel::Info)
    } else if lower == "warn"@ || lower == "warning"@ {
        Some(LogLevel::Warn)
    } else if lower == "error"@ {
        Some(LogLevel::Error)
    } else {
        None
    }
}

/// What reading a level from `given` returns, where `lower` is `given` in
/// lower case.
pub open spec fn level_read(r: Result<LogLevel, String>, lower: Seq<char>, given: Seq<char>) -> bool {
    match level_named(lower) {
        Some(level) => r == Ok::<LogLevel, String>(level),
        None => r is Err && r->Err_0@ == "Unknown log level: "@ + given,
    }
}

/// The name of a level as a filter directive.
pub open spec fn filter_of(level: LogLevel) -> Seq<char> {
    match level {
        LogLevel::Trace => "trace"@,
        LogLevel::Debug => "debug"@,
        LogLevel::Info => "info"@,
        LogLevel::Warn => "warn"@,
        LogLevel::Error => "error"@,
    }
}

impl LogLevel {
    /// The level that `lower` names; the error quotes `given`, the name as the
    /// user wrote it.
    pub fn from_lowercase(lower: &str, given: &str) -> (r: Result<LogLevel, String>)
        ensures
            level_read(r, lower@, given@),
    {
        if str_eq(lower, "trace") {
            Ok(LogLevel::Trace)
        } else if str_eq(lower, "debug") {
            Ok(LogLevel::Debug)
        } else if str_eq(lower, "info") {
            Ok(LogLevel::Info)
        } else if str_eq(lower, "warn") || str_eq(lower, "warning") {
            Ok(LogLevel::Warn)
        } else if str_eq(lower, "error") {
            Ok(LogLevel::Error)
        } else {
            Err(concat2("Unknown log level: ", given))
        }
    }

    /// The level that `s` names, in whatever case it is written.
    pub fn parse(s: &str) -> (r: Result<LogLevel, String>)
        ensures
            level_read(r, lowercase_of(s@), s@),
    {
        let lower = to_lowercase(s);
        LogLevel::from_lowercase(lower.as_str(), s)
    }

    /// The name of this level as a filter directive.
    pub fn filter(&self) -> (r: &'static str)
        ensures
            r@ == filter_of(*self),
    {
        match self {
            LogLevel::Trace => "trace",
            LogLevel::Debug => "debug",
            LogLevel::Info => "info",
            LogLevel::Warn => "warn",
            LogLevel::Error => "error",
        }
    }
}

impl std::str::FromStr for LogLevel {
    type Err = String;

    fn from_str(s: &str) -> (r: Result<LogLevel, String>)
        ensures
            level_read(r, lowercase_of(s@), s@),
    {
        LogLevel::parse(s)
    }
}

/// The settings of logging.
#[derive(Debug)]
pub struct LogConfig {
    /// How much is logged.
    pub level: LogLevel,
    /// Whether records are written as JSON.
    pub json: bool,
    /// Whether a record names the file and line it comes from.
    pub with_file: bool,
    /// Whether a record names its target.
    pub with_target: bool,
}

impl Default for LogConfig {
    fn default() -> (r: Self)
        ensures
            r.level == LogLevel::Info,
            !r.json,
            !r.with_file,
            r.with_target,
    {
        LogConfig { level: LogLevel::Info, json: false, with_file: false, with_target: true }
    }
}

impl LogConfig {
    /// The settings for a level and a format that were read from the
    /// environment: `level` is what was read of the level's name in lower
    /// case, `format_lower` the format's name in lower case. The level is
    /// `Info` where none was set or the name is not one; JSON is written where
    /// the format is `json`.
    pub fn from_values(level: Option<Result<LogLevel, String>>, format_lower: Option<&str>) -> (r:
        Self)
        ensures
            r.level == (match level {
                Some(Ok(l)) => l,
                _ => LogLevel::Info,
            }),
            r.json == (match format_lower {
                Some(f) => f@ == "json"@,
                None => false,
            }),
            !r.with_file,
            r.with_target,
    {
        let level = match level {
            Some(Ok(l)) => l,
            _ => LogLevel::Info,
        };
        let json = match format_lower {
            Some(f) => str_eq(f, "json"),
            None => false,
        };
        LogConfig { level, json, with_file: false, with_target: true }
    }

    /// The settings for what the environment holds under the names of the
    /// level and of the format, each as it was read or `None` where it is not
    /// set.
    pub fn from_settings(rust_log: Option<&str>, log_format: Option<&str>) -> (r: Self)
        ensures
            !r.with_file,
            r.with_target,
            rust_log is None ==> r.level == LogLevel::Info,
            rust_log is Some ==> r.level == (match level_named(lowercase_of(rust_log->0@)) {
                Some(l) => l,
                None => LogLevel::Info,
            }),
            r.json == (match log_format {
                Some(f) => lowercase_of(f@) == "json"@,
                None => false,
            }),
    {
        let level = match rust_log {
            Some(s) => Some(LogLevel::parse(s)),
            None => None,
        };
        match log_format {
            Some(f) => {
                let lower = to_lowercase(f);
                LogConfig::from_values(level, Some(lower.as_str()))
            },
            None => LogConfig::from_values(level, None),
        }
    }
}

} // verus!
