//! Where the log goes and how much of it is kept.

use crate::configutil::{prefer, Config};
use std::str::FromStr;
use vstd::prelude::*;
use vstd::string::*;

verus! {

/// How much is logged. Each level includes those before it.
#[derive(Clone, Copy, Debug, PartialEq, Eq, Structural)]
pub enum LogLevel {
    Off,
    Error,
    Warn,
    Info,
    Debug,
    Trace,
}

/// Where the log is written.
#[derive(Clone, Debug, PartialEq, Eq)]
pub enum LogTarget {
    /// Standard output.
    Stdout,
    /// The file at this path, appended to and created if missing.
    File(String),
}

/// How to set up logging.
#[derive(Clone, Debug, PartialEq, Eq)]
pub struct LogSetup {
    pub level: LogLevel,
    pub target: LogTarget,
}

/// An ASCII capital letter as its small letter; any other character is
/// itself.
pub open spec fn ascii_lower(c: char) -> char {
    if 'A' <= c <= 'Z' {
        ((c as int) + 32) as char
    } else {
        c
    }
}

/// Whether two texts are the same but for the case of ASCII letters.
pub open spec fn same_ignoring_case(a: Seq<char>, b: Seq<char>) -> bool {
    &&& a.len() == b.len()
    &&& forall|i: int| 0 <= i < a.len() ==> ascii_lower(a[i]) == ascii_lower(b[i])
}

/// The level that a text names: `off`, `error`, `warn`, `info`, `debug` or
/// `trace`, in any letter case.
pub open spec fn level_named(name: Seq<char>) -> Option<LogLevel> {
    if same_ignoring_case(name, "OFF"@) {
        Some(LogLevel::Off)
    } else if same_ignoring_case(name, "ERROR"@) {
        Some(LogLevel::Error)
    } else if same_ignoring_case(name, "WARN"@) {
        Some(LogLevel::Warn)
    } else if same_ignoring_case(name, "INFO"@) {
        Some(LogLevel::Info)
    } else if same_ignoring_case(name, "DEBUG"@) {
        Some(LogLevel::Debug)
    } else if same_ignoring_case(name, "TRACE"@) {
        Some(LogLevel::Trace)
    } else {
        None
    }
}

/// Reads the name of a log level.
///
/// Calls `LevelFilter::from_str` of the log crate. Taken on trust: it yields
/// the level whose name, one of `OFF`, `ERROR`, `WARN`, `INFO`, `DEBUG` and
/// `TRACE`, equals the text but for the case of ASCII letters, and fails on
/// every other text.
#[verifier::external_body]
pub(crate) fn parse_level(name: &str) -> (level: Option<LogLevel>)
    ensures
        level == level_named(name@),
{
    match log::LevelFilter::from_str(name) {
        Ok(log::LevelFilter::Off) => Some(LogLevel::Off),
        Ok(log::LevelFilter::Error) => Some(LogLevel::Error),
        Ok(log::LevelFilter::Warn) => Some(LogLevel::Warn),
        Ok(log::LevelFilter::Info) => Some(LogLevel::Info),
        Ok(log::LevelFilter::Debug) => Some(LogLevel::Debug),
        Ok(log::LevelFilter::Trace) => Some(LogLevel::Trace),
        Err(_) => None,
    }
}

/// The target of the log for a configured path: the file, or standard output
/// where the path is empty.
pub open spec fn log_target(path: Seq<char>) -> Option<Seq<char>> {
    if path.len() > 0 {
        Some(path)
    } else {
        None
    }
}

impl LogTarget {
    /// The path of the file, if the log goes to one.
    pub open spec fn path(&self) -> Option<Seq<char>> {
        match self {
            LogTarget::Stdout => None,
            LogTarget::File(path) => Some(path@),
        }
    }
}

/// Decides how logging is set up: at the configured level, to the configured
/// file, or to standard output where no file is configured.
pub fn loginit(config: &Config) -> (setup: LogSetup)
    ensures
        setup.level == prefer(level_named(config.loglevel@), LogLevel::Info),
        setup.target.path() == log_target(config.log@),
{
    let level = config.get_loglevel();
    let target = if config.log.as_str().is_empty() {
        LogTarget::Stdout
    } else {
        LogTarget::File(config.log.clone())
    };
    LogSetup { level, target }
}

} // verus!
