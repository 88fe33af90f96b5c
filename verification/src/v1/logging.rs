//! How verbose the log is, as the configuration names it.

use vstd::prelude::*;

verus! {

/// The verbosity of the log, from the most to the least verbose.
#[derive(Clone, Copy, Debug, PartialEq, Eq, Structural)]
pub enum LogLevel {
    Trace,
    Debug,
    Info,
    Warn,
    Error,
}

/// The level that a configured name stands for. The five names are written
/// in lower case; any other name, and no name at all, stands for `Info`.
pub open spec fn log_level_of(name: Option<Seq<char>>) -> LogLevel {
    match name {
        Some(given) => if given == "trace"@ {
            LogLevel::Trace
        } else if given == "debug"@ {
            LogLevel::Debug
        } else if given == "warn"@ {
            LogLevel::Warn
        } else if given == "error"@ {
            LogLevel::Error
        } else {
            LogLevel::Info
        },
        None => LogLevel::Info,
    }
}

/// Whether `name` is spelled `spelling`.
fn is_spelled(name: &str, spelling: &str) -> (same: bool)
    ensures
        same == (name@ == spelling@),
{
    name.to_owned() == spelling.to_owned()
}

/// Reads the log level off its configured name.
pub fn log_level(name: Option<&str>) -> (level: LogLevel)
    ensures
        level == log_level_of(
            match name {
                Some(given) => Some(given@),
                None => None,
            },
        ),
{
    match name {
        Some(given) => {
            if is_spelled(given, "trace") {
                LogLevel::Trace
            } else if is_spelled(given, "debug") {
                LogLevel::Debug
            } else if is_spelled(given, "warn") {
                LogLevel::Warn
            } else if is_spelled(given, "error") {
                LogLevel::Error
            } else {
                LogLevel::Info
            }
        },
        None => LogLevel::Info,
    }
}

} // verus!
