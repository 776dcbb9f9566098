//! Mapping of the command line's verbosity count to a log level.

use vstd::prelude::*;

verus! {

/// Severity threshold of the trace log.
#[derive(Clone, Copy, Debug, PartialEq, Eq, Structural)]
pub enum LogLevel {
    Off,
    Error,
    Warn,
    Info,
    Debug,
    Trace,
}

/// The level selected by `loglevel` repetitions of the verbosity flag.
pub open spec fn level_of(loglevel: int) -> LogLevel {
    if loglevel == 1 {
        LogLevel::Error
    } else if loglevel == 2 {
        LogLevel::Warn
    } else if loglevel == 3 {
        LogLevel::Info
    } else if loglevel == 4 {
        LogLevel::Debug
    } else if loglevel == 5 {
        LogLevel::Trace
    } else {
        LogLevel::Off
    }
}

/// Maps a verbosity count to its level; anything outside `1..=5` switches logging off.
pub fn to_levelfilter(loglevel: usize) -> (level: LogLevel)
    ensures
        level == level_of(loglevel as int),
{
    match loglevel {
        1 => LogLevel::Error,
        2 => LogLevel::Warn,
        3 => LogLevel::Info,
        4 => LogLevel::Debug,
        5 => LogLevel::Trace,
        _ => LogLevel::Off,
    }
}

} // verus!
