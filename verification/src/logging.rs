//! The levels at which the frontend logs, its own messages and those of
//! the cores and of the display.

use vstd::prelude::*;

verus! {

/// The levels of the log.
#[derive(Clone, Copy, Debug, PartialEq, Eq, Hash, Structural)]
pub enum LogLevel {
    Trace,
    Debug,
    Info,
    Warn,
    Error,
}

/// The level that a number of the log interface stands for. A number
/// without a level counts as a warning.
pub open spec fn level_of(level: u32) -> LogLevel {
    if level == 0 {
        LogLevel::Debug
    } else if level == 1 {
        LogLevel::Info
    } else if level == 3 {
        LogLevel::Error
    } else {
        LogLevel::Warn
    }
}

/// The level at which a message from outside is logged.
pub fn gamepie_log_level(level: u32) -> (r: LogLevel)
    ensures
        r == level_of(level),
{
    match level {
        0 => LogLevel::Debug,
        1 => LogLevel::Info,
        2 => LogLevel::Warn,
        3 => LogLevel::Error,
        _ => LogLevel::Warn,
    }
}

/// The level down to which the frontend logs, given the flags of the
/// command line.
pub fn level_filter(verbose: bool, trace: bool) -> (r: LogLevel)
    ensures
        r == if trace {
            LogLevel::Trace
        } else if verbose {
            LogLevel::Debug
        } else {
            LogLevel::Info
        },
{
    if verbose || trace {
        if trace {
            LogLevel::Trace
        } else {
            LogLevel::Debug
        }
    } else {
        LogLevel::Info
    }
}

} // verus!
