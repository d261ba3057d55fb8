//! Log severities and the rule that derives one from the `-d` flag count.

use vstd::prelude::*;

verus! {

/// Log severity, ordered from the quietest (`Warn`) to the noisiest (`Trace`).
#[derive(Clone, Copy, Debug, PartialEq, Eq, Structural)]
pub enum LogLevel {
    Warn,
    Info,
    Debug,
    Trace,
}

impl LogLevel {
    /// Position of the level in the order `Warn < Info < Debug < Trace`.
    pub open spec fn spec_rank(self) -> u8 {
        match self {
            LogLevel::Warn => 0,
            LogLevel::Info => 1,
            LogLevel::Debug => 2,
            LogLevel::Trace => 3,
        }
    }

    /// Position of the level in the order `Warn < Info < Debug < Trace`.
    #[verifier::when_used_as_spec(spec_rank)]
    pub fn rank(self) -> (r: u8)
        ensures
            r == self.spec_rank(),
    {
        match self {
            LogLevel::Warn => 0,
            LogLevel::Info => 1,
            LogLevel::Debug => 2,
            LogLevel::Trace => 3,
        }
    }
}

/// The level selected by `occurrences` repetitions of the debug flag:
/// none is `Warn`, one `Info`, two `Debug`, three or more `Trace`.
pub open spec fn level_for_verbosity(occurrences: nat) -> LogLevel {
    if occurrences == 0 {
        LogLevel::Warn
    } else if occurrences == 1 {
        LogLevel::Info
    } else if occurrences == 2 {
        LogLevel::Debug
    } else {
        LogLevel::Trace
    }
}

/// Maps the number of times the debug flag was given to a log level.
pub fn log_level_for(occurrences: u64) -> (level: LogLevel)
    ensures
        level == level_for_verbosity(occurrences as nat),
{
    match occurrences {
        0 => LogLevel::Warn,
        1 => LogLevel::Info,
        2 => LogLevel::Debug,
        _ => LogLevel::Trace,
    }
}

} // verus!
