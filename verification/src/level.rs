//! Severity levels and the numeric codes that stand for them.

use vstd::prelude::*;

verus! {

/// Severity attached to a unit of work, the most severe first.
#[derive(Clone, Copy, Debug, PartialEq, Eq, Structural, PartialOrd, Ord, Hash)]
pub enum Level {
    Error,
    Warn,
    Info,
    Debug,
    Trace,
}

/// Code of the finest level, below debugging output.
pub const TRACE_CODE: u64 = 5;

/// Code of debugging output.
pub const DEBUG_CODE: u64 = 10;

/// Code of informational output.
pub const INFO_CODE: u64 = 20;

/// Code of warnings.
pub const WARN_CODE: u64 = 30;

/// Code of errors.
pub const ERROR_CODE: u64 = 40;

/// Code of critical errors, which count as errors here.
pub const CRITICAL_CODE: u64 = 50;

/// Whether `code` is one of the six codes that stand for a level.
pub open spec fn is_level_code(code: u64) -> bool {
    code == TRACE_CODE || code == DEBUG_CODE || code == INFO_CODE || code == WARN_CODE || code
        == ERROR_CODE || code == CRITICAL_CODE
}

/// The level that `code` stands for, if it stands for one.
pub open spec fn level_of_code(code: u64) -> Option<Level> {
    if code == TRACE_CODE {
        Some(Level::Trace)
    } else if code == DEBUG_CODE {
        Some(Level::Debug)
    } else if code == INFO_CODE {
        Some(Level::Info)
    } else if code == WARN_CODE {
        Some(Level::Warn)
    } else if code == ERROR_CODE || code == CRITICAL_CODE {
        Some(Level::Error)
    } else {
        None
    }
}

impl Level {
    /// Decodes a severity code. A code that stands for no level gives
    /// `None`: there is no level to fall back on.
    pub fn from_code(code: u64) -> (level: Option<Level>)
        ensures
            level == level_of_code(code),
            level is Some <==> is_level_code(code),
    {
        if code == TRACE_CODE {
            Some(Level::Trace)
        } else if code == DEBUG_CODE {
            Some(Level::Debug)
        } else if code == INFO_CODE {
            Some(Level::Info)
        } else if code == WARN_CODE {
            Some(Level::Warn)
        } else if code == ERROR_CODE || code == CRITICAL_CODE {
            Some(Level::Error)
        } else {
            None
        }
    }
}

/// A code outside the six recognised ones stands for no level, and each of
/// the six stands for one.
pub proof fn only_recognised_codes_have_levels(code: u64)
    ensures
        level_of_code(code) is Some <==> is_level_code(code),
{
}

/// Every level is written by some code.
pub proof fn every_level_has_a_code(level: Level)
    ensures
        exists|code: u64| is_level_code(code) && #[trigger] level_of_code(code) == Some(level),
{
    match level {
        Level::Error => assert(level_of_code(ERROR_CODE) == Some(level)),
        Level::Warn => assert(level_of_code(WARN_CODE) == Some(level)),
        Level::Info => assert(level_of_code(INFO_CODE) == Some(level)),
        Level::Debug => assert(level_of_code(DEBUG_CODE) == Some(level)),
        Level::Trace => assert(level_of_code(TRACE_CODE) == Some(level)),
    }
}

} // verus!
