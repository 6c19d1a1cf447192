//! The log record model: a severity level, a target, and a message.

use vstd::prelude::*;

verus! {

/// Severity of a log record, from most to least severe.
#[derive(Clone, Copy, PartialEq, Eq, Structural, Debug)]
pub enum Level {
    Error,
    Warn,
    Info,
    Debug,
    Trace,
}

/// The characters of a level's upper-case name.
pub open spec fn level_chars(level: Level) -> Seq<char> {
    match level {
        Level::Error => "ERROR"@,
        Level::Warn => "WARN"@,
        Level::Info => "INFO"@,
        Level::Debug => "DEBUG"@,
        Level::Trace => "TRACE"@,
    }
}

impl Level {
    /// The upper-case name of the level, as the pattern encoder prints it.
    pub fn as_str(self) -> (r: &'static str)
        ensures
            r@ == level_chars(self),
    {
        match self {
            Level::Error => "ERROR",
            Level::Warn => "WARN",
            Level::Info => "INFO",
            Level::Debug => "DEBUG",
            Level::Trace => "TRACE",
        }
    }
}

/// One structured log event handed over by the host logging framework.
///
/// The `target` names the module or subsystem that emitted the record; it is
/// metadata for the host's filtering and is not printed by the default
/// pattern encoder.
#[derive(Debug)]
pub struct LogRecord {
    pub level: Level,
    pub target: String,
    pub message: String,
}

impl LogRecord {
    /// Builds a record from its parts.
    pub fn new(level: Level, target: String, message: String) -> (r: LogRecord)
        ensures
            r.level == level,
            r.target == target,
            r.message == message,
    {
        LogRecord { level, target, message }
    }
}

} // verus!
