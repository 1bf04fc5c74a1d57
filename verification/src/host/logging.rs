//! Log levels and the preamble of a log line, as the host sees them.

use vstd::prelude::*;

use crate::text::joined;
use crate::text::str_equal;

verus! {

/// The levels of a log event.
#[derive(Debug, Clone, Copy, PartialEq, Eq)]
pub enum LogLevel {
    Trace,
    Debug,
    Info,
    Warn,
    Error,
}

impl LogLevel {
    /// The name of the level in a log line.
    pub open spec fn name(self) -> Seq<char> {
        match self {
            LogLevel::Trace => "TRACE"@,
            LogLevel::Debug => "DEBUG"@,
            LogLevel::Info => "INFO"@,
            LogLevel::Warn => "WARN"@,
            LogLevel::Error => "ERROR"@,
        }
    }

    /// The name of the level in a log line.
    pub fn as_str(&self) -> (name: &'static str)
        ensures
            name@ == self.name(),
    {
        match self {
            LogLevel::Trace => "TRACE",
            LogLevel::Debug => "DEBUG",
            LogLevel::Info => "INFO",
            LogLevel::Warn => "WARN",
            LogLevel::Error => "ERROR",
        }
    }

    /// The level that a name stands for.
    pub fn from(name: &str) -> (level: Option<LogLevel>)
        ensures
            match level {
                Some(found) => found.name() == name@,
                None => forall|any: LogLevel| any.name() != name@,
            },
    {
        if str_equal(name, "TRACE") {
            Some(LogLevel::Trace)
        } else if str_equal(name, "DEBUG") {
            Some(LogLevel::Debug)
        } else if str_equal(name, "INFO") {
            Some(LogLevel::Info)
        } else if str_equal(name, "WARN") {
            Some(LogLevel::Warn)
        } else if str_equal(name, "ERROR") {
            Some(LogLevel::Error)
        } else {
            None
        }
    }
}

/// The text that precedes the message and the fields of a log line: the
/// level in brackets, the path of the module, and a colon.
pub open spec fn preamble_text(level: LogLevel, origin: Seq<char>) -> Seq<char> {
    "["@ + level.name() + "] "@ + origin + ":"@
}

/// Writes the preamble of a log line.
pub fn preamble(level: LogLevel, origin: &str) -> (text: String)
    ensures
        text@ == preamble_text(level, origin@),
{
    let start = joined("[", level.as_str());
    let bracketed = joined(start.as_str(), "] ");
    let named = joined(bracketed.as_str(), origin);
    joined(named.as_str(), ":")
}

} // verus!
