//! Routes the package database library's log messages to log severities.
use vstd::prelude::*;

verus! {

/// The library's log levels.
#[derive(Clone, Copy, Debug, PartialEq, Eq, Structural)]
pub enum LogLevel {
    Function,
    Debug,
    Warning,
    Error,
}

/// The severities of the process's log sink.
#[derive(Clone, Copy, Debug, PartialEq, Eq, Structural)]
pub enum Severity {
    Trace,
    Debug,
    Warn,
    Error,
}

/// The bit that stands for each level in the library's log calls.
pub const LOG_ERROR: u32 = 1;
pub const LOG_WARNING: u32 = 2;
pub const LOG_DEBUG: u32 = 4;
pub const LOG_FUNCTION: u32 = 8;

/// `s` without its trailing line breaks.
pub open spec fn trim_newlines(s: Seq<char>) -> Seq<char>
    decreases s.len(),
{
    if s.len() > 0 && s.last() == '\n' {
        trim_newlines(s.drop_last())
    } else {
        s
    }
}

/// The severity that a level is logged at.
pub open spec fn severity_of(level: LogLevel) -> Severity {
    match level {
        LogLevel::Function => Severity::Trace,
        LogLevel::Debug => Severity::Debug,
        LogLevel::Warning => Severity::Warn,
        LogLevel::Error => Severity::Error,
    }
}

impl LogLevel {
    /// The level that `bits` stands for; `None` for anything but the four
    /// single level bits.
    pub fn from_bits(bits: u32) -> (r: Option<LogLevel>)
        ensures
            r == (if bits == LOG_ERROR {
                Some(LogLevel::Error)
            } else if bits == LOG_WARNING {
                Some(LogLevel::Warning)
            } else if bits == LOG_DEBUG {
                Some(LogLevel::Debug)
            } else if bits == LOG_FUNCTION {
                Some(LogLevel::Function)
            } else {
                None
            }),
    {
        if bits == LOG_ERROR {
            Some(LogLevel::Error)
        } else if bits == LOG_WARNING {
            Some(LogLevel::Warning)
        } else if bits == LOG_DEBUG {
            Some(LogLevel::Debug)
        } else if bits == LOG_FUNCTION {
            Some(LogLevel::Function)
        } else {
            None
        }
    }
}

/// `s` without its trailing line breaks.
pub fn trim_end_newlines(s: &str) -> (r: String)
    ensures
        r@ == trim_newlines(s@),
{
    let mut end = s.unicode_len();
    assert(s@.subrange(0, end as int) =~= s@);
    while end > 0 && s.get_char(end - 1) == '\n'
        invariant
            end <= s@.len(),
            trim_newlines(s@) == trim_newlines(s@.subrange(0, end as int)),
        decreases end,
    {
        assert(s@.subrange(0, end as int).drop_last() =~= s@.subrange(0, end - 1));
        end = end - 1;
    }
    String::from_str(s.substring_char(0, end))
}

/// Routes log messages; it keeps no state.
#[derive(Clone, Copy, Debug, PartialEq, Eq)]
pub struct LogCallback {}

impl LogCallback {
    pub fn new() -> (r: Self) {
        LogCallback {}
    }

    /// The severity to log `message` at, and the message without its
    /// trailing line breaks.
    pub fn update(&self, level: LogLevel, message: &str) -> (r: (Severity, String))
        ensures
            r.0 == severity_of(level),
            r.1@ == trim_newlines(message@),
    {
        let severity = match level {
            LogLevel::Function => Severity::Trace,
            LogLevel::Debug => Severity::Debug,
            LogLevel::Warning => Severity::Warn,
            LogLevel::Error => Severity::Error,
        };
        (severity, trim_end_newlines(message))
    }
}

} // verus!
