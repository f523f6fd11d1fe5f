use vstd::prelude::*;

verus! {

/// How much the application writes to its log file.
#[allow(non_camel_case_types, clippy::upper_case_acronyms)]
#[derive(Debug, Clone, Copy, PartialEq, Eq, Structural)]
pub enum LogLevel {
    OFF,
    TRACE,
    DEBUG,
    INFO,
    WARN,
    ERROR,
}

pub open spec fn level_name(level: LogLevel) -> Seq<char> {
    match level {
        LogLevel::OFF => "OFF"@,
        LogLevel::TRACE => "TRACE"@,
        LogLevel::DEBUG => "DEBUG"@,
        LogLevel::INFO => "INFO"@,
        LogLevel::WARN => "WARN"@,
        LogLevel::ERROR => "ERROR"@,
    }
}

/// Line layout of the log file with the source file and line of each record.
pub const DETAILED_PATTERN: &'static str = "[{d(%Y-%m-%d %H:%M:%S)} {l} {f}:{L}] {m}{n}";

/// Line layout of the log file without source locations.
pub const SHORT_PATTERN: &'static str = "[{d(%Y-%m-%d %H:%M:%S)} {l}] {m}{n}";

impl LogLevel {
    pub fn default() -> (r: Self)
        ensures
            r == LogLevel::INFO,
    {
        LogLevel::INFO
    }

    /// The level's name, as written in the configuration file.
    pub fn name(&self) -> (r: &'static str)
        ensures
            r@ == level_name(*self),
    {
        match self {
            LogLevel::OFF => "OFF",
            LogLevel::TRACE => "TRACE",
            LogLevel::DEBUG => "DEBUG",
            LogLevel::INFO => "INFO",
            LogLevel::WARN => "WARN",
            LogLevel::ERROR => "ERROR",
        }
    }

    /// Line layout of the log file: source locations are written at the
    /// debug level only.
    pub fn pattern(&self) -> (r: &'static str)
        ensures
            *self == LogLevel::DEBUG ==> r@ == DETAILED_PATTERN@,
            *self != LogLevel::DEBUG ==> r@ == SHORT_PATTERN@,
    {
        if let LogLevel::DEBUG = self {
            DETAILED_PATTERN
        } else {
            SHORT_PATTERN
        }
    }
}

} // verus!
