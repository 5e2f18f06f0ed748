//! Lines for the log, as values: the pipeline decides what is said and how
//! loud, and leaves the writing to whoever runs it.

use vstd::prelude::*;

verus! {

/// How loud a line is logged.
#[derive(Debug, Clone, Copy, PartialEq, Eq, Structural)]
pub enum LogLevel {
    Debug,
    Info,
    Warn,
    Error,
}

/// One line for the log.
#[derive(Debug, Clone, PartialEq, Eq)]
pub struct LogLine {
    pub level: LogLevel,
    pub text: String,
}

/// What a health probe found.
#[derive(Debug, Clone, PartialEq, Eq)]
pub struct ProbeResult {
    /// Whether the probed service answered.
    pub healthy: bool,
    /// The line to log at error level where it did not.
    pub line: Option<String>,
}

} // verus!
