//! Log records as the client keeps them for display.
use vstd::prelude::*;

verus! {

#[derive(Debug, Clone, Copy, PartialEq, Eq, Structural)]
pub enum LogLevel {
    Error,
    Warn,
    Info,
    Debug,
    Trace,
}

/// One log record; `timestamp_millis` is wall-clock time in milliseconds since the Unix epoch.
#[derive(Debug, Clone)]
pub struct LogEntry {
    pub timestamp_millis: u64,
    pub level: LogLevel,
    pub message: String,
}

} // verus!
