//! Lines for the log.

use vstd::prelude::*;

verus! {

/// How much a line matters.
#[derive(Debug, Clone, Copy, PartialEq, Eq)]
pub enum LogLevel {
    Warn,
    Error,
}

/// A line for the log: its level, which event it belongs to, and the message.
#[derive(Debug, PartialEq, Eq)]
pub struct LogLine {
    pub level: LogLevel,
    pub event: &'static str,
    pub message: String,
}

} // verus!
