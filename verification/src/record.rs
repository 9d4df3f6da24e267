//! The stored log record: plain data, immutable once built.

use vstd::prelude::*;
use crate::level::LogLevel;

verus! {

/// One retained log record: the fields of one emitted line, kept for later
/// inspection. Records are plain data with no identity beyond their fields.
#[derive(Debug)]
pub struct LogEntry {
    /// The wall-clock time of the call, as printed on the console line.
    pub timestamp: String,
    /// The severity of the call.
    pub level: LogLevel,
    /// The caller-supplied component tag, stored as given.
    pub component: String,
    /// The caller-supplied message, stored as given, never truncated.
    pub message: String,
}

impl Clone for LogEntry {
    /// A clone equals the record it was made from.
    fn clone(&self) -> (r: Self)
        ensures
            r == *self,
    {
        LogEntry {
            timestamp: self.timestamp.clone(),
            level: self.level,
            component: self.component.clone(),
            message: self.message.clone(),
        }
    }
}

} // verus!
