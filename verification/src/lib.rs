//! A process-local, human-readable logging utility.
//!
//! Log lines carry a timestamp, a severity, the calling thread's tag, a
//! caller-supplied component tag, and a free-text message. Each call prints
//! one colored line to standard output and appends a record to a bounded,
//! lock-protected in-memory history that callers can snapshot.

use vstd::prelude::*;

mod ambient;
pub mod history;
pub mod level;
pub mod line;
pub mod logger;
pub mod record;

pub use history::History;
pub use level::LevelStyle;
pub use level::LogLevel;
pub use line::bracketed;
pub use line::compose_line;
pub use logger::example_usage;
pub use logger::HorizonLogger;
pub use record::LogEntry;

verus! {

/// The most recent records the history retains.
pub const HISTORY_CAPACITY: usize = 1000;

} // verus!
