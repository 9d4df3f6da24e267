//! The logger facade: one printing operation per severity, each of which
//! also records into a bounded, lock-protected history, and a snapshot read.

use vstd::prelude::*;
use vstd::rwlock::RwLock;
use vstd::rwlock::RwLockPredicate;
use crate::ambient::current_thread_tag;
use crate::ambient::emit_line;
use crate::ambient::now_timestamp;
use crate::ambient::paint_blue;
use crate::ambient::paint_cyan;
use crate::ambient::paint_green;
use crate::ambient::paint_purple;
use crate::ambient::paint_red;
use crate::ambient::paint_white;
use crate::ambient::paint_white_on_red;
use crate::ambient::paint_yellow;
use crate::history::History;
use crate::level::LevelStyle;
use crate::level::LogLevel;
use crate::line::bracketed;
use crate::line::compose_line;
use crate::record::LogEntry;
use crate::HISTORY_CAPACITY;

verus! {

/// The invariant the history lock maintains: whatever is stored in the lock
/// is a well-formed history, so it never exceeds `HISTORY_CAPACITY`.
pub struct HistoryPred {}

impl RwLockPredicate<History> for HistoryPred {
    open spec fn inv(self, h: History) -> bool {
        h.wf()
    }
}

/// The logger. Each value owns one history behind a mutual-exclusion lock;
/// every thread that can reach the value may call any method concurrently.
/// The logger keeps no other state: the five severity methods are
/// independent, side-effect-only operations.
pub struct HorizonLogger {
    history: RwLock<History, HistoryPred>,
}

/// The severity label of `level`, painted in the style `spec_style` fixes
/// for it. The mapping is total: no level falls through to a default.
fn styled_label(level: LogLevel) -> String {
    match level.style() {
        LevelStyle::CyanFg => paint_cyan(level.label()),
        LevelStyle::GreenFg => paint_green(level.label()),
        LevelStyle::YellowFg => paint_yellow(level.label()),
        LevelStyle::RedFg => paint_red(level.label()),
        LevelStyle::WhiteOnRedBg => paint_white_on_red(level.label()),
    }
}

impl HorizonLogger {
    /// Create a logger with an empty history.
    pub fn new() -> Self {
        HorizonLogger { history: RwLock::new(History::new(), Ghost(HistoryPred {})) }
    }

    /// Log a debug message.
    pub fn debug(&self, component: &str, message: &str) {
        self.log(LogLevel::DEBUG, component, message);
    }

    /// Log an info message.
    pub fn info(&self, component: &str, message: &str) {
        self.log(LogLevel::INFO, component, message);
    }

    /// Log a warning message.
    pub fn warn(&self, component: &str, message: &str) {
        self.log(LogLevel::WARN, component, message);
    }

    /// Log an error message.
    pub fn error(&self, component: &str, message: &str) {
        self.log(LogLevel::ERROR, component, message);
    }

    /// Log a critical message.
    pub fn critical(&self, component: &str, message: &str) {
        self.log(LogLevel::CRITICAL, component, message);
    }

    /// Print one colored line for the call and record it in the history.
    /// Any component and message are accepted as they are: empty, unicode,
    /// or arbitrarily long. Only the history's length is capped, never the
    /// message.
    fn log(&self, level: LogLevel, component: &str, message: &str) {
        let timestamp = now_timestamp();
        let thread_tag = current_thread_tag();

        let styled_timestamp = paint_white(timestamp.as_str());
        let label = styled_label(level);
        let bracketed_thread = bracketed(thread_tag.as_str());
        let styled_thread = paint_purple(bracketed_thread.as_str());
        let bracketed_component = bracketed(component);
        let styled_component = paint_blue(bracketed_component.as_str());
        let line = compose_line(
            styled_timestamp.as_str(),
            label.as_str(),
            styled_thread.as_str(),
            styled_component.as_str(),
            message,
        );
        emit_line(line.as_str());

        let entry = LogEntry {
            timestamp,
            level,
            component: component.to_owned(),
            message: message.to_owned(),
        };
        let (mut hist, write_handle) = self.history.acquire_write();
        hist.record(entry);
        write_handle.release_write(hist);
    }

    /// An independent snapshot of the retained records, oldest first. The
    /// result never holds more than `HISTORY_CAPACITY` records.
    ///
    /// Acquiring the history lock blocks until it is available and cannot
    /// fail: the lock does not record a prior holder's failure, so there is
    /// no degraded path on which the history would be unavailable.
    pub fn get_history(&self) -> (r: Vec<LogEntry>)
        ensures
            r@.len() <= HISTORY_CAPACITY,
    {
        let read_handle = self.history.acquire_read();
        let snap = read_handle.borrow().snapshot();
        read_handle.release_read();
        snap
    }
}

/// A short tour of the logger's API.
pub fn example_usage() {
    let logger = HorizonLogger::new();

    logger.debug("SYSTEM", "Initializing server...");
    logger.info("NETWORK", "Player connected from 192.168.1.1");
    logger.warn("GAME", "Player attempted invalid move");
    logger.error("DATABASE", "Failed to save player state");
    logger.critical("SECURITY", "Detected potential security breach");

    logger.info("PLAYER", "Player John joined the game");
    logger.warn("PHYSICS", "Collision detection took 150ms");

    logger.info("GAME/COMBAT", "Player dealt 50 damage");
    logger.debug("NETWORK/WEBSOCKET", "Processing message batch");
}

} // verus!
