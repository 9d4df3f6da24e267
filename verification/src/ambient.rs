//! Trusted boundary to the process's surroundings: the wall clock, the
//! calling thread's identity, terminal coloring, and standard output.
//!
//! Every function here either reads something ambient (the clock, the thread,
//! the environment's color preference) or writes to the console, so none of
//! their results can be pinned down by a contract; the verified logic treats
//! them as opaque strings and sinks.

use vstd::prelude::*;
use std::io::Write;
use colored::Colorize;

verus! {

/// Relies on chrono's `Local::now` and `DateTime::format`: the current local
/// wall-clock time rendered as `YYYY-MM-DD HH:MM:SS.mmm`, with the
/// milliseconds truncated, not rounded. The result depends on the clock, so
/// nothing is promised of it.
#[verifier::external_body]
pub(crate) fn now_timestamp() -> String {
    chrono::Local::now().format("%Y-%m-%d %H:%M:%S%.3f").to_string()
}

/// Relies on `thread_id::get`: a numeric identifier unique to the calling
/// thread for as long as the thread runs. The result depends on the process
/// and the machine, so nothing is promised of it.
#[verifier::external_body]
pub(crate) fn current_thread_tag() -> String {
    format!("{}", thread_id::get())
}

/// Relies on `std::io::stdout`: writes `line` followed by a newline to
/// standard output. Write errors are ignored: the console is treated as an
/// infallible sink.
#[verifier::external_body]
pub(crate) fn emit_line(line: &str) {
    let _ = writeln!(std::io::stdout(), "{}", line);
}

/// Relies on colored's `Colorize::cyan`: the text with a cyan foreground
/// when coloring is enabled. Whether escape codes are emitted depends on the
/// environment, so nothing is promised of the result.
#[verifier::external_body]
pub(crate) fn paint_cyan(s: &str) -> String {
    s.cyan().to_string()
}

/// Relies on colored's `Colorize::green`: the text with a green foreground
/// when coloring is enabled. Whether escape codes are emitted depends on the
/// environment, so nothing is promised of the result.
#[verifier::external_body]
pub(crate) fn paint_green(s: &str) -> String {
    s.green().to_string()
}

/// Relies on colored's `Colorize::yellow`: the text with a yellow foreground
/// when coloring is enabled. Whether escape codes are emitted depends on the
/// environment, so nothing is promised of the result.
#[verifier::external_body]
pub(crate) fn paint_yellow(s: &str) -> String {
    s.yellow().to_string()
}

/// Relies on colored's `Colorize::red`: the text with a red foreground when
/// coloring is enabled. Whether escape codes are emitted depends on the
/// environment, so nothing is promised of the result.
#[verifier::external_body]
pub(crate) fn paint_red(s: &str) -> String {
    s.red().to_string()
}

/// Relies on colored's `Colorize::white`: the text with a white foreground
/// when coloring is enabled. Whether escape codes are emitted depends on the
/// environment, so nothing is promised of the result.
#[verifier::external_body]
pub(crate) fn paint_white(s: &str) -> String {
    s.white().to_string()
}

/// Relies on colored's `Colorize::blue`: the text with a blue foreground
/// when coloring is enabled. Whether escape codes are emitted depends on the
/// environment, so nothing is promised of the result.
#[verifier::external_body]
pub(crate) fn paint_blue(s: &str) -> String {
    s.blue().to_string()
}

/// Relies on colored's `Colorize::purple`: the text with a purple foreground
/// when coloring is enabled. Whether escape codes are emitted depends on the
/// environment, so nothing is promised of the result.
#[verifier::external_body]
pub(crate) fn paint_purple(s: &str) -> String {
    s.purple().to_string()
}

/// Relies on colored's `Colorize::on_red` and `Colorize::white`, chained:
/// the text as white on a red background when coloring is enabled. Whether
/// escape codes are emitted depends on the environment, so nothing is
/// promised of the result.
#[verifier::external_body]
pub(crate) fn paint_white_on_red(s: &str) -> String {
    s.on_red().white().to_string()
}

} // verus!
