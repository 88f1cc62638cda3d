//! Renderers and the process-wide registry that selects one.

use vstd::prelude::*;

use std::io::Write;

use crate::level::{admits, enabled_for, Level};
use crate::record::Record;

verus! {

/// A renderer: consumes one record and produces output. Invoked only from
/// the single consumer; implementations should not panic and should avoid
/// unbounded blocking, since a slow renderer delays every queued record.
pub trait Logger {
    fn log(&self, record: &Record);
}

/// Process-wide configuration: the verbosity threshold and the active
/// renderer. Starts with compiled-in defaults and is installed at most
/// once; after the first effective call it never changes again.
pub struct Registry<L> {
    pub max_level: Level,
    pub renderer: L,
    pub initialized: bool,
}

impl<L> Registry<L> {
    /// The state `initialize` leaves behind: the first effective call wins,
    /// every later call changes nothing.
    pub open spec fn initialized_with(self, level: Level, renderer: L) -> Registry<L> {
        if self.initialized {
            self
        } else {
            Registry { max_level: level, renderer, initialized: true }
        }
    }

    /// A registry still holding its compiled-in defaults: threshold `Info`
    /// and the given default renderer, not yet initialized.
    pub fn new(default_renderer: L) -> (reg: Registry<L>)
        ensures
            reg.max_level == Level::Info,
            reg.renderer == default_renderer,
            !reg.initialized,
    {
        Registry { max_level: Level::Info, renderer: default_renderer, initialized: false }
    }

    /// Installs the threshold and renderer. Only the first call takes
    /// effect; a later call leaves both untouched — never half of them —
    /// and reports that it lost the race.
    pub fn initialize(&mut self, level: Level, renderer: L) -> (took_effect: bool)
        ensures
            *final(self) == old(self).initialized_with(level, renderer),
            final(self).initialized,
            took_effect == !old(self).initialized,
    {
        if self.initialized {
            false
        } else {
            self.max_level = level;
            self.renderer = renderer;
            self.initialized = true;
            true
        }
    }

    /// The call-site gate against this registry's threshold.
    pub fn enabled(&self, level: Level) -> (r: bool)
        ensures
            r == admits(level, self.max_level),
    {
        enabled_for(level, self.max_level)
    }
}

/// Initialization is idempotent: once one call has taken effect, a second
/// call with any arguments — equal or different — leaves the registry
/// exactly as the winning call left it; neither the threshold nor the
/// renderer is ever partially overwritten.
pub proof fn lemma_initialize_idempotent<L>(reg: Registry<L>, l1: Level, r1: L, l2: Level, r2: L)
    ensures
        reg.initialized_with(l1, r1).initialized_with(l2, r2) == reg.initialized_with(l1, r1),
{
}

/// The compiled-in renderer: one colored line per record on standard
/// output, with explicit placeholders for missing location fields.
pub struct DefaultLogger;

/// ANSI foreground color the default renderer uses for each severity:
/// red, yellow, green, blue and magenta, from `Error` to `Trace`.
pub open spec fn color_code_spec(level: Level) -> int {
    match level {
        Level::Error => 31,
        Level::Warn => 33,
        Level::Info => 32,
        Level::Debug => 34,
        Level::Trace => 35,
    }
}

/// The ANSI color code for a severity, as an executable value.
pub fn color_code(level: Level) -> (c: u8)
    ensures
        c == color_code_spec(level),
{
    match level {
        Level::Error => 31,
        Level::Warn => 33,
        Level::Info => 32,
        Level::Debug => 34,
        Level::Trace => 35,
    }
}

/// Relies on chrono::Local::now and chrono's rendering of a formatted
/// local time: the wall-clock moment of the call as text. The result
/// depends on the clock, so nothing is promised of it.
#[verifier::external_body]
fn local_time_string() -> String {
    chrono::Local::now().format("%Y/%m/%d - %H:%M:%S %z").to_string()
}

/// Relies on std::io::stdout and the writeln macro: prints one line of
/// output; a write failure is ignored rather than raised, so a broken
/// sink never stops the consumer.
#[verifier::external_body]
fn write_line(time: &String, record: &Record, color: u8) {
    let _ = writeln!(
        std::io::stdout(),
        "\u{1b}[1;{}m[{}] {} | {} | module:{:?} file:{:?} line:{:?}\u{1b}[0m",
        color,
        record.metadata.target,
        time,
        record.message,
        record.module,
        record.file,
        record.line,
    );
}

impl Logger for DefaultLogger {
    fn log(&self, record: &Record) {
        let color = color_code(record.metadata.level);
        let time = local_time_string();
        write_line(&time, record, color);
    }
}

} // verus!
