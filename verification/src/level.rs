//! Severity levels and the ordering used by the call-site gate.

use vstd::prelude::*;

verus! {

/// Importance of a log event. `Error` is the most urgent, `Trace` the most
/// verbose; the ordinal order `Error < Warn < Info < Debug < Trace` is fixed
/// and drives both the call-site gate and downstream filtering.
#[derive(Copy, Clone, PartialEq, Eq, Hash, Debug, Structural)]
pub enum Level {
    Error,
    Warn,
    Info,
    Debug,
    Trace,
}

impl Level {
    /// Position of this level in the verbosity order: `Error` is 1 (least
    /// verbose), `Trace` is 5 (most verbose).
    pub open spec fn ordinal(self) -> int {
        match self {
            Level::Error => 1,
            Level::Warn => 2,
            Level::Info => 3,
            Level::Debug => 4,
            Level::Trace => 5,
        }
    }

    /// The canonical short display name of this level.
    pub open spec fn name_spec(self) -> Seq<char> {
        match self {
            Level::Error => "ERROR"@,
            Level::Warn => "WARN"@,
            Level::Info => "INFO"@,
            Level::Debug => "DEBUG"@,
            Level::Trace => "TRACE"@,
        }
    }

    /// The ordinal position as an executable value.
    pub fn as_usize(&self) -> (n: usize)
        ensures
            n == self.ordinal(),
    {
        match self {
            Level::Error => 1,
            Level::Warn => 2,
            Level::Info => 3,
            Level::Debug => 4,
            Level::Trace => 5,
        }
    }

    /// The canonical short display name: "ERROR", "WARN", "INFO", "DEBUG"
    /// or "TRACE".
    pub fn name(&self) -> (s: &'static str)
        ensures
            s@ == self.name_spec(),
    {
        match self {
            Level::Error => "ERROR",
            Level::Warn => "WARN",
            Level::Info => "INFO",
            Level::Debug => "DEBUG",
            Level::Trace => "TRACE",
        }
    }
}

/// The call-site gate's criterion: an event of severity `s` is admitted under
/// a verbosity threshold `t` iff `s` is at least as important as `t`, that
/// is, iff the ordinal of `s` is no greater than the ordinal of `t`.
pub open spec fn admits(s: Level, t: Level) -> bool {
    s.ordinal() <= t.ordinal()
}

/// Executable form of the call-site gate's severity comparison.
pub fn enabled_for(level: Level, threshold: Level) -> (r: bool)
    ensures
        r == admits(level, threshold),
{
    level.as_usize() <= threshold.as_usize()
}

impl PartialOrd for Level {
    fn partial_cmp(&self, other: &Level) -> (r: Option<core::cmp::Ordering>) {
        let a = self.as_usize();
        let b = other.as_usize();
        if a < b {
            Some(core::cmp::Ordering::Less)
        } else if a == b {
            Some(core::cmp::Ordering::Equal)
        } else {
            Some(core::cmp::Ordering::Greater)
        }
    }
}

impl vstd::std_specs::cmp::PartialOrdSpecImpl for Level {
    open spec fn obeys_partial_cmp_spec() -> bool {
        true
    }

    open spec fn partial_cmp_spec(&self, other: &Level) -> Option<core::cmp::Ordering> {
        if self.ordinal() < other.ordinal() {
            Some(core::cmp::Ordering::Less)
        } else if self.ordinal() == other.ordinal() {
            Some(core::cmp::Ordering::Equal)
        } else {
            Some(core::cmp::Ordering::Greater)
        }
    }
}

} // verus!
