//! The resolved filter the facade gates with: a maximum verbosity.
//!
//! Parsing an environment-derived filter expression is a concern layered
//! on top of the core; the core consumes only the resulting threshold.

use vstd::prelude::*;

use crate::level::{admits, enabled_for, Level};
use crate::record::{Metadata, Record};

verus! {

/// A severity filter: admits exactly the events at or above the
/// importance of its threshold.
#[derive(Clone, Debug)]
pub struct Filter {
    pub max_level: Level,
}

impl Filter {
    /// A filter with the given verbosity threshold.
    pub fn new(max_level: Level) -> (f: Filter)
        ensures
            f.max_level == max_level,
    {
        Filter { max_level }
    }

    /// Whether an event with this metadata passes the filter.
    pub fn enabled(&self, metadata: &Metadata) -> (r: bool)
        ensures
            r == admits(metadata.level, self.max_level),
    {
        enabled_for(metadata.level, self.max_level)
    }

    /// Whether this record passes the filter.
    pub fn matches(&self, record: &Record) -> (r: bool)
        ensures
            r == admits(record.metadata.level, self.max_level),
    {
        enabled_for(record.metadata.level, self.max_level)
    }
}

} // verus!
