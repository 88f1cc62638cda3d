//! A filtering front end: a writer strategy behind a severity filter.

use vstd::prelude::*;

use crate::filter::Filter;
use crate::level::admits;
use crate::record::{Metadata, Record};

verus! {

/// A writer strategy: turns one record into output.
pub trait Writer {
    fn writer(&self, record: &Record);
}

/// A front end pairing a severity filter with a writer: records that pass
/// the filter are written, all others are skipped before any output work.
pub struct Logger<W> {
    pub filter: Filter,
    pub writer: W,
}

impl<W: Writer> Logger<W> {
    /// A front end with the given filter and writer.
    pub fn new(filter: Filter, writer: W) -> (l: Logger<W>)
        ensures
            l.filter == filter,
            l.writer == writer,
    {
        Logger { filter, writer }
    }

    /// Whether an event with this metadata would be written.
    pub fn enabled(&self, metadata: &Metadata) -> (r: bool)
        ensures
            r == admits(metadata.level, self.filter.max_level),
    {
        self.filter.enabled(metadata)
    }

    /// Hands the record to the writer exactly when it passes the filter.
    pub fn log(&self, record: &Record) {
        if self.filter.matches(record) {
            self.writer.writer(record);
        }
    }

    /// Nothing is buffered here: each admitted record is written as it
    /// arrives, so there is nothing to flush.
    pub fn flush(&self) {
    }
}

} // verus!
