//! The call-site gate: the entry points application code logs through.
//!
//! Each entry point first compares the event's severity against the
//! threshold; only an admitted event has its record constructed and handed
//! to the dispatcher, so a disabled severity costs one comparison and
//! touches the queue not at all.

use vstd::prelude::*;

use crate::dispatch::{bump, Log, QUEUE_CAPACITY};
use crate::level::{admits, enabled_for, Level};
use crate::record::{Metadata, Record};

verus! {

/// The record a call with these arguments constructs.
pub open spec fn event_record(
    level: Level,
    target: String,
    message: String,
    module: Option<String>,
    file: Option<String>,
    line: Option<u32>,
) -> Record {
    Record {
        metadata: Metadata { level, target },
        message,
        module,
        file,
        line,
    }
}

/// What one call-site submission guarantees, relating the dispatcher
/// before the call to the dispatcher after it: a severity the threshold
/// refuses changes nothing; an admitted event is appended whole when there
/// is room; on a full queue it is refused and the refusal counted.
pub open spec fn submission_post(
    pre: Log,
    post: Log,
    sent: bool,
    threshold: Level,
    level: Level,
    target: String,
    message: String,
    module: Option<String>,
    file: Option<String>,
    line: Option<u32>,
) -> bool {
    &&& (!admits(level, threshold) ==> !sent && post == pre)
    &&& (admits(level, threshold) && pre.pending().len() < QUEUE_CAPACITY ==> sent
        && post.pending() == pre.pending().push(
            event_record(level, target, message, module, file, line),
        ) && post.overflow == pre.overflow)
    &&& (admits(level, threshold) && pre.pending().len() >= QUEUE_CAPACITY ==> !sent
        && post.pending() == pre.pending() && post.overflow == bump(pre.overflow))
}

/// The generic entry point: gate the severity against the threshold and,
/// only when admitted, construct the record and enqueue it. Returns
/// whether the record went into the queue.
pub fn log_event(
    log: &mut Log,
    threshold: Level,
    level: Level,
    target: String,
    message: String,
    module: Option<String>,
    file: Option<String>,
    line: Option<u32>,
) -> (sent: bool)
    requires
        old(log).wf(),
    ensures
        final(log).wf(),
        submission_post(
            *old(log),
            *final(log),
            sent,
            threshold,
            level,
            target,
            message,
            module,
            file,
            line,
        ),
{
    if enabled_for(level, threshold) {
        let metadata = Metadata::new(level, target);
        let record = Record::new(metadata, message, module, file, line);
        log.push(record)
    } else {
        false
    }
}

/// The `Error`-severity entry point.
pub fn error(
    log: &mut Log,
    threshold: Level,
    target: String,
    message: String,
    module: Option<String>,
    file: Option<String>,
    line: Option<u32>,
) -> (sent: bool)
    requires
        old(log).wf(),
    ensures
        final(log).wf(),
        submission_post(
            *old(log),
            *final(log),
            sent,
            threshold,
            Level::Error,
            target,
            message,
            module,
            file,
            line,
        ),
{
    log_event(log, threshold, Level::Error, target, message, module, file, line)
}

/// The `Warn`-severity entry point.
pub fn warn(
    log: &mut Log,
    threshold: Level,
    target: String,
    message: String,
    module: Option<String>,
    file: Option<String>,
    line: Option<u32>,
) -> (sent: bool)
    requires
        old(log).wf(),
    ensures
        final(log).wf(),
        submission_post(
            *old(log),
            *final(log),
            sent,
            threshold,
            Level::Warn,
            target,
            message,
            module,
            file,
            line,
        ),
{
    log_event(log, threshold, Level::Warn, target, message, module, file, line)
}

/// The `Info`-severity entry point.
pub fn info(
    log: &mut Log,
    threshold: Level,
    target: String,
    message: String,
    module: Option<String>,
    file: Option<String>,
    line: Option<u32>,
) -> (sent: bool)
    requires
        old(log).wf(),
    ensures
        final(log).wf(),
        submission_post(
            *old(log),
            *final(log),
            sent,
            threshold,
            Level::Info,
            target,
            message,
            module,
            file,
            line,
        ),
{
    log_event(log, threshold, Level::Info, target, message, module, file, line)
}

/// The `Debug`-severity entry point.
pub fn debug(
    log: &mut Log,
    threshold: Level,
    target: String,
    message: String,
    module: Option<String>,
    file: Option<String>,
    line: Option<u32>,
) -> (sent: bool)
    requires
        old(log).wf(),
    ensures
        final(log).wf(),
        submission_post(
            *old(log),
            *final(log),
            sent,
            threshold,
            Level::Debug,
            target,
            message,
            module,
            file,
            line,
        ),
{
    log_event(log, threshold, Level::Debug, target, message, module, file, line)
}

/// The `Trace`-severity entry point.
pub fn trace(
    log: &mut Log,
    threshold: Level,
    target: String,
    message: String,
    module: Option<String>,
    file: Option<String>,
    line: Option<u32>,
) -> (sent: bool)
    requires
        old(log).wf(),
    ensures
        final(log).wf(),
        submission_post(
            *old(log),
            *final(log),
            sent,
            threshold,
            Level::Trace,
            target,
            message,
            module,
            file,
            line,
        ),
{
    log_event(log, threshold, Level::Trace, target, message, module, file, line)
}

} // verus!
