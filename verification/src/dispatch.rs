//! The dispatcher: owns the bounded hand-off queue, takes records from
//! producers, and hands the consumer its one-record-at-a-time drain step.

use vstd::prelude::*;

use crate::handoff::{capacity_of, contents, queue_dequeue, queue_len, queue_push, queue_with_capacity};
use crate::logger::Logger;
use crate::record::Record;

verus! {

/// How many records the hand-off queue holds at most.
pub const QUEUE_CAPACITY: usize = 1024;

/// Saturating increment for the overflow counter.
pub open spec fn bump(n: u64) -> u64 {
    if n < u64::MAX {
        (n + 1) as u64
    } else {
        n
    }
}

/// The dispatcher: one bounded FIFO hand-off queue of records, plus a
/// count of records refused because the queue was full.
///
/// Overflow policy, chosen and fixed here: `push` on a full queue refuses
/// the new record, leaves the queue unchanged, counts the refusal, and
/// returns at once. It never blocks a producer and never displaces an
/// older record, so a refusal is deterministic and never silent.
pub struct Log {
    pub queue: queue::Queue<Record>,
    pub overflow: u64,
}

impl Log {
    /// Well-formed dispatcher state: the queue carries the fixed capacity
    /// bound and never holds more than it.
    pub open spec fn wf(self) -> bool {
        capacity_of(self.queue) == Some(QUEUE_CAPACITY)
            && contents(self.queue).len() <= QUEUE_CAPACITY
    }

    /// The records waiting to be rendered, oldest first.
    pub open spec fn pending(self) -> Seq<Record> {
        contents(self.queue)
    }

    /// A fresh dispatcher: empty queue, nothing refused yet.
    pub fn init() -> (log: Log)
        ensures
            log.wf(),
            log.pending() == Seq::<Record>::empty(),
            log.overflow == 0,
    {
        Log { queue: queue_with_capacity(QUEUE_CAPACITY), overflow: 0 }
    }

    /// How many records are waiting.
    pub fn len(&self) -> (n: usize)
        ensures
            n == self.pending().len(),
    {
        queue_len(&self.queue)
    }

    /// Producer-side enqueue. With room in the queue the record is
    /// appended after every record pushed earlier; with the queue full it
    /// is refused and the overflow counter grows.
    pub fn push(&mut self, record: Record) -> (accepted: bool)
        requires
            old(self).wf(),
        ensures
            final(self).wf(),
            old(self).pending().len() < QUEUE_CAPACITY ==> accepted
                && final(self).pending() == old(self).pending().push(record)
                && final(self).overflow == old(self).overflow,
            old(self).pending().len() >= QUEUE_CAPACITY ==> !accepted
                && final(self).pending() == old(self).pending()
                && final(self).overflow == bump(old(self).overflow),
    {
        match queue_push(&mut self.queue, record) {
            Ok(_) => true,
            Err(()) => {
                if self.overflow < u64::MAX {
                    self.overflow = self.overflow + 1;
                }
                false
            },
        }
    }

    /// How many pushes have been refused on a full queue.
    pub fn overflow_count(&self) -> (n: u64)
        ensures
            n == self.overflow,
    {
        self.overflow
    }

    /// Consumer-side dequeue: removes and returns the oldest record, or
    /// `None` on an empty queue.
    pub fn pop(&mut self) -> (res: Option<Record>)
        requires
            old(self).wf(),
        ensures
            final(self).wf(),
            final(self).overflow == old(self).overflow,
            old(self).pending().len() == 0 ==> res is None
                && final(self).pending() == old(self).pending(),
            old(self).pending().len() > 0 ==> res == Some(old(self).pending()[0])
                && final(self).pending() == old(self).pending().drop_first(),
    {
        queue_dequeue(&mut self.queue)
    }

    /// One turn of the consumer loop: take the oldest record, if any, and
    /// hand it to the renderer. The record is removed before it is
    /// rendered, so no record is ever delivered twice, and exactly the
    /// oldest pending record is the one delivered.
    pub fn step<L: Logger>(&mut self, renderer: &L) -> (delivered: bool)
        requires
            old(self).wf(),
        ensures
            final(self).wf(),
            final(self).overflow == old(self).overflow,
            old(self).pending().len() == 0 ==> !delivered
                && final(self).pending() == old(self).pending(),
            old(self).pending().len() > 0 ==> delivered
                && final(self).pending() == old(self).pending().drop_first(),
    {
        match self.pop() {
            Some(record) => {
                renderer.log(&record);
                true
            },
            None => false,
        }
    }
}

/// The records the consumer receives from `k` drain steps on a queue
/// holding `s`, in the order it receives them.
pub open spec fn drained_records(s: Seq<Record>, k: nat) -> Seq<Record>
    decreases k,
{
    if k == 0 || s.len() == 0 {
        Seq::empty()
    } else {
        seq![s[0]] + drained_records(s.drop_first(), (k - 1) as nat)
    }
}

/// The records still pending after `k` drain steps on a queue holding `s`.
pub open spec fn remaining_after(s: Seq<Record>, k: nat) -> Seq<Record>
    decreases k,
{
    if k == 0 || s.len() == 0 {
        s
    } else {
        remaining_after(s.drop_first(), (k - 1) as nat)
    }
}

/// Pops deliver in push order: the first `k` records the consumer takes
/// from a queue holding `s` are exactly the first `k` records of `s`, in
/// the order they were pushed, and the rest still wait in that order.
pub proof fn lemma_pops_in_push_order(s: Seq<Record>, k: nat)
    requires
        k <= s.len(),
    ensures
        drained_records(s, k) == s.take(k as int),
        remaining_after(s, k) == s.skip(k as int),
    decreases k,
{
    if k == 0 {
        assert(drained_records(s, 0) =~= s.take(0));
        assert(remaining_after(s, 0) =~= s.skip(0));
    } else {
        lemma_pops_in_push_order(s.drop_first(), (k - 1) as nat);
        assert(drained_records(s, k) =~= s.take(k as int));
        assert(remaining_after(s, k) =~= s.skip(k as int));
    }
}

/// No record is delivered twice and none is lost: what the consumer has
/// received, followed by what still waits, is exactly what was pushed.
pub proof fn lemma_no_loss_no_duplicate(s: Seq<Record>, k: nat)
    requires
        k <= s.len(),
    ensures
        drained_records(s, k) + remaining_after(s, k) == s,
{
    lemma_pops_in_push_order(s, k);
    assert(s.take(k as int) + s.skip(k as int) =~= s);
}

} // verus!
