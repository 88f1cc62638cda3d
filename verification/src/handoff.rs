//! The trusted boundary to the outside FIFO queue that carries records
//! from producers to the consumer.

use vstd::prelude::*;

use crate::record::Record;

verus! {

#[verifier::external_type_specification]
#[verifier::external_body]
#[verifier::reject_recursive_types(T)]
pub struct ExQueue<T>(queue::Queue<T>);

/// The records a hand-off queue holds, oldest first.
pub uninterp spec fn contents(q: queue::Queue<Record>) -> Seq<Record>;

/// The capacity bound the queue was created with: `Some(cap)` for a
/// bounded queue, `None` for one that grows as needed.
pub uninterp spec fn capacity_of(q: queue::Queue<Record>) -> Option<usize>;

/// Relies on queue::Queue::with_capacity: a fresh queue is empty and
/// carries the given capacity bound.
#[verifier::external_body]
pub(crate) fn queue_with_capacity(cap: usize) -> (q: queue::Queue<Record>)
    ensures
        contents(q) == Seq::<Record>::empty(),
        capacity_of(q) == Some(cap),
{
    queue::Queue::with_capacity(cap)
}

/// Relies on queue::Queue::queue: below the capacity bound the record is
/// appended and the new length returned; at the bound the queue is left
/// unchanged and `Err(())` comes back.
#[verifier::external_body]
pub(crate) fn queue_push(q: &mut queue::Queue<Record>, r: Record) -> (res: Result<usize, ()>)
    ensures
        capacity_of(*final(q)) == capacity_of(*old(q)),
        (match capacity_of(*old(q)) {
            Some(cap) => if contents(*old(q)).len() >= cap {
                res == Err::<usize, ()>(()) && contents(*final(q)) == contents(*old(q))
            } else {
                contents(*final(q)) == contents(*old(q)).push(r)
                    && (res matches Ok(n) && n == contents(*old(q)).len() + 1)
            },
            None => contents(*final(q)) == contents(*old(q)).push(r)
                && (res matches Ok(n) && n == contents(*old(q)).len() + 1),
        }),
{
    q.queue(r)
}

/// Relies on queue::Queue::dequeue: the oldest record, if any, is removed
/// and returned; an empty queue is left unchanged.
#[verifier::external_body]
pub(crate) fn queue_dequeue(q: &mut queue::Queue<Record>) -> (res: Option<Record>)
    ensures
        capacity_of(*final(q)) == capacity_of(*old(q)),
        contents(*old(q)).len() == 0 ==> res is None && contents(*final(q)) == contents(*old(q)),
        contents(*old(q)).len() > 0 ==> res == Some(contents(*old(q))[0])
            && contents(*final(q)) == contents(*old(q)).drop_first(),
{
    q.dequeue()
}

/// Relies on queue::Queue::len: how many records the queue holds.
#[verifier::external_body]
pub(crate) fn queue_len(q: &queue::Queue<Record>) -> (n: usize)
    ensures
        n == contents(*q).len(),
{
    q.len()
}

} // verus!
