//! The ready queue: a bounded FIFO queue of task identifiers, provided by
//! `crossbeam_queue::ArrayQueue`. The queue itself is outside code; the
//! declarations here give it a name for its contents and contracts for the
//! few operations the executor uses. The contracts describe the queue as
//! used here, under a single exclusive owner.

use vstd::prelude::*;
use crossbeam_queue::ArrayQueue;

verus! {

/// `crossbeam_queue::ArrayQueue`, a bounded queue backed by a fixed-size
/// ring buffer.
#[verifier::external_type_specification]
#[verifier::external_body]
#[verifier::reject_recursive_types(T)]
pub struct ExArrayQueue<T>(ArrayQueue<T>);

/// The identifiers held by the queue, front first.
pub uninterp spec fn queue_contents(q: ArrayQueue<u64>) -> Seq<u64>;

/// The fixed capacity the queue was created with.
pub uninterp spec fn queue_capacity(q: ArrayQueue<u64>) -> nat;

/// Relies on `ArrayQueue::new`: creates an empty queue of the given
/// capacity; panics only on a zero or absurdly large capacity, which the
/// precondition excludes.
#[verifier::external_body]
pub(crate) fn queue_new(cap: usize) -> (q: ArrayQueue<u64>)
    requires
        0 < cap <= 0x4000_0000usize,
    ensures
        queue_contents(q) == Seq::<u64>::empty(),
        queue_capacity(q) == cap,
{
    ArrayQueue::new(cap)
}

/// Relies on `ArrayQueue::push`: appends at the back when the queue has a
/// free slot, and otherwise hands the value back as `Err`.
#[verifier::external_body]
pub(crate) fn queue_push(q: &mut ArrayQueue<u64>, id: u64) -> (accepted: bool)
    ensures
        queue_capacity(*final(q)) == queue_capacity(*old(q)),
        accepted <==> queue_contents(*old(q)).len() < queue_capacity(*old(q)),
        accepted ==> queue_contents(*final(q)) == queue_contents(*old(q)).push(id),
        !accepted ==> queue_contents(*final(q)) == queue_contents(*old(q)),
{
    q.push(id).is_ok()
}

/// Relies on `ArrayQueue::pop`: removes and returns the front element, or
/// returns `None` when the queue is empty.
#[verifier::external_body]
pub(crate) fn queue_pop(q: &mut ArrayQueue<u64>) -> (r: Option<u64>)
    ensures
        queue_capacity(*final(q)) == queue_capacity(*old(q)),
        queue_contents(*old(q)).len() == 0 ==> r is None && queue_contents(*final(q))
            == queue_contents(*old(q)),
        queue_contents(*old(q)).len() > 0 ==> r == Some(queue_contents(*old(q))[0])
            && queue_contents(*final(q)) == queue_contents(*old(q)).drop_first(),
{
    q.pop()
}

/// Relies on `ArrayQueue::is_empty`: true exactly when the queue holds
/// nothing.
#[verifier::external_body]
pub(crate) fn queue_is_empty(q: &ArrayQueue<u64>) -> (r: bool)
    ensures
        r == (queue_contents(*q).len() == 0),
{
    q.is_empty()
}

/// Relies on `ArrayQueue::len`: the number of elements currently held.
#[verifier::external_body]
pub(crate) fn queue_len(q: &ArrayQueue<u64>) -> (r: usize)
    ensures
        r == queue_contents(*q).len(),
{
    q.len()
}

/// Relies on `ArrayQueue::capacity`: the capacity the queue was created
/// with.
#[verifier::external_body]
pub(crate) fn queue_cap(q: &ArrayQueue<u64>) -> (r: usize)
    ensures
        r == queue_capacity(*q),
{
    q.capacity()
}

} // verus!
