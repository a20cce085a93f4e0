//! Tasks: resumable computations paired with unique identifiers.
//!
//! A task wraps a computation that can be suspended and resumed; its
//! identifier is drawn from a counter that never hands out the same value
//! twice, so identifiers are unique for the whole life of the process.

use vstd::prelude::*;
use crate::executor::TaskWaker;

verus! {

/// The outcome of resuming a computation: either it has run to completion,
/// or it has suspended itself and will only make progress again after its
/// waker is invoked.
#[derive(Debug, Clone, Copy, PartialEq, Eq, Structural)]
pub enum Resumption {
    Complete,
    Suspended,
}

/// A suspendable, resumable computation, the model of a pinned, heap-stable
/// asynchronous computation driven by an executor.
///
/// The two spec functions describe one resumption step: `spec_step` is the
/// state the computation moves to, `spec_outcome` whether that step
/// completes it. `resume` must follow them exactly, so the executor's
/// behavior on any implementor is fully determined by its model.
pub trait Compute: Sized {
    /// The state this computation is in after being resumed once.
    spec fn spec_step(self) -> Self;

    /// Whether resuming this computation once completes it.
    spec fn spec_outcome(self) -> Resumption;

    /// Resumes the computation from its last suspension point. The waker is
    /// bound to the task this computation runs under; a computation may
    /// hand its identifier to an external event source so that the event's
    /// handler can re-enqueue the task.
    fn resume(&mut self, waker: &TaskWaker) -> (r: Resumption)
        ensures
            *final(self) == old(self).spec_step(),
            r == old(self).spec_outcome(),
    ;
}

/// A unique task identifier: an opaque unsigned integer, strictly
/// increasing in order of creation.
#[derive(Debug, Clone, Copy, PartialEq, Eq, Structural)]
pub struct TaskID(pub u64);

/// The source of task identifiers: a counter that only ever moves forward.
///
/// The ghost field `issued` records every identifier handed out, in order;
/// well-formedness says all of them lie strictly below the counter and are
/// strictly increasing, which is what makes uniqueness provable.
pub struct TaskIdCounter {
    pub next_id: u64,
    pub issued: Ghost<Seq<u64>>,
}

impl TaskIdCounter {
    /// Every issued identifier is below the counter, and the issued
    /// sequence is strictly increasing.
    pub open spec fn wf(self) -> bool {
        &&& forall|i: int| 0 <= i < self.issued@.len() ==> self.issued@[i] < self.next_id
        &&& forall|i: int, j: int|
            0 <= i < j < self.issued@.len() ==> self.issued@[i] < self.issued@[j]
    }

    /// A fresh counter that has issued nothing and starts at zero.
    pub fn new() -> (r: TaskIdCounter)
        ensures
            r.wf(),
            r.next_id == 0,
            r.issued@ == Seq::<u64>::empty(),
    {
        TaskIdCounter { next_id: 0, issued: Ghost(Seq::empty()) }
    }
}

impl TaskID {
    /// Draws a fresh identifier: returns the counter's current value and
    /// advances it. The result differs from every identifier issued
    /// before.
    pub fn new(counter: &mut TaskIdCounter) -> (id: TaskID)
        requires
            old(counter).wf(),
            old(counter).next_id < u64::MAX,
        ensures
            final(counter).wf(),
            id.0 == old(counter).next_id,
            final(counter).next_id == old(counter).next_id + 1,
            final(counter).issued@ == old(counter).issued@.push(id.0),
            !old(counter).issued@.contains(id.0),
    {
        let id = TaskID(counter.next_id);
        counter.next_id = counter.next_id + 1;
        proof {
            counter.issued@ = counter.issued@.push(id.0);
        }
        id
    }
}

/// Task id uniqueness: however many identifiers a counter has issued, they
/// are pairwise distinct and strictly increasing in creation order.
pub proof fn lemma_task_id_uniqueness(counter: TaskIdCounter)
    requires
        counter.wf(),
    ensures
        forall|i: int, j: int|
            0 <= i < j < counter.issued@.len() ==> counter.issued@[i] != counter.issued@[j],
        forall|i: int, j: int|
            0 <= i < j < counter.issued@.len() ==> counter.issued@[i] < counter.issued@[j],
{
}

/// A computation with a unique identifier, plus a ghost count of how often
/// it has been polled.
pub struct Task<C: Compute> {
    pub id: TaskID,
    pub computation: C,
    pub polls: Ghost<nat>,
}

impl<C: Compute> Task<C> {
    /// Wraps a computation into a task under a fresh identifier. The task
    /// has not been polled yet.
    pub fn new(counter: &mut TaskIdCounter, computation: C) -> (t: Task<C>)
        requires
            old(counter).wf(),
            old(counter).next_id < u64::MAX,
        ensures
            final(counter).wf(),
            t.id.0 == old(counter).next_id,
            t.computation == computation,
            t.polls@ == 0,
            final(counter).next_id == old(counter).next_id + 1,
            final(counter).issued@ == old(counter).issued@.push(t.id.0),
            !old(counter).issued@.contains(t.id.0),
    {
        Task { id: TaskID::new(counter), computation, polls: Ghost(0) }
    }

    /// Resumes the task's computation once. This is the sole operation the
    /// executor uses to make progress; it never inspects the computation's
    /// internal state.
    pub fn poll(&mut self, waker: &TaskWaker) -> (r: Resumption)
        ensures
            final(self).id == old(self).id,
            final(self).computation == old(self).computation.spec_step(),
            final(self).polls@ == old(self).polls@ + 1,
            r == old(self).computation.spec_outcome(),
    {
        proof {
            self.polls@ = self.polls@ + 1;
        }
        self.computation.resume(waker)
    }
}

/// A computation that suspends a fixed number of times and then completes:
/// each resumption decrements `remaining`, and the resumption that finds it
/// at zero completes.
pub struct Countdown {
    pub remaining: u64,
}

impl Compute for Countdown {
    open spec fn spec_step(self) -> Countdown {
        if self.remaining > 0 {
            Countdown { remaining: (self.remaining - 1) as u64 }
        } else {
            self
        }
    }

    open spec fn spec_outcome(self) -> Resumption {
        if self.remaining == 0 {
            Resumption::Complete
        } else {
            Resumption::Suspended
        }
    }

    fn resume(&mut self, _waker: &TaskWaker) -> (r: Resumption) {
        if self.remaining == 0 {
            Resumption::Complete
        } else {
            self.remaining = self.remaining - 1;
            Resumption::Suspended
        }
    }
}

/// A countdown over `k` is a witness for the executor's liveness law: it
/// completes after exactly `k` suspensions.
pub proof fn lemma_countdown_completes_after(k: u64)
    ensures
        crate::executor::completes_after(Countdown { remaining: k }, k as nat),
    decreases k,
{
    if k > 0 {
        lemma_countdown_completes_after((k - 1) as u64);
    }
}

} // verus!
