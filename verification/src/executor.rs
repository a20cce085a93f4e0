//! The executor: owns the set of live tasks, the bounded ready queue and a
//! cache of wakers; drives each ready task one resumption at a time and
//! decides when the CPU may halt.
//!
//! Wakes originate outside the drain loop (in the running kernel, from
//! interrupt handlers); they reach the executor as pushes onto its ready
//! queue, a handoff from the external signal source to the single consumer
//! loop.

use vstd::prelude::*;
use crossbeam_queue::ArrayQueue;
use std::collections::BTreeMap;
use crate::task::{Task, TaskID, Compute, Resumption};
use crate::queue::{
    queue_contents, queue_capacity, queue_new, queue_push, queue_pop, queue_is_empty,
    queue_len, queue_cap,
};

verus! {

/// The fixed capacity of the ready queue.
pub const TASK_CAPACITY: usize = 100;

/// A notification handle bound to one task: invoking it re-enqueues that
/// task's identifier on the executor's ready queue.
#[derive(Debug, Clone, Copy, PartialEq, Eq, Structural)]
pub struct TaskWaker {
    pub task_id: TaskID,
}

impl TaskWaker {
    /// A waker for the given task.
    pub fn new(task_id: TaskID) -> (w: TaskWaker)
        ensures
            w.task_id == task_id,
    {
        TaskWaker { task_id }
    }

    /// Pushes this waker's task identifier onto the executor's ready
    /// queue, marking the task ready to be polled again. The queue must
    /// have room; in the running kernel a full queue is a fatal overload.
    pub fn wake_task<C: Compute>(&self, executor: &mut Executor<C>)
        requires
            queue_contents(old(executor).task_queue).len() < queue_capacity(
                old(executor).task_queue,
            ),
        ensures
            final(executor).tasks@ == old(executor).tasks@,
            final(executor).waker_cache@ == old(executor).waker_cache@,
            queue_contents(final(executor).task_queue) == queue_contents(
                old(executor).task_queue,
            ).push(self.task_id.0),
            queue_capacity(final(executor).task_queue) == queue_capacity(
                old(executor).task_queue,
            ),
            old(executor).wf() ==> final(executor).wf(),
    {
        let _ = queue_push(&mut executor.task_queue, self.task_id.0);
    }
}

/// What the run loop should do when it finds itself between drain passes:
/// halt the CPU until an interrupt arrives, or go straight into another
/// pass.
#[derive(Debug, Clone, Copy, PartialEq, Eq, Structural)]
pub enum IdleAction {
    Halt,
    Continue,
}

/// The scheduler: live tasks by identifier, the bounded FIFO ready queue,
/// and the cached waker of each task that has been polled.
pub struct Executor<C: Compute> {
    pub tasks: BTreeMap<u64, Task<C>>,
    pub task_queue: ArrayQueue<u64>,
    pub waker_cache: BTreeMap<u64, TaskWaker>,
}

/// One ready-queue entry processed: an identifier without a live task is a
/// stale wake and changes nothing; otherwise the task is polled once, and
/// either removed together with its waker (complete) or left in place with
/// its stepped computation and its waker cached (suspended).
pub open spec fn drain_step<C: Compute>(
    tasks: Map<u64, Task<C>>,
    cache: Map<u64, TaskWaker>,
    id: u64,
) -> (Map<u64, Task<C>>, Map<u64, TaskWaker>) {
    if !tasks.contains_key(id) {
        (tasks, cache)
    } else {
        let t = tasks[id];
        match t.computation.spec_outcome() {
            Resumption::Complete => (tasks.remove(id), cache.remove(id)),
            Resumption::Suspended => (
                tasks.insert(
                    id,
                    Task {
                        id: t.id,
                        computation: t.computation.spec_step(),
                        polls: Ghost(t.polls@ + 1),
                    },
                ),
                cache.insert(id, TaskWaker { task_id: TaskID(id) }),
            ),
        }
    }
}

/// The effect of one whole drain pass: the queued identifiers processed
/// front to back.
pub open spec fn drain_spec<C: Compute>(
    tasks: Map<u64, Task<C>>,
    cache: Map<u64, TaskWaker>,
    queue: Seq<u64>,
) -> (Map<u64, Task<C>>, Map<u64, TaskWaker>)
    decreases queue.len(),
{
    if queue.len() == 0 {
        (tasks, cache)
    } else {
        let stepped = drain_step(tasks, cache, queue[0]);
        drain_spec(stepped.0, stepped.1, queue.drop_first())
    }
}

/// The computation completes after exactly `k` suspensions: `k`
/// resumptions in a row suspend it, and the next one completes it.
pub open spec fn completes_after<C: Compute>(c: C, k: nat) -> bool
    decreases k,
{
    if k == 0 {
        c.spec_outcome() == Resumption::Complete
    } else {
        c.spec_outcome() == Resumption::Suspended && completes_after(
            c.spec_step(),
            (k - 1) as nat,
        )
    }
}

/// One wake of `id` followed by one drain pass over just that wake.
pub open spec fn wake_drain_cycle<C: Compute>(
    tasks: Map<u64, Task<C>>,
    cache: Map<u64, TaskWaker>,
    id: u64,
) -> (Map<u64, Task<C>>, Map<u64, TaskWaker>) {
    drain_spec(tasks, cache, seq![id])
}

/// `n` wake-and-drain cycles of `id` in a row.
pub open spec fn wake_drain_cycles<C: Compute>(
    tasks: Map<u64, Task<C>>,
    cache: Map<u64, TaskWaker>,
    id: u64,
    n: nat,
) -> (Map<u64, Task<C>>, Map<u64, TaskWaker>)
    decreases n,
{
    if n == 0 {
        (tasks, cache)
    } else {
        let prev = wake_drain_cycles(tasks, cache, id, (n - 1) as nat);
        wake_drain_cycle(prev.0, prev.1, id)
    }
}

/// A drain pass over a single wake is exactly one processed entry.
proof fn lemma_cycle_is_step<C: Compute>(
    tasks: Map<u64, Task<C>>,
    cache: Map<u64, TaskWaker>,
    id: u64,
)
    ensures
        wake_drain_cycle(tasks, cache, id) == drain_step(tasks, cache, id),
{
    let q: Seq<u64> = seq![id];
    assert(q[0] == id);
    assert(q.drop_first() =~= Seq::<u64>::empty());
    let stepped = drain_step(tasks, cache, id);
    assert(drain_spec(stepped.0, stepped.1, q.drop_first()) == stepped);
}

/// While a task still has suspensions left, each wake-and-drain cycle
/// polls it exactly once and leaves it in place: after `j <= k` cycles it
/// is still live, has been polled `j` more times, and completes after the
/// remaining `k - j` suspensions.
pub proof fn lemma_liveness_polls<C: Compute>(
    tasks: Map<u64, Task<C>>,
    cache: Map<u64, TaskWaker>,
    id: u64,
    k: nat,
    j: nat,
)
    requires
        tasks.contains_key(id),
        completes_after(tasks[id].computation, k),
        j <= k,
    ensures
        ({
            let after = wake_drain_cycles(tasks, cache, id, j);
            &&& after.0.contains_key(id)
            &&& after.0[id].polls@ == tasks[id].polls@ + j
            &&& after.0[id].id == tasks[id].id
            &&& completes_after(after.0[id].computation, (k - j) as nat)
        }),
    decreases j,
{
    if j > 0 {
        lemma_liveness_polls(tasks, cache, id, k, (j - 1) as nat);
        let prev = wake_drain_cycles(tasks, cache, id, (j - 1) as nat);
        lemma_cycle_is_step(prev.0, prev.1, id);
        assert(completes_after(prev.0[id].computation, (k - (j - 1)) as nat));
        assert(prev.0[id].computation.spec_outcome() == Resumption::Suspended);
    }
}

/// Executor liveness: a task that completes after exactly `k` suspensions
/// is polled exactly `k + 1` times over `k + 1` wake-and-drain cycles —
/// once per cycle, by `lemma_liveness_polls` — and after the final poll it
/// is gone from both the task map and the waker cache.
pub proof fn lemma_executor_liveness<C: Compute>(
    tasks: Map<u64, Task<C>>,
    cache: Map<u64, TaskWaker>,
    id: u64,
    k: nat,
)
    requires
        tasks.contains_key(id),
        completes_after(tasks[id].computation, k),
    ensures
        ({
            let end = wake_drain_cycles(tasks, cache, id, k + 1);
            &&& !end.0.contains_key(id)
            &&& !end.1.contains_key(id)
        }),
{
    lemma_liveness_polls(tasks, cache, id, k, k);
    let last = wake_drain_cycles(tasks, cache, id, k);
    lemma_cycle_is_step(last.0, last.1, id);
    assert(completes_after(last.0[id].computation, 0));
    assert(wake_drain_cycles(tasks, cache, id, k + 1) == wake_drain_cycle(last.0, last.1, id));
}

impl<C: Compute> Executor<C> {
    /// Every cached waker belongs to a live task and carries that task's
    /// identifier, and every task is keyed by its own identifier.
    pub open spec fn wf(self) -> bool {
        &&& forall|id: u64| #[trigger]
            self.waker_cache@.contains_key(id) ==> self.tasks@.contains_key(id)
        &&& forall|id: u64| #[trigger]
            self.waker_cache@.contains_key(id) ==> self.waker_cache@[id] == (TaskWaker {
                task_id: TaskID(id),
            })
        &&& forall|id: u64| #[trigger]
            self.tasks@.contains_key(id) ==> self.tasks@[id].id == TaskID(id)
    }

    /// A fresh executor: no tasks, no cached wakers, an empty ready queue
    /// of the default capacity.
    pub fn new() -> (r: Executor<C>)
        ensures
            r.wf(),
            r.tasks@ == Map::<u64, Task<C>>::empty(),
            r.waker_cache@ == Map::<u64, TaskWaker>::empty(),
            queue_contents(r.task_queue) == Seq::<u64>::empty(),
            queue_capacity(r.task_queue) == TASK_CAPACITY,
    {
        Executor {
            tasks: BTreeMap::new(),
            task_queue: queue_new(TASK_CAPACITY),
            waker_cache: BTreeMap::new(),
        }
    }

    /// Inserts a task under its identifier and marks it ready. A task
    /// whose identifier is already live would mean the identifier source
    /// is broken, and a full ready queue is a fatal overload: both are
    /// excluded by precondition, and in the running kernel both abort.
    pub fn spawn(&mut self, task: Task<C>)
        requires
            old(self).wf(),
            !old(self).tasks@.contains_key(task.id.0),
            queue_contents(old(self).task_queue).len() < queue_capacity(old(self).task_queue),
        ensures
            final(self).wf(),
            final(self).tasks@ == old(self).tasks@.insert(task.id.0, task),
            final(self).waker_cache@ == old(self).waker_cache@,
            queue_contents(final(self).task_queue) == queue_contents(old(self).task_queue).push(
                task.id.0,
            ),
            queue_capacity(final(self).task_queue) == queue_capacity(old(self).task_queue),
    {
        let task_id = task.id;
        proof {
            assert(task.id == TaskID(task.id.0));
        }
        let _ = self.tasks.insert(task_id.0, task);
        let _ = queue_push(&mut self.task_queue, task_id.0);
    }

    /// One drain pass: pops identifiers until the ready queue is empty and
    /// processes each as `drain_step` describes. Tasks are polled in the
    /// order their identifiers were queued.
    pub fn run_ready_tasks(&mut self)
        requires
            old(self).wf(),
        ensures
            final(self).wf(),
            queue_contents(final(self).task_queue).len() == 0,
            queue_capacity(final(self).task_queue) == queue_capacity(old(self).task_queue),
            (final(self).tasks@, final(self).waker_cache@) == drain_spec(
                old(self).tasks@,
                old(self).waker_cache@,
                queue_contents(old(self).task_queue),
            ),
    {
        let ghost orig_tasks = self.tasks@;
        let ghost orig_cache = self.waker_cache@;
        let ghost orig_queue = queue_contents(self.task_queue);
        let ghost orig_cap = queue_capacity(self.task_queue);
        loop
            invariant
                self.wf(),
                queue_capacity(self.task_queue) == orig_cap,
                drain_spec(self.tasks@, self.waker_cache@, queue_contents(self.task_queue))
                    == drain_spec(orig_tasks, orig_cache, orig_queue),
            ensures
                self.wf(),
                queue_capacity(self.task_queue) == orig_cap,
                queue_contents(self.task_queue).len() == 0,
                drain_spec(self.tasks@, self.waker_cache@, queue_contents(self.task_queue))
                    == drain_spec(orig_tasks, orig_cache, orig_queue),
            decreases queue_contents(self.task_queue).len(),
        {
            let next = queue_pop(&mut self.task_queue);
            match next {
                None => {
                    break ;
                },
                Some(task_id) => {
                    let ghost pre_tasks = self.tasks@;
                    let ghost pre_cache = self.waker_cache@;
                    if self.tasks.contains_key(&task_id) {
                        let mut task = self.tasks.remove(&task_id).unwrap();
                        if !self.waker_cache.contains_key(&task_id) {
                            self.waker_cache.insert(task_id, TaskWaker::new(task.id));
                        }
                        let waker = match self.waker_cache.get(&task_id) {
                            Some(w) => *w,
                            None => TaskWaker::new(task.id),
                        };
                        let outcome = task.poll(&waker);
                        match outcome {
                            Resumption::Complete => {
                                let _ = self.waker_cache.remove(&task_id);
                                proof {
                                    assert(self.tasks@ =~= drain_step(
                                        pre_tasks,
                                        pre_cache,
                                        task_id,
                                    ).0);
                                    assert(self.waker_cache@ =~= drain_step(
                                        pre_tasks,
                                        pre_cache,
                                        task_id,
                                    ).1);
                                }
                            },
                            Resumption::Suspended => {
                                let _ = self.tasks.insert(task_id, task);
                                proof {
                                    assert(self.tasks@ =~= drain_step(
                                        pre_tasks,
                                        pre_cache,
                                        task_id,
                                    ).0);
                                    assert(self.waker_cache@ =~= drain_step(
                                        pre_tasks,
                                        pre_cache,
                                        task_id,
                                    ).1);
                                }
                            },
                        }
                    }
                },
            }
        }
    }

    /// The idle decision between drain passes: halt exactly when the ready
    /// queue is empty. The run loop performs this check with interrupts
    /// disabled and, on `Halt`, re-enables them and halts in one atomic
    /// step, so a wake arriving after the check still ends the halt.
    pub fn idle_action(&self) -> (r: IdleAction)
        ensures
            r == IdleAction::Halt <==> queue_contents(self.task_queue).len() == 0,
    {
        if queue_is_empty(&self.task_queue) {
            IdleAction::Halt
        } else {
            IdleAction::Continue
        }
    }

    /// The number of live tasks.
    pub fn task_count(&self) -> (n: usize)
        ensures
            n == self.tasks@.len(),
    {
        self.tasks.len()
    }

    /// The number of cached wakers.
    pub fn waker_count(&self) -> (n: usize)
        ensures
            n == self.waker_cache@.len(),
    {
        self.waker_cache.len()
    }

    /// Whether a task with the given identifier is live.
    pub fn contains_task(&self, id: u64) -> (r: bool)
        ensures
            r == self.tasks@.contains_key(id),
    {
        self.tasks.contains_key(&id)
    }

    /// How many identifiers the ready queue currently holds.
    pub fn ready_len(&self) -> (n: usize)
        ensures
            n == queue_contents(self.task_queue).len(),
    {
        queue_len(&self.task_queue)
    }

    /// The fixed capacity of the ready queue.
    pub fn ready_capacity(&self) -> (n: usize)
        ensures
            n == queue_capacity(self.task_queue),
    {
        queue_cap(&self.task_queue)
    }
}

} // verus!
