//! One task that waits for the event of a vector: it polls, parks its
//! continuation, is resumed by the service routine and polls again. However
//! the event, the interrupt and the polls fall, the task completes once, not
//! before the event, and it is never left parked with the event there and
//! nothing to resume it.

use crate::poll::{lemma_ready_is_final, Completion};
use crate::vector::{lemma_install_outcome, VectorState};
use vstd::prelude::*;

verus! {

/// A task and the vector it waits on.
pub struct TaskState<W> {
    /// The vector.
    pub vector: VectorState<W>,
    /// The completion of the task's suspend point.
    pub completion: Completion,
    /// Whether the scheduler holds the task runnable.
    pub runnable: bool,
}

/// Something that happens to a waiting task.
#[derive(Clone, Copy, Debug, PartialEq, Eq, Structural)]
pub enum Turn {
    /// The hardware event occurs.
    Raise,
    /// The controller tries to run the service routine.
    Fire,
    /// The scheduler tries to poll the task; nothing happens unless the task
    /// is runnable and has not completed.
    Poll,
}

impl<W> TaskState<W> {
    /// A task that has just been created on `vector`: not yet polled, and
    /// runnable. The vector may be in any state.
    pub open spec fn start(vector: VectorState<W>, completion: Completion) -> Self {
        TaskState { vector, completion, runnable: true }
    }

    /// Whether a poll does anything.
    pub open spec fn pollable(self) -> bool {
        self.runnable && !self.completion.terminated()
    }

    /// One poll of the task, as [`crate::vector::Vector::poll_one_shot`]
    /// does it: the task completes if the source's flag is set, and parks
    /// `waker` in the slot `slot` if not.
    pub open spec fn poll(self, slot: int, waker: W) -> Self {
        TaskState {
            vector: if self.vector.request {
                self.vector.acknowledge()
            } else {
                self.vector.install(slot, waker)
            },
            completion: self.completion.observed(self.vector.request),
            runnable: false,
        }
    }

    /// The task and its vector after `turn`. The service routine makes the
    /// task runnable if its slot is occupied.
    pub open spec fn after(self, turn: Turn, slot: int, waker: W) -> Self {
        match turn {
            Turn::Raise => TaskState { vector: self.vector.raise(), ..self },
            Turn::Fire => if self.vector.deliverable() {
                TaskState {
                    vector: self.vector.service(),
                    runnable: self.runnable || self.vector.cells[slot] is Some,
                    ..self
                }
            } else {
                self
            },
            Turn::Poll => if self.pollable() {
                self.poll(slot, waker)
            } else {
                self
            },
        }
    }

    /// The task and its vector after the turns of `trace`, in their order.
    pub open spec fn run(self, trace: Seq<Turn>, slot: int, waker: W) -> Self
        decreases trace.len(),
    {
        if trace.len() == 0 {
            self
        } else {
            self.run(trace.drop_last(), slot, waker).after(trace.last(), slot, waker)
        }
    }

    /// The number of polls during `trace` that completed the task.
    pub open spec fn completions(self, trace: Seq<Turn>, slot: int, waker: W) -> nat
        decreases trace.len(),
    {
        if trace.len() == 0 {
            0
        } else {
            let before = self.run(trace.drop_last(), slot, waker);
            let earlier = self.completions(trace.drop_last(), slot, waker);
            if trace.last() == Turn::Poll && before.pollable() && before.vector.request {
                earlier + 1
            } else {
                earlier
            }
        }
    }

    /// What holds of a task that has not completed and is not runnable: it
    /// is parked, and its vector is open for the event.
    spec fn parked_safely(self, slot: int) -> bool {
        !self.completion.terminated() && !self.runnable ==> {
            &&& self.vector.cells[slot] is Some
            &&& !self.vector.masked
            &&& self.vector.pending == self.vector.request
        }
    }
}

/// A waiting task completes once, not before its event, and is not
/// forgotten.
///
/// A task is created on a vector in any state and waits for the event of the
/// vector's source. Whatever then comes in whatever order, the event, tries
/// of the controller to run the service routine, tries of the scheduler to
/// poll the task:
///
/// - at most one poll completes the task, and exactly one has done so when
///   the task has completed;
/// - the task has not completed unless the event has occurred, during the
///   trace or before it;
/// - while the event is there and the task has not completed, the task is
///   runnable or the service routine is about to run: the next poll or the
///   next run of the routine brings it forward.
pub proof fn lemma_task_completes_once<W>(
    vector: VectorState<W>,
    completion: Completion,
    trace: Seq<Turn>,
    slot: int,
    waker: W,
)
    requires
        0 <= slot < vector.cells.len(),
        !completion.terminated(),
    ensures
        ({
            let start = TaskState::start(vector, completion);
            let end = start.run(trace, slot, waker);
            let completions = start.completions(trace, slot, waker);
            &&& completions == if end.completion.terminated() {
                1nat
            } else {
                0nat
            }
            &&& end.completion.terminated() ==> vector.request || trace.contains(Turn::Raise)
            &&& !end.completion.terminated() && end.vector.request ==> end.runnable
                || end.vector.deliverable()
        }),
{
    lemma_task_invariant(vector, completion, trace, slot, waker);
}

/// What holds of a waiting task after every trace.
proof fn lemma_task_invariant<W>(
    vector: VectorState<W>,
    completion: Completion,
    trace: Seq<Turn>,
    slot: int,
    waker: W,
)
    requires
        0 <= slot < vector.cells.len(),
        !completion.terminated(),
    ensures
        ({
            let start = TaskState::start(vector, completion);
            let end = start.run(trace, slot, waker);
            let completions = start.completions(trace, slot, waker);
            &&& end.vector.cells.len() == vector.cells.len()
            &&& end.parked_safely(slot)
            &&& completions == if end.completion.terminated() {
                1nat
            } else {
                0nat
            }
            &&& end.vector.request ==> vector.request || trace.contains(Turn::Raise)
            &&& end.completion.terminated() ==> vector.request || trace.contains(Turn::Raise)
        }),
    decreases trace.len(),
{
    if trace.len() > 0 {
        let before = trace.drop_last();
        lemma_task_invariant(vector, completion, before, slot, waker);
        let mid = TaskState::start(vector, completion).run(before, slot, waker);
        lemma_ready_is_final(mid.completion, mid.vector.request);
        lemma_install_outcome(mid.vector, slot, waker);
        if before.contains(Turn::Raise) {
            let i = choose|i: int| 0 <= i < before.len() && before[i] == Turn::Raise;
            assert(trace[i] == Turn::Raise);
        }
        if trace.last() == Turn::Raise {
            assert(trace[trace.len() - 1] == Turn::Raise);
        }
    }
}

} // verus!
