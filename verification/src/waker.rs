//! Waker slots, the order of an installation, and what a vector's service
//! routine does.

use vstd::prelude::*;

verus! {

/// One step of installing a continuation.
#[derive(Clone, Copy, Debug, PartialEq, Eq, Structural)]
pub enum Step {
    /// Mask the vector: the critical section begins.
    Mask,
    /// Acquire fence: nothing of what follows moves before the mask.
    AcquireFence,
    /// Store the continuation in its slot, over whatever was there.
    Store,
    /// Clear the vector's pending flag.
    Unpend,
    /// Release fence: nothing of what came before moves behind the unmask.
    ReleaseFence,
    /// Unmask the vector: the critical section ends.
    Unmask,
}

impl Step {
    /// The steps of one installation, in the order in which they are taken.
    pub open spec fn order() -> Seq<Step> {
        seq![
            Step::Mask,
            Step::AcquireFence,
            Step::Store,
            Step::Unpend,
            Step::ReleaseFence,
            Step::Unmask,
        ]
    }

    /// Where in the order this step stands.
    pub open spec fn position(self) -> int {
        match self {
            Step::Mask => 0,
            Step::AcquireFence => 1,
            Step::Store => 2,
            Step::Unpend => 3,
            Step::ReleaseFence => 4,
            Step::Unmask => 5,
        }
    }

    /// The step that opens an installation.
    pub fn first() -> (res: Step)
        ensures
            res == Self::order()[0],
    {
        Step::Mask
    }

    /// The step that follows this one, or `None` after the last.
    pub fn next(self) -> (res: Option<Step>)
        ensures
            self.position() < 5 ==> res == Some(Self::order()[self.position() + 1]),
            self.position() == 5 ==> res is None,
    {
        match self {
            Step::Mask => Some(Step::AcquireFence),
            Step::AcquireFence => Some(Step::Store),
            Step::Store => Some(Step::Unpend),
            Step::Unpend => Some(Step::ReleaseFence),
            Step::ReleaseFence => Some(Step::Unmask),
            Step::Unmask => None,
        }
    }
}

/// What a vector's service routine does next.
#[derive(Clone, Copy, Debug, PartialEq, Eq, Structural)]
pub enum IsrStep {
    /// Resume the continuation in the slot of this index, then go on behind
    /// it.
    Resume(usize),
    /// No occupied slot is left: mask the vector and return.
    Mask,
}

/// The indices of the occupied cells, in rising order: the slots that one
/// run of the service routine resumes.
pub open spec fn occupied<W>(cells: Seq<Option<W>>) -> Seq<int>
    decreases cells.len(),
{
    if cells.len() == 0 {
        Seq::empty()
    } else if cells.last() is Some {
        occupied(cells.drop_last()).push(cells.len() - 1)
    } else {
        occupied(cells.drop_last())
    }
}

/// The occupied indices come in rising order, and an index is among them
/// exactly if its cell is occupied.
pub proof fn lemma_occupied<W>(cells: Seq<Option<W>>)
    ensures
        forall|k: int|
            0 <= k < occupied(cells).len() ==> 0 <= #[trigger] occupied(cells)[k] < cells.len()
                && cells[occupied(cells)[k]] is Some,
        forall|j: int, k: int|
            0 <= j < k < occupied(cells).len() ==> occupied(cells)[j] < occupied(cells)[k],
        forall|i: int|
            0 <= i < cells.len() && cells[i] is Some ==> occupied(cells).contains(i),
    decreases cells.len(),
{
    if cells.len() > 0 {
        let front = cells.drop_last();
        lemma_occupied(front);
        let all = occupied(cells);
        assert forall|i: int| 0 <= i < cells.len() && cells[i] is Some implies all.contains(i) by {
            if i < front.len() {
                assert(front[i] is Some);
                assert(occupied(front).contains(i));
                let k = choose|k: int| 0 <= k < occupied(front).len() && occupied(front)[k] == i;
                assert(all[k] == i);
            } else {
                assert(all[all.len() - 1] == i);
            }
        }
    }
}

/// An occupied slot is resumed exactly once by one run of the service
/// routine.
pub proof fn lemma_occupied_once<W>(cells: Seq<Option<W>>, index: int)
    requires
        0 <= index < cells.len(),
        cells[index] is Some,
    ensures
        resumed_once(occupied(cells), index),
{
    lemma_occupied(cells);
    let all = occupied(cells);
    assert(all.contains(index));
    let k = choose|k: int| 0 <= k < all.len() && all[k] == index;
    assert(all[k] == index && forall|j: int| 0 <= j < all.len() && all[j] == index ==> j == k);
}

/// Whether the slot `index` occurs exactly once in the log `resumed` of
/// resumed slots.
pub open spec fn resumed_once(resumed: Seq<int>, index: int) -> bool {
    exists|k: int|
        0 <= k < resumed.len() && #[trigger] resumed[k] == index && forall|j: int|
            0 <= j < resumed.len() && resumed[j] == index ==> j == k
}

/// Whether `step` is what the service routine does when it has dealt with
/// the slots below `cursor`: it resumes the first occupied slot from there
/// on, and masks when there is none.
pub open spec fn dispatches<W>(cells: Seq<Option<W>>, cursor: int, step: IsrStep) -> bool {
    match step {
        IsrStep::Resume(index) => {
            &&& cursor <= index < cells.len()
            &&& cells[index as int] is Some
            &&& forall|j: int| cursor <= j < index ==> cells[j] is None
        },
        IsrStep::Mask => forall|j: int| cursor <= j < cells.len() ==> cells[j] is None,
    }
}

/// The waker slots of one interrupt vector: one cell for each source that
/// shares the vector, each empty or holding the continuation to resume.
///
/// A cell is written only inside the critical section of an installation
/// and read only by the vector's service routine.
pub struct WakerSlots<W> {
    cells: Vec<Option<W>>,
}

impl<W> View for WakerSlots<W> {
    type V = Seq<Option<W>>;

    closed spec fn view(&self) -> Seq<Option<W>> {
        self.cells@
    }
}

impl<W> WakerSlots<W> {
    /// `count` empty slots.
    pub fn new(count: usize) -> (res: Self)
        ensures
            res@.len() == count,
            forall|i: int| 0 <= i < count ==> res@[i] is None,
    {
        let mut cells: Vec<Option<W>> = Vec::new();
        while cells.len() < count
            invariant
                cells@.len() <= count,
                forall|i: int| 0 <= i < cells@.len() ==> cells@[i] is None,
            decreases count - cells@.len(),
        {
            cells.push(None);
        }
        WakerSlots { cells }
    }

    /// The number of slots.
    pub fn len(&self) -> (res: usize)
        ensures
            res == self@.len(),
    {
        self.cells.len()
    }

    /// Stores `waker` in the slot `index`, over whatever was there.
    pub fn store(&mut self, index: usize, waker: W)
        requires
            index < old(self)@.len(),
        ensures
            final(self)@ == old(self)@.update(index as int, Some(waker)),
    {
        self.cells.set(index, Some(waker));
    }

    /// The continuation in the slot `index`, if the slot exists and is
    /// occupied.
    pub fn get(&self, index: usize) -> (res: Option<&W>)
        ensures
            res is Some <==> index < self@.len() && self@[index as int] is Some,
            res is Some ==> *res->0 == self@[index as int]->0,
    {
        if index < self.cells.len() {
            self.cells[index].as_ref()
        } else {
            None
        }
    }

    /// What the service routine does once it has dealt with the slots below
    /// `cursor`. It starts with `cursor` 0 and, after `Resume(index)`, goes
    /// on with `cursor` `index + 1`.
    pub fn dispatch_step(&self, cursor: usize) -> (res: IsrStep)
        ensures
            dispatches(self@, cursor as int, res),
    {
        let mut at: usize = cursor;
        while at < self.cells.len()
            invariant
                cursor <= at,
                forall|j: int| cursor <= j < at && j < self.cells@.len() ==> self.cells@[j] is None,
            decreases self.cells@.len() - at,
        {
            if self.cells[at].is_some() {
                return IsrStep::Resume(at);
            }
            at = at + 1;
        }
        IsrStep::Mask
    }
}

} // verus!
