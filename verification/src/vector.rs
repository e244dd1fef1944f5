//! One interrupt vector with its event source and its waker slots: what each
//! step of an installation, each hardware event and each run of the service
//! routine does to it, and why no wakeup is lost or doubled.
//!
//! [`Vector`] is the same thing in executable form, to drive suspend points
//! without hardware.

use crate::poll::{Completion, Poll};
use crate::waker::{lemma_occupied_once, occupied, resumed_once, IsrStep, Step, WakerSlots};
use vstd::prelude::*;

verus! {

/// What the interrupt controller, the event source and the waker slots of
/// one vector hold.
pub struct VectorState<W> {
    /// The waker slots of the vector.
    pub cells: Seq<Option<W>>,
    /// Whether the vector is masked, so that its service routine cannot run.
    pub masked: bool,
    /// The controller's pending flag; it is latched even while the vector is
    /// masked.
    pub pending: bool,
    /// The source's completion flag. While it is set the source keeps
    /// requesting the interrupt.
    pub request: bool,
}

/// Something that happens to a vector while a task installs its
/// continuation or is parked.
#[derive(Clone, Copy, Debug, PartialEq, Eq)]
pub enum Event {
    /// The hardware event occurs: the source sets its completion flag.
    Raise,
    /// A task consumes the event: the source's completion flag is cleared.
    Acknowledge,
    /// The controller tries to run the service routine; nothing happens
    /// unless the vector is unmasked and pending.
    Fire,
    /// The installing task takes one step.
    Software(Step),
}

impl<W> VectorState<W> {
    /// The hardware event occurs: the source's flag is set and the
    /// controller latches it.
    pub open spec fn raise(self) -> Self {
        VectorState { pending: true, request: true, ..self }
    }

    /// The task consumes the event: the source's flag is cleared. What the
    /// controller has latched stays.
    pub open spec fn acknowledge(self) -> Self {
        VectorState { request: false, ..self }
    }

    /// The vector is masked: its service routine cannot run.
    pub open spec fn mask(self) -> Self {
        VectorState { masked: true, ..self }
    }

    /// `waker` is stored in the slot `slot`, over whatever was there.
    pub open spec fn store(self, slot: int, waker: W) -> Self {
        VectorState { cells: self.cells.update(slot, Some(waker)), ..self }
    }

    /// The pending flag is cleared. That discards a latched event whose
    /// source no longer requests; a source that still requests sets the flag
    /// again at once.
    pub open spec fn unpend(self) -> Self {
        VectorState { pending: self.request, ..self }
    }

    /// The vector is unmasked: from now on its service routine can run.
    pub open spec fn unmask(self) -> Self {
        VectorState { masked: false, ..self }
    }

    /// One step of an installation of `waker` in the slot `slot`. The fences
    /// order what the processor does and leave the vector as it is.
    pub open spec fn apply(self, step: Step, slot: int, waker: W) -> Self {
        match step {
            Step::Mask => self.mask(),
            Step::AcquireFence => self,
            Step::Store => self.store(slot, waker),
            Step::Unpend => self.unpend(),
            Step::ReleaseFence => self,
            Step::Unmask => self.unmask(),
        }
    }

    /// The steps `steps` of an installation, one after the other.
    pub open spec fn apply_all(self, steps: Seq<Step>, slot: int, waker: W) -> Self
        decreases steps.len(),
    {
        if steps.len() == 0 {
            self
        } else {
            self.apply_all(steps.drop_last(), slot, waker).apply(steps.last(), slot, waker)
        }
    }

    /// A whole installation with nothing happening in between.
    pub open spec fn install(self, slot: int, waker: W) -> Self {
        self.apply_all(Step::order(), slot, waker)
    }

    /// Whether the service routine can run.
    pub open spec fn deliverable(self) -> bool {
        !self.masked && self.pending
    }

    /// One run of the service routine: it resumes the occupied slots and
    /// leaves the vector masked. Entering it clears the pending flag, which
    /// a source that still requests sets again.
    pub open spec fn service(self) -> Self {
        VectorState { masked: true, pending: self.request, ..self }
    }

    /// The vector after `event`, during an installation of `waker` in the
    /// slot `slot`.
    pub open spec fn after(self, event: Event, slot: int, waker: W) -> Self {
        match event {
            Event::Raise => self.raise(),
            Event::Acknowledge => self.acknowledge(),
            Event::Fire => if self.deliverable() {
                self.service()
            } else {
                self
            },
            Event::Software(step) => self.apply(step, slot, waker),
        }
    }

    /// The slots that `event` resumes.
    pub open spec fn resumed_by(self, event: Event) -> Seq<int> {
        if event == Event::Fire && self.deliverable() {
            occupied(self.cells)
        } else {
            Seq::empty()
        }
    }

    /// The vector after the events of `trace`, in their order.
    pub open spec fn run(self, trace: Seq<Event>, slot: int, waker: W) -> Self
        decreases trace.len(),
    {
        if trace.len() == 0 {
            self
        } else {
            self.run(trace.drop_last(), slot, waker).after(trace.last(), slot, waker)
        }
    }

    /// The slots resumed during `trace`, in the order of their resumption.
    pub open spec fn resumes(self, trace: Seq<Event>, slot: int, waker: W) -> Seq<int>
        decreases trace.len(),
    {
        if trace.len() == 0 {
            Seq::empty()
        } else {
            self.resumes(trace.drop_last(), slot, waker) + self.run(
                trace.drop_last(),
                slot,
                waker,
            ).resumed_by(trace.last())
        }
    }
}

impl<W> VectorState<W> {
    /// The number of runs of the service routine during `trace`.
    pub open spec fn services(self, trace: Seq<Event>, slot: int, waker: W) -> nat
        decreases trace.len(),
    {
        if trace.len() == 0 {
            0
        } else {
            let before = self.run(trace.drop_last(), slot, waker);
            let earlier = self.services(trace.drop_last(), slot, waker);
            if trace.last() == Event::Fire && before.deliverable() {
                earlier + 1
            } else {
                earlier
            }
        }
    }
}

/// The number of unmask steps in `trace`.
pub open spec fn unmasks(trace: Seq<Event>) -> nat
    decreases trace.len(),
{
    if trace.len() == 0 {
        0
    } else if trace.last() == Event::Software(Step::Unmask) {
        unmasks(trace.drop_last()) + 1
    } else {
        unmasks(trace.drop_last())
    }
}

/// The steps that the installing task takes in `trace`, in their order.
pub open spec fn software_steps(trace: Seq<Event>) -> Seq<Step>
    decreases trace.len(),
{
    if trace.len() == 0 {
        Seq::empty()
    } else {
        match trace.last() {
            Event::Software(step) => software_steps(trace.drop_last()).push(step),
            _ => software_steps(trace.drop_last()),
        }
    }
}

/// Taking one more step after `steps` is applying it to what `steps` left.
proof fn lemma_apply_push<W>(
    state: VectorState<W>,
    steps: Seq<Step>,
    step: Step,
    slot: int,
    waker: W,
)
    ensures
        state.apply_all(steps.push(step), slot, waker) == state.apply_all(
            steps,
            slot,
            waker,
        ).apply(step, slot, waker),
{
    assert(steps.push(step).drop_last() =~= steps);
}

/// An installation with nothing in between leaves the continuation in its
/// slot and the vector unmasked, pending exactly if the source requests.
pub proof fn lemma_install_outcome<W>(state: VectorState<W>, slot: int, waker: W)
    ensures
        state.install(slot, waker) == state.store(slot, waker).unpend().unmask(),
        state.install(slot, waker) == (VectorState {
            cells: state.cells.update(slot, Some(waker)),
            masked: false,
            pending: state.request,
            request: state.request,
        }),
{
    let s0 = Seq::<Step>::empty();
    let s1 = s0.push(Step::Mask);
    let s2 = s1.push(Step::AcquireFence);
    let s3 = s2.push(Step::Store);
    let s4 = s3.push(Step::Unpend);
    let s5 = s4.push(Step::ReleaseFence);
    let s6 = s5.push(Step::Unmask);
    lemma_apply_push(state, s0, Step::Mask, slot, waker);
    lemma_apply_push(state, s1, Step::AcquireFence, slot, waker);
    lemma_apply_push(state, s2, Step::Store, slot, waker);
    lemma_apply_push(state, s3, Step::Unpend, slot, waker);
    lemma_apply_push(state, s4, Step::ReleaseFence, slot, waker);
    lemma_apply_push(state, s5, Step::Unmask, slot, waker);
    assert(s6 =~= Step::order());
}

/// What holds of a vector `end` and of the log `log` of resumed slots when
/// `taken` steps of an installation have been taken from `start`, whatever
/// the hardware did in between.
spec fn cycle_invariant<W>(
    start: VectorState<W>,
    end: VectorState<W>,
    log: Seq<int>,
    taken: int,
    slot: int,
    waker: W,
) -> bool {
    let armed = start.cells.update(slot, Some(waker));
    &&& taken == 0 ==> end == start && log == Seq::<int>::empty()
    &&& 1 <= taken <= 2 ==> end.masked && end.cells == start.cells && log == Seq::<int>::empty()
    &&& taken == 3 ==> end.masked && end.cells == armed && log == Seq::<int>::empty()
    &&& 4 <= taken <= 5 ==> end.masked && end.cells == armed && end.pending == end.request && log
        == Seq::<int>::empty()
    &&& taken == 6 ==> end.cells == armed && ({
        ||| !end.masked && end.pending == end.request && log == Seq::<int>::empty()
        ||| end.masked && end.request && log == occupied(armed)
    })
}

/// A trace that begins with a step of the task holds at least one step.
proof fn lemma_first_step_counts(trace: Seq<Event>)
    requires
        trace.len() > 0,
        trace[0] is Software,
    ensures
        software_steps(trace).len() > 0,
    decreases trace.len(),
{
    if trace.len() > 1 {
        lemma_first_step_counts(trace.drop_last());
    }
}

/// The invariant of an installation cycle holds after every part of it.
proof fn lemma_cycle_invariant<W>(start: VectorState<W>, trace: Seq<Event>, slot: int, waker: W)
    requires
        trace.len() > 0 ==> trace[0] == Event::Software(Step::Mask),
        !trace.contains(Event::Acknowledge),
        software_steps(trace).len() <= 6,
        software_steps(trace) == Step::order().take(software_steps(trace).len() as int),
    ensures
        cycle_invariant(
            start,
            start.run(trace, slot, waker),
            start.resumes(trace, slot, waker),
            software_steps(trace).len() as int,
            slot,
            waker,
        ),
        start.run(trace, slot, waker).request == (start.request || trace.contains(Event::Raise)),
    decreases trace.len(),
{
    if trace.len() > 0 {
        let before = trace.drop_last();
        let last = trace.last();
        let taken = software_steps(before).len() as int;
        assert(software_steps(before) =~= Step::order().take(taken));
        assert(!before.contains(Event::Acknowledge)) by {
            if before.contains(Event::Acknowledge) {
                let i = choose|i: int| 0 <= i < before.len() && before[i] == Event::Acknowledge;
                assert(trace[i] == Event::Acknowledge);
            }
        }
        assert(last != Event::Acknowledge) by {
            assert(trace[trace.len() - 1] == last);
        }
        lemma_cycle_invariant(start, before, slot, waker);
        if before.len() > 0 {
            lemma_first_step_counts(before);
        }
        let mid = start.run(before, slot, waker);
        let log = start.resumes(before, slot, waker);
        assert(log + mid.resumed_by(last) =~= start.resumes(trace, slot, waker));
        if let Event::Software(step) = last {
            assert(software_steps(trace)[taken] == step);
            assert(step == Step::order()[taken]);
        }
        if trace.contains(Event::Raise) {
            let i = choose|i: int| 0 <= i < trace.len() && trace[i] == Event::Raise;
            if i < before.len() {
                assert(before[i] == Event::Raise);
            }
        }
        if before.contains(Event::Raise) {
            let i = choose|i: int| 0 <= i < before.len() && before[i] == Event::Raise;
            assert(trace[i] == Event::Raise);
        }
        if last == Event::Raise {
            assert(trace[trace.len() - 1] == Event::Raise);
        }
    }
}

/// The service routine runs at most once for each unmask.
///
/// Whatever happens to a vector, in whatever order: between two unmask steps
/// the service routine runs at most once, and while the vector is masked it
/// does not run at all. A vector that starts out unmasked may be served once
/// before the first unmask.
pub proof fn lemma_one_service_per_unmask<W>(
    start: VectorState<W>,
    trace: Seq<Event>,
    slot: int,
    waker: W,
)
    ensures
        start.services(trace, slot, waker) + (if start.run(trace, slot, waker).masked {
            0nat
        } else {
            1nat
        }) <= unmasks(trace) + (if start.masked {
            0nat
        } else {
            1nat
        }),
    decreases trace.len(),
{
    if trace.len() > 0 {
        lemma_one_service_per_unmask(start, trace.drop_last(), slot, waker);
    }
}

/// No wakeup is lost and none is doubled.
///
/// A task installs `waker` in the slot `slot`: `trace` begins with the mask
/// step and holds the steps of one installation in their order. Between and
/// after them the hardware event may occur and the controller may try to run
/// the service routine, any number of times and at any point; the event is
/// not consumed, since the task that would consume it is busy installing or
/// parked. Then, whatever the vector's state was at the start:
///
/// - the service routine has run at most once since the mask step, and when
///   it ran it resumed the occupied slots, the installed one among them
///   exactly once;
/// - it has not run unless the source requests, which it does if its event
///   occurred during the trace or had occurred before and was not yet
///   consumed;
/// - once the controller has nothing left to deliver, it has run if the
///   source requests.
pub proof fn lemma_install_cycle_resumes_once<W>(
    start: VectorState<W>,
    trace: Seq<Event>,
    slot: int,
    waker: W,
)
    requires
        0 <= slot < start.cells.len(),
        trace.len() > 0,
        trace[0] == Event::Software(Step::Mask),
        software_steps(trace) == Step::order(),
        !trace.contains(Event::Acknowledge),
    ensures
        ({
            let end = start.run(trace, slot, waker);
            let log = start.resumes(trace, slot, waker);
            let armed = start.cells.update(slot, Some(waker));
            &&& end.cells == armed
            &&& end.request == (start.request || trace.contains(Event::Raise))
            &&& log == Seq::<int>::empty() || log == occupied(armed)
            &&& resumed_once(occupied(armed), slot)
            &&& log == occupied(armed) ==> end.request
            &&& !end.deliverable() && end.request ==> log == occupied(armed)
        }),
{
    assert(Step::order().take(6) =~= Step::order());
    lemma_cycle_invariant(start, trace, slot, waker);
    lemma_occupied_once(start.cells.update(slot, Some(waker)), slot);
}

/// Below the first occupied cell from `from` on, nothing is occupied that
/// was not occupied below `from`.
proof fn lemma_occupied_skip<W>(cells: Seq<Option<W>>, from: int, to: int)
    requires
        0 <= from <= to <= cells.len(),
        forall|j: int| from <= j < to ==> cells[j] is None,
    ensures
        occupied(cells.take(to)) == occupied(cells.take(from)),
    decreases to - from,
{
    if from < to {
        lemma_occupied_skip(cells, from, to - 1);
        assert(cells.take(to).drop_last() =~= cells.take(to - 1));
    }
}

/// An interrupt vector in software: its waker slots, the controller's mask
/// and pending flags, and the completion flag of its event source.
pub struct Vector<W> {
    slots: WakerSlots<W>,
    masked: bool,
    pending: bool,
    request: bool,
}

impl<W> View for Vector<W> {
    type V = VectorState<W>;

    closed spec fn view(&self) -> VectorState<W> {
        VectorState {
            cells: self.slots@,
            masked: self.masked,
            pending: self.pending,
            request: self.request,
        }
    }
}

impl<W> Vector<W> {
    /// A vector as it is after reset: `slots` empty slots, masked, nothing
    /// pending, no request.
    pub fn new(slots: usize) -> (res: Self)
        ensures
            res@.cells.len() == slots,
            forall|i: int| 0 <= i < slots ==> res@.cells[i] is None,
            res@.masked,
            !res@.pending,
            !res@.request,
    {
        Vector { slots: WakerSlots::new(slots), masked: true, pending: false, request: false }
    }

    /// The waker slots.
    pub fn slots(&self) -> (res: &WakerSlots<W>)
        ensures
            res@ == self@.cells,
    {
        &self.slots
    }

    /// Whether the vector is masked.
    pub fn is_masked(&self) -> (res: bool)
        ensures
            res == self@.masked,
    {
        self.masked
    }

    /// Whether the controller holds the vector pending.
    pub fn is_pending(&self) -> (res: bool)
        ensures
            res == self@.pending,
    {
        self.pending
    }

    /// Whether the source's completion flag is set.
    pub fn is_requested(&self) -> (res: bool)
        ensures
            res == self@.request,
    {
        self.request
    }

    /// The hardware event occurs.
    pub fn raise(&mut self)
        ensures
            final(self)@ == old(self)@.raise(),
    {
        self.request = true;
        self.pending = true;
    }

    /// The task consumes the event: the source's completion flag is cleared.
    pub fn acknowledge(&mut self)
        ensures
            final(self)@ == old(self)@.acknowledge(),
    {
        self.request = false;
    }

    /// Masks the vector.
    pub fn mask(&mut self)
        ensures
            final(self)@ == old(self)@.mask(),
    {
        self.masked = true;
    }

    /// Stores `waker` in the slot `slot`, over whatever was there.
    pub fn store(&mut self, slot: usize, waker: W)
        requires
            slot < old(self)@.cells.len(),
        ensures
            final(self)@ == old(self)@.store(slot as int, waker),
    {
        self.slots.store(slot, waker);
    }

    /// Clears the pending flag; a source that still requests sets it again.
    pub fn unpend(&mut self)
        ensures
            final(self)@ == old(self)@.unpend(),
    {
        self.pending = self.request;
    }

    /// Unmasks the vector.
    pub fn unmask(&mut self)
        ensures
            final(self)@ == old(self)@.unmask(),
    {
        self.masked = false;
    }

    /// Takes one step of an installation. The store step takes the
    /// continuation out of `waker`.
    fn perform(&mut self, step: Step, slot: usize, waker: &mut Option<W>)
        requires
            slot < old(self)@.cells.len(),
            step == Step::Store ==> *old(waker) is Some,
        ensures
            step == Step::Store ==> *final(waker) is None && final(self)@ == old(self)@.apply(
                step,
                slot as int,
                old(waker)->0,
            ),
            step != Step::Store ==> *final(waker) == *old(waker) && forall|w: W|
                final(self)@ == #[trigger] old(self)@.apply(step, slot as int, w),
    {
        match step {
            Step::Mask => self.mask(),
            Step::AcquireFence => {},
            Step::Store => {
                if let Some(parked) = waker.take() {
                    self.store(slot, parked);
                }
            },
            Step::Unpend => self.unpend(),
            Step::ReleaseFence => {},
            Step::Unmask => self.unmask(),
        }
    }

    /// Installs `waker` in the slot `slot`: the steps of [`Step::order`],
    /// one after the other. The vector is left unmasked with the
    /// continuation in its slot, pending exactly if the source requests.
    pub fn install(&mut self, slot: usize, waker: W)
        requires
            slot < old(self)@.cells.len(),
        ensures
            final(self)@ == old(self)@.install(slot as int, waker),
            final(self)@ == old(self)@.store(slot as int, waker).unpend().unmask(),
    {
        let ghost start = self@;
        let ghost mut taken: Seq<Step> = Seq::empty();
        let mut parked = Some(waker);
        let mut current = Step::first();
        let mut more = true;
        proof {
            assert(Step::order().take(0) =~= taken);
        }
        while more
            invariant
                slot < start.cells.len(),
                self@ == start.apply_all(taken, slot as int, waker),
                self@.cells.len() == start.cells.len(),
                more ==> taken == Step::order().take(current.position()),
                more ==> parked == (if current.position() <= 2 {
                    Some(waker)
                } else {
                    None
                }),
                !more ==> taken == Step::order(),
            decreases
                    (if more {
                        6 - current.position()
                    } else {
                        0
                    }),
        {
            self.perform(current, slot, &mut parked);
            proof {
                lemma_apply_push(start, taken, current, slot as int, waker);
                assert(current == Step::order()[current.position()]);
                assert(Step::order().take(current.position()).push(current)
                    =~= Step::order().take(current.position() + 1));
                taken = taken.push(current);
                assert(Step::order().take(6) =~= Step::order());
            }
            match current.next() {
                Some(next) => {
                    current = next;
                },
                None => {
                    more = false;
                },
            }
        }
        proof {
            lemma_install_outcome(start, slot as int, waker);
        }
    }

    /// One poll of a one-shot suspend point that waits for the event of
    /// this vector's source: if the source's flag is set, the flag is
    /// cleared and the poll is `Ready`, once and for all; if not, `waker` is
    /// installed in the slot `slot` and the poll is `Pending`.
    pub fn poll_one_shot(&mut self, completion: &mut Completion, slot: usize, waker: W) -> (res:
        Poll<()>)
        requires
            !old(completion).terminated(),
            slot < old(self)@.cells.len(),
        ensures
            res == Completion::report(old(self)@.request),
            *final(completion) == old(completion).observed(old(self)@.request),
            final(completion).terminated() == old(self)@.request,
            final(self)@ == if old(self)@.request {
                old(self)@.acknowledge()
            } else {
                old(self)@.install(slot as int, waker)
            },
    {
        let satisfied = self.request;
        if satisfied {
            self.acknowledge();
        } else {
            self.install(slot, waker);
        }
        completion.observe(satisfied)
    }

    /// The controller tries to run the service routine. `None` if the vector
    /// is masked or not pending; else the slots that the routine resumed, in
    /// rising order, and the vector is left masked.
    pub fn fire(&mut self) -> (res: Option<Vec<usize>>)
        ensures
            res is Some <==> old(self)@.deliverable(),
            res is None ==> final(self)@ == old(self)@,
            res is Some ==> final(self)@ == old(self)@.service() && res->0@.map_values(
                |i: usize| i as int,
            ) == occupied(old(self)@.cells),
    {
        if self.masked || !self.pending {
            return None;
        }
        let ghost cells = self@.cells;
        let count = self.slots.len();
        let mut resumed: Vec<usize> = Vec::new();
        let mut cursor: usize = 0;
        let mut more = true;
        proof {
            assert(cells.take(0) =~= Seq::<Option<W>>::empty());
            assert(resumed@.map_values(|i: usize| i as int) =~= Seq::<int>::empty());
        }
        while more
            invariant
                self.slots@ == cells,
                self.request == old(self).request,
                count == cells.len(),
                cursor <= count,
                more ==> !self.masked,
                !more ==> self.masked && cursor == cells.len(),
                resumed@.map_values(|i: usize| i as int) == occupied(cells.take(cursor as int)),
            decreases cells.len() - cursor + (if more { 1int } else { 0int }),
        {
            match self.slots.dispatch_step(cursor) {
                IsrStep::Resume(index) => {
                    proof {
                        lemma_occupied_skip(cells, cursor as int, index as int);
                        assert(cells.take(index + 1).drop_last() =~= cells.take(index as int));
                        assert(resumed@.push(index).map_values(|i: usize| i as int)
                            =~= resumed@.map_values(|i: usize| i as int).push(index as int));
                    }
                    resumed.push(index);
                    cursor = index + 1;
                },
                IsrStep::Mask => {
                    proof {
                        lemma_occupied_skip(cells, cursor as int, cells.len() as int);
                    }
                    self.masked = true;
                    cursor = count;
                    more = false;
                },
            }
        }
        proof {
            assert(cells.take(cells.len() as int) =~= cells);
        }
        self.pending = self.request;
        Some(resumed)
    }
}

} // verus!
