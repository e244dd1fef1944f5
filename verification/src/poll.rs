//! The result of polling a suspend point, and the one-shot completion state
//! that the timer, pin and transfer futures share.

use vstd::prelude::*;

verus! {

/// What one poll of a suspend point reports.
///
/// On `Pending` the caller installs its continuation in the waker slot of
/// the event's interrupt vector (see [`crate::waker::Step`]) before it
/// suspends.
#[derive(Debug, PartialEq, Eq)]
pub enum Poll<T> {
    /// The event has happened; the value is its result.
    Ready(T),
    /// The event has not happened yet.
    Pending,
}

/// A one-shot completion: armed until the event is observed, then done for
/// good.
#[derive(Debug)]
pub struct Completion {
    done: bool,
}

impl Completion {
    /// Whether the completion has already reported its event.
    pub closed spec fn terminated(&self) -> bool {
        self.done
    }

    /// The completion after it has taken note of the source's flag: it is
    /// terminated once the flag was found set.
    pub closed spec fn observed(self, satisfied: bool) -> Self {
        Completion { done: self.done || satisfied }
    }

    /// The completion after the polls that found the flag as `flags` says,
    /// in their order.
    pub open spec fn observed_all(self, flags: Seq<bool>) -> Self
        decreases flags.len(),
    {
        if flags.len() == 0 {
            self
        } else {
            self.observed_all(flags.drop_last()).observed(flags.last())
        }
    }

    /// What a poll reports that finds the source's flag set or clear.
    pub open spec fn report(satisfied: bool) -> Poll<()> {
        if satisfied {
            Poll::Ready(())
        } else {
            Poll::Pending
        }
    }

    /// A completion that waits for its event.
    pub fn armed() -> (res: Self)
        ensures
            !res.terminated(),
    {
        Completion { done: false }
    }

    /// Whether the completion has already reported its event. Observing a
    /// terminated completion again is a contract violation.
    pub fn is_terminated(&self) -> (res: bool)
        ensures
            res == self.terminated(),
    {
        self.done
    }

    /// Takes note of the event source's flag: `Ready` and terminated if the
    /// flag was set, `Pending` and still armed if not.
    pub fn observe(&mut self, satisfied: bool) -> (res: Poll<()>)
        requires
            !old(self).terminated(),
        ensures
            res == Self::report(satisfied),
            *final(self) == old(self).observed(satisfied),
            final(self).terminated() == satisfied,
    {
        if satisfied {
            self.done = true;
            Poll::Ready(())
        } else {
            Poll::Pending
        }
    }
}

/// A completion reports `Ready` once and for all.
///
/// An armed completion is terminated after a poll exactly if that poll
/// reported `Ready`, and what is terminated stays so: from then on no poll is
/// admitted, and none can report a stale result.
pub proof fn lemma_ready_is_final(completion: Completion, satisfied: bool)
    ensures
        !completion.terminated() ==> (Completion::report(satisfied) is Ready
            <==> completion.observed(satisfied).terminated()),
        completion.terminated() ==> completion.observed(satisfied).terminated(),
{
}

/// A completion does not resolve before its event.
///
/// However often an armed completion is polled, it is terminated exactly if
/// one of the polls found the source's flag set.
pub proof fn lemma_terminated_iff_flag_seen(completion: Completion, flags: Seq<bool>)
    requires
        !completion.terminated(),
    ensures
        completion.observed_all(flags).terminated() <==> flags.contains(true),
    decreases flags.len(),
{
    if flags.len() > 0 {
        let before = flags.drop_last();
        lemma_terminated_iff_flag_seen(completion, before);
        if flags.contains(true) {
            let i = choose|i: int| 0 <= i < flags.len() && flags[i] == true;
            if i < before.len() {
                assert(before[i] == true);
            }
        }
        if before.contains(true) {
            let i = choose|i: int| 0 <= i < before.len() && before[i] == true;
            assert(flags[i] == true);
        }
        if flags.last() {
            assert(flags[flags.len() - 1] == true);
        }
    }
}

} // verus!
