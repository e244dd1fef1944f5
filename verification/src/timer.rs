//! Delays on a count-down timer.

use crate::interrupt::{Interrupt, Slot};
use crate::poll::{Completion, Poll};
use vstd::prelude::*;

verus! {

/// What a count-down timer answers when asked whether it has elapsed.
#[derive(Clone, Copy, Debug, PartialEq, Eq, Structural)]
pub enum Wait {
    /// The countdown has elapsed; asking has cleared the timer's flag.
    Done,
    /// The countdown is still running.
    NotYet,
    /// The timer reports an error that its own contract rules out.
    Fault,
}

/// The timers whose update event wakes a delay.
#[derive(Clone, Copy, Debug, PartialEq, Eq, Structural)]
pub enum TimerId {
    /// Timer 2.
    Tim2,
    /// Timer 3.
    Tim3,
}

impl TimerId {
    /// The slot in which a delay on this timer parks its continuation.
    pub open spec fn slot(self) -> Slot {
        match self {
            TimerId::Tim2 => Slot { interrupt: Interrupt::Tim2, index: 0 },
            TimerId::Tim3 => Slot { interrupt: Interrupt::Tim3, index: 0 },
        }
    }

    /// The slot in which a delay on this timer parks its continuation.
    pub fn waker_slot(self) -> (res: Slot)
        ensures
            res == self.slot(),
            res.wf(),
    {
        match self {
            TimerId::Tim2 => Slot { interrupt: Interrupt::Tim2, index: 0 },
            TimerId::Tim3 => Slot { interrupt: Interrupt::Tim3, index: 0 },
        }
    }
}

/// A count-down timer that tasks can wait on.
///
/// The timer handed to [`AsyncTimer::new`] counts down and listens to its
/// update event.
pub struct AsyncTimer<T> {
    timer: T,
}

impl<T> AsyncTimer<T> {
    /// The timer inside.
    pub closed spec fn timer(&self) -> T {
        self.timer
    }

    /// Wraps a timer that counts down and listens to its update event.
    pub fn new(timer: T) -> (res: Self)
        ensures
            res.timer() == timer,
    {
        AsyncTimer { timer }
    }

    /// The timer inside.
    pub fn as_ref(&self) -> (res: &T)
        ensures
            *res == self.timer(),
    {
        &self.timer
    }

    /// The timer inside, to start a countdown on it.
    pub fn as_mut(&mut self) -> (res: &mut T)
        ensures
            *res == old(self).timer(),
            final(self).timer() == *final(res),
    {
        &mut self.timer
    }

    /// A future that resolves when the countdown that was started on the
    /// timer has elapsed. It holds the timer until it is dropped.
    pub fn delay_for(&mut self) -> (res: Delay<'_, T>)
        ensures
            *res.timer == old(self).timer(),
            final(self).timer() == *final(res.timer),
            !res.completion.terminated(),
    {
        Delay { timer: &mut self.timer, completion: Completion::armed() }
    }

    /// Gives the timer back.
    pub fn release(self) -> (res: T)
        ensures
            res == self.timer(),
    {
        self.timer
    }
}

/// The future of one delay: armed until the timer reports that it has
/// elapsed.
pub struct Delay<'a, T> {
    /// The timer that counts down.
    pub timer: &'a mut T,
    /// Whether the delay has resolved.
    pub completion: Completion,
}

impl<'a, T> Delay<'a, T> {
    /// The timer that counts down.
    pub fn as_ref(&self) -> (res: &T)
        ensures
            *res == *old(self.timer),
    {
        &*self.timer
    }

    /// The timer that counts down, to ask it whether it has elapsed.
    pub fn as_mut(&mut self) -> (res: &mut T)
        ensures
            *res == *old(self).timer,
            *final(self).timer == *final(res),
            *final(final(self).timer) == *final(old(self).timer),
            final(self).completion == old(self).completion,
    {
        &mut *self.timer
    }

    /// One poll, given the timer's answer: `Ready` once and for all when
    /// the countdown has elapsed, `Pending` while it runs.
    ///
    /// Polling a delay that has resolved is a contract violation, and a
    /// timer fault ends the program: the caller aborts on both.
    pub fn poll(&mut self, outcome: Wait) -> (res: Poll<()>)
        requires
            !old(self).completion.terminated(),
            outcome != Wait::Fault,
        ensures
            res == Completion::report(outcome == Wait::Done),
            final(self).completion == old(self).completion.observed(outcome == Wait::Done),
            final(self).completion.terminated() == (outcome == Wait::Done),
            *final(self).timer == *old(self).timer,
            *final(final(self).timer) == *final(old(self).timer),
    {
        match outcome {
            Wait::Done => self.completion.observe(true),
            _ => self.completion.observe(false),
        }
    }
}

} // verus!
