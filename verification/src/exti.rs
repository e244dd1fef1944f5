//! Edges on external interrupt pins.

use crate::interrupt::{Interrupt, Slot};
use crate::poll::{Completion, Poll};
use vstd::prelude::*;

verus! {

/// The slot in which a trigger on external interrupt line `line` parks its
/// continuation. Lines 5 to 9 share one vector and lines 10 to 15 another,
/// with one slot for each line; no other line is served.
pub open spec fn slot_of_line(line: u8) -> Option<Slot> {
    if 5 <= line <= 9 {
        Some(Slot { interrupt: Interrupt::Exti9_5, index: (line - 5) as usize })
    } else if 10 <= line <= 15 {
        Some(Slot { interrupt: Interrupt::Exti15_10, index: (line - 10) as usize })
    } else {
        None
    }
}

/// The slot in which a trigger on external interrupt line `line` parks its
/// continuation, or `None` for a line that is not served.
pub fn waker_slot(line: u8) -> (res: Option<Slot>)
    ensures
        res == slot_of_line(line),
        res is Some ==> res->0.wf(),
{
    if 5 <= line && line <= 9 {
        Some(Slot { interrupt: Interrupt::Exti9_5, index: (line - 5) as usize })
    } else if 10 <= line && line <= 15 {
        Some(Slot { interrupt: Interrupt::Exti15_10, index: (line - 10) as usize })
    } else {
        None
    }
}

/// An input pin whose edges tasks can wait on.
///
/// The pin handed to [`AsyncPin::new`] is an interrupt source with its
/// interrupt enabled.
pub struct AsyncPin<P> {
    pin: P,
}

impl<P> AsyncPin<P> {
    /// The pin inside.
    pub closed spec fn pin(&self) -> P {
        self.pin
    }

    /// Wraps a pin that is an interrupt source with its interrupt enabled.
    pub fn new(pin: P) -> (res: Self)
        ensures
            res.pin() == pin,
    {
        AsyncPin { pin }
    }

    /// The pin inside.
    pub fn as_ref(&self) -> (res: &P)
        ensures
            *res == self.pin(),
    {
        &self.pin
    }

    /// The pin inside, to choose the edges that trigger.
    pub fn as_mut(&mut self) -> (res: &mut P)
        ensures
            *res == old(self).pin(),
            final(self).pin() == *final(res),
    {
        &mut self.pin
    }

    /// A future that resolves at the next edge. It holds the pin until it is
    /// dropped.
    pub fn trigger(&mut self) -> (res: AsyncTrigger<'_, P>)
        ensures
            *res.pin == old(self).pin(),
            final(self).pin() == *final(res.pin),
            !res.completion.terminated(),
    {
        AsyncTrigger { pin: &mut self.pin, completion: Completion::armed() }
    }
}

/// The future of one edge: armed until the pin's pending bit is found set.
pub struct AsyncTrigger<'a, P> {
    /// The pin that is watched.
    pub pin: &'a mut P,
    /// Whether the trigger has resolved.
    pub completion: Completion,
}

impl<'a, P> AsyncTrigger<'a, P> {
    /// The pin that is watched.
    pub fn as_ref(&self) -> (res: &P)
        ensures
            *res == *old(self.pin),
    {
        &*self.pin
    }

    /// The pin that is watched, to read and clear its pending bit.
    pub fn as_mut(&mut self) -> (res: &mut P)
        ensures
            *res == *old(self).pin,
            *final(self).pin == *final(res),
            *final(final(self).pin) == *final(old(self).pin),
            final(self).completion == old(self).completion,
    {
        &mut *self.pin
    }

    /// One poll, given the pin's pending bit: `Ready` once and for all when
    /// the bit is set, and the caller then clears it; `Pending` when it is
    /// not.
    ///
    /// Polling a trigger that has resolved is a contract violation: the
    /// caller aborts.
    pub fn poll(&mut self, pending: bool) -> (res: Poll<()>)
        requires
            !old(self).completion.terminated(),
        ensures
            res == Completion::report(pending),
            final(self).completion == old(self).completion.observed(pending),
            final(self).completion.terminated() == pending,
            *final(self).pin == *old(self).pin,
            *final(final(self).pin) == *final(old(self).pin),
    {
        self.completion.observe(pending)
    }
}

} // verus!
