//! The future of one DMA transfer.

use crate::poll::Poll;
use vstd::pervasive::unreached;
use vstd::prelude::*;

verus! {

/// The future of one DMA transfer: it holds the transfer until the hardware
/// reports it done, and then hands it out to be concluded.
pub struct TransferFuture<T> {
    transfer: Option<T>,
}

impl<T> View for TransferFuture<T> {
    type V = Option<T>;

    /// The transfer in flight, or `None` once the future has resolved.
    closed spec fn view(&self) -> Option<T> {
        self.transfer
    }
}

impl<T> TransferFuture<T> {
    /// What is left in the future after a poll that finds the transfer done
    /// or not, and what the poll reports.
    pub open spec fn polled(transfer: T, done: bool) -> (Option<T>, Poll<T>) {
        if done {
            (None, Poll::Ready(transfer))
        } else {
            (Some(transfer), Poll::Pending)
        }
    }

    /// The future of `transfer`, whose channel listens to the completion of
    /// the transfer.
    pub fn from_listening(transfer: T) -> (res: Self)
        ensures
            res@ == Some(transfer),
    {
        TransferFuture { transfer: Some(transfer) }
    }

    /// Whether the future has resolved. Polling it again is a contract
    /// violation.
    pub fn is_terminated(&self) -> (res: bool)
        ensures
            res == (self@ is None),
    {
        self.transfer.is_none()
    }

    /// The transfer in flight, to ask it whether it is done.
    pub fn as_ref(&self) -> (res: Option<&T>)
        ensures
            res is Some <==> self@ is Some,
            res is Some ==> *res->0 == self@->0,
    {
        self.transfer.as_ref()
    }

    /// One poll, given whether the hardware reports the transfer done:
    /// `Ready` with the transfer, once and for all, when it is done;
    /// `Pending` while it is in flight.
    ///
    /// Polling a future that has resolved is a contract violation: the
    /// caller aborts.
    pub fn poll(&mut self, done: bool) -> (res: Poll<T>)
        requires
            old(self)@ is Some,
        ensures
            (final(self)@, res) == Self::polled(old(self)@->0, done),
    {
        if done {
            match self.transfer.take() {
                Some(transfer) => Poll::Ready(transfer),
                None => unreached(),
            }
        } else {
            Poll::Pending
        }
    }
}

/// A transfer future reports `Ready` once and for all.
///
/// After a poll the future has resolved exactly if that poll handed the
/// transfer out: from then on no poll is admitted, and the transfer cannot
/// be handed out a second time.
pub proof fn lemma_transfer_resolves_once<T>(transfer: T, done: bool)
    ensures
        ({
            let (left, report) = TransferFuture::polled(transfer, done);
            &&& report is Ready <==> left is None
            &&& report is Ready ==> report == Poll::Ready(transfer)
            &&& report is Pending ==> left == Some(transfer)
        }),
{
}

} // verus!
