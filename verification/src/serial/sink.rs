//! A sink that sends one buffer at a time by DMA: its states, what it tells
//! the caller to do, and why items go out one at a time and in order.

use crate::poll::Poll;
use crate::serial::transfer::TransferFuture;
use vstd::pervasive::unreached;
use vstd::prelude::*;

verus! {

/// The states of a sink. `T` stands for the transfer in flight.
pub enum SinkState<BUF, TX, T> {
    /// Idle: the sink holds its buffer and its transmitter.
    Ready {
        /// The buffer that the next item is stored in.
        buf: BUF,
        /// The transmitter that sends the buffer.
        tx: TX,
    },
    /// The buffer and the transmitter are with the caller, who starts the
    /// transfer of an item.
    Starting,
    /// A transfer is in flight.
    Sending {
        /// The transfer in flight.
        transfer: T,
    },
    /// The finished transfer is with the caller, who concludes it.
    Reclaiming,
}

/// Where a sink stands.
#[derive(Clone, Copy, Debug, PartialEq, Eq, Structural)]
pub enum Phase {
    /// Idle.
    Ready,
    /// The caller starts the transfer of an accepted item.
    Starting,
    /// A transfer is in flight.
    Sending,
    /// The caller concludes the finished transfer.
    Reclaiming,
}

/// What the caller does to send an item: store `item` in `buf`, start the
/// transfer of `buf` on `tx`, and hand the transfer to [`TxSink::sending`].
#[derive(Debug, PartialEq, Eq)]
pub struct Write<BUF, TX, I> {
    /// The sink's buffer.
    pub buf: BUF,
    /// The sink's transmitter.
    pub tx: TX,
    /// The item to send.
    pub item: I,
}

/// What a poll of a sink reports.
#[derive(Debug, PartialEq, Eq)]
pub enum Flush<XFER> {
    /// The sink is idle.
    Ready,
    /// The transfer is still in flight.
    Pending,
    /// The transfer is done: the caller concludes it and hands the buffer
    /// and the transmitter to [`TxSink::reclaimed`].
    Reclaim(XFER),
}

impl<BUF, TX, XFER> SinkState<BUF, TX, XFER> {
    /// An idle sink over `buf` and `tx`.
    pub open spec fn fresh(buf: BUF, tx: TX) -> Self {
        SinkState::Ready { buf, tx }
    }

    /// The buffer and the transmitter that an idle sink gives back.
    pub open spec fn released(self) -> (BUF, TX) {
        (self->buf, self->tx)
    }

    /// Where the sink stands.
    pub open spec fn phase(self) -> Phase {
        match self {
            SinkState::Ready { .. } => Phase::Ready,
            SinkState::Starting => Phase::Starting,
            SinkState::Sending { .. } => Phase::Sending,
            SinkState::Reclaiming => Phase::Reclaiming,
        }
    }

    /// Whether the sink accepts an item: only when idle.
    pub open spec fn accepts_send(self) -> bool {
        self is Ready
    }

    /// Whether the sink can be polled: not while the caller is in the middle
    /// of starting or concluding a transfer.
    pub open spec fn accepts_poll(self) -> bool {
        self is Ready || self is Sending
    }

    /// The sink after it has accepted `item`, and what the caller is to
    /// write.
    pub open spec fn send<I>(self, item: I) -> (Self, Write<BUF, TX, I>) {
        (SinkState::Starting, Write { buf: self->buf, tx: self->tx, item })
    }

    /// The sink after the caller has started `transfer`.
    pub open spec fn started(self, transfer: XFER) -> Self {
        SinkState::Sending { transfer }
    }

    /// The sink after the caller has concluded the transfer and got `buf`
    /// and `tx` back.
    pub open spec fn reclaim(self, buf: BUF, tx: TX) -> Self {
        SinkState::Ready { buf, tx }
    }

    /// The sink after a poll that finds the transfer done or not, and what
    /// the poll reports. An idle sink is ready; a sending sink hands its
    /// transfer out once it is done. (A sink that admits no poll is left as
    /// it is.)
    pub open spec fn flush(self, done: bool) -> (Self, Flush<XFER>) {
        match self {
            SinkState::Ready { .. } => (self, Flush::Ready),
            SinkState::Sending { transfer } => if done {
                (SinkState::Reclaiming, Flush::Reclaim(transfer))
            } else {
                (self, Flush::Pending)
            },
            _ => (self, Flush::Pending),
        }
    }

    /// The sink after `waits` polls that find the transfer in flight.
    pub open spec fn wait(self, waits: nat) -> Self
        decreases waits,
    {
        if waits == 0 {
            self
        } else {
            self.wait((waits - 1) as nat).flush(false).0
        }
    }

    /// Whether each of `waits` polls that find the transfer in flight is
    /// admitted and reports `Pending`.
    pub open spec fn waits_pending(self, waits: nat) -> bool
        decreases waits,
    {
        waits > 0 ==> {
            let before = self.wait((waits - 1) as nat);
            &&& self.waits_pending((waits - 1) as nat)
            &&& before.accepts_poll()
            &&& before.flush(false).1 is Pending
        }
    }
}

/// A sink that sends one buffer at a time by DMA.
pub struct TxSink<BUF, TX, XFER> {
    state: SinkState<BUF, TX, TransferFuture<XFER>>,
}

impl<BUF, TX, XFER> View for TxSink<BUF, TX, XFER> {
    type V = SinkState<BUF, TX, XFER>;

    closed spec fn view(&self) -> SinkState<BUF, TX, XFER> {
        match self.state {
            SinkState::Ready { buf, tx } => SinkState::Ready { buf, tx },
            SinkState::Starting => SinkState::Starting,
            SinkState::Sending { transfer } => SinkState::Sending { transfer: transfer@->0 },
            SinkState::Reclaiming => SinkState::Reclaiming,
        }
    }
}

impl<BUF, TX, XFER> TxSink<BUF, TX, XFER> {
    /// While the sink sends, the future of its transfer has not resolved.
    #[verifier::type_invariant]
    spec fn in_flight(self) -> bool {
        self.state matches SinkState::Sending { transfer } ==> transfer@ is Some
    }

    /// An idle sink over `buf` and `tx`, whose channel listens to the
    /// completion of transfers.
    pub fn new(buf: BUF, tx: TX) -> (res: Self)
        ensures
            res@ == SinkState::<BUF, TX, XFER>::fresh(buf, tx),
    {
        TxSink { state: SinkState::Ready { buf, tx } }
    }

    /// Where the sink stands.
    pub fn phase(&self) -> (res: Phase)
        ensures
            res == self@.phase(),
    {
        match &self.state {
            SinkState::Ready { .. } => Phase::Ready,
            SinkState::Starting => Phase::Starting,
            SinkState::Sending { .. } => Phase::Sending,
            SinkState::Reclaiming => Phase::Reclaiming,
        }
    }

    /// Whether the sink is idle.
    pub fn is_ready(&self) -> (res: bool)
        ensures
            res == self@.accepts_send(),
    {
        match &self.state {
            SinkState::Ready { .. } => true,
            _ => false,
        }
    }

    /// Whether the sink can be polled.
    pub fn is_settled(&self) -> (res: bool)
        ensures
            res == self@.accepts_poll(),
    {
        match &self.state {
            SinkState::Ready { .. } => true,
            SinkState::Sending { .. } => true,
            _ => false,
        }
    }

    /// The transfer in flight, to ask it whether it is done.
    pub fn transfer(&self) -> (res: Option<&XFER>)
        ensures
            res is Some <==> self@ is Sending,
            res is Some ==> *res->0 == self@->transfer,
    {
        proof {
            use_type_invariant(self);
        }
        match &self.state {
            SinkState::Sending { transfer } => transfer.as_ref(),
            _ => None,
        }
    }

    /// Accepts `item`: hands out the buffer and the transmitter for the
    /// caller to start the transfer.
    ///
    /// Sending while the sink is not idle is a contract violation: the
    /// caller aborts.
    pub fn start_send<I>(&mut self, item: I) -> (res: Write<BUF, TX, I>)
        requires
            old(self)@.accepts_send(),
        ensures
            (final(self)@, res) == old(self)@.send(item),
    {
        let mut state = SinkState::Starting;
        core::mem::swap(&mut self.state, &mut state);
        match state {
            SinkState::Ready { buf, tx } => Write { buf, tx, item },
            _ => unreached(),
        }
    }

    /// Takes the transfer that the caller has started for the accepted item.
    pub fn sending(&mut self, transfer: XFER)
        requires
            old(self)@ is Starting,
        ensures
            final(self)@ == old(self)@.started(transfer),
    {
        self.state = SinkState::Sending { transfer: TransferFuture::from_listening(transfer) };
    }

    /// One poll, given whether the hardware reports the transfer in flight
    /// done: `Ready` when the sink is idle, `Pending` while the transfer is
    /// in flight, and `Reclaim` with the transfer when it is done.
    ///
    /// Polling between the two halves of a transition is a contract
    /// violation: the caller aborts.
    pub fn poll_flush(&mut self, done: bool) -> (res: Flush<XFER>)
        requires
            old(self)@.accepts_poll(),
        ensures
            (final(self)@, res) == old(self)@.flush(done),
    {
        proof {
            use_type_invariant(&*self);
        }
        let mut state = SinkState::Reclaiming;
        core::mem::swap(&mut self.state, &mut state);
        match state {
            SinkState::Ready { buf, tx } => {
                self.state = SinkState::Ready { buf, tx };
                Flush::Ready
            },
            SinkState::Sending { mut transfer } => match transfer.poll(done) {
                Poll::Pending => {
                    self.state = SinkState::Sending { transfer };
                    Flush::Pending
                },
                Poll::Ready(finished) => Flush::Reclaim(finished),
            },
            _ => unreached(),
        }
    }

    /// Whether the sink can take an item: as [`TxSink::poll_flush`].
    pub fn poll_ready(&mut self, done: bool) -> (res: Flush<XFER>)
        requires
            old(self)@.accepts_poll(),
        ensures
            (final(self)@, res) == old(self)@.flush(done),
    {
        self.poll_flush(done)
    }

    /// Closing a sink is flushing it: as [`TxSink::poll_flush`].
    pub fn poll_close(&mut self, done: bool) -> (res: Flush<XFER>)
        requires
            old(self)@.accepts_poll(),
        ensures
            (final(self)@, res) == old(self)@.flush(done),
    {
        self.poll_flush(done)
    }

    /// Takes back the buffer and the transmitter of the concluded transfer:
    /// the sink is idle again and the poll that handed the transfer out is
    /// `Ready`.
    pub fn reclaimed(&mut self, buf: BUF, tx: TX) -> (res: Poll<()>)
        requires
            old(self)@ is Reclaiming,
        ensures
            final(self)@ == old(self)@.reclaim(buf, tx),
            res == Poll::Ready(()),
    {
        self.state = SinkState::Ready { buf, tx };
        Poll::Ready(())
    }

    /// Gives the buffer and the transmitter back. The sink is idle: the
    /// caller has closed it.
    pub fn release(self) -> (res: (BUF, TX))
        requires
            self@.accepts_send(),
        ensures
            res == self@.released(),
    {
        match self.state {
            SinkState::Ready { buf, tx } => (buf, tx),
            _ => unreached(),
        }
    }
}

/// One item's way through a sink, as the caller and the hardware shape it.
pub struct Round<BUF, TX, XFER, I> {
    /// The item that is sent.
    pub item: I,
    /// The transfer that the caller starts for it.
    pub transfer: XFER,
    /// The number of polls that find the transfer in flight.
    pub waits: nat,
    /// The buffer that concluding the transfer gives back.
    pub buf: BUF,
    /// The transmitter that concluding the transfer gives back.
    pub tx: TX,
}

/// What has come of a sink over a number of rounds.
pub struct Session<BUF, TX, XFER, I> {
    /// The sink.
    pub sink: SinkState<BUF, TX, XFER>,
    /// Whether every call so far was admitted and went as the round says.
    pub legal: bool,
    /// What the sink told the caller to write, in order: what goes out on
    /// the wire.
    pub written: Seq<Write<BUF, TX, I>>,
    /// The transfers that the sink handed out as done, in order.
    pub reclaimed: Seq<XFER>,
}

impl<BUF, TX, XFER, I> Session<BUF, TX, XFER, I> {
    /// A new sink over `buf` and `tx`, and nothing sent yet.
    pub open spec fn begin(buf: BUF, tx: TX) -> Self {
        Session {
            sink: SinkState::fresh(buf, tx),
            legal: true,
            written: Seq::empty(),
            reclaimed: Seq::empty(),
        }
    }

    /// One round: the sink accepts the item, the caller starts the transfer,
    /// polls find it in flight and then done, and the caller concludes it.
    pub open spec fn round(self, round: Round<BUF, TX, XFER, I>) -> Self {
        let (starting, write) = self.sink.send(round.item);
        let sending = starting.started(round.transfer);
        let waited = sending.wait(round.waits);
        let (reclaiming, report) = waited.flush(true);
        Session {
            sink: reclaiming.reclaim(round.buf, round.tx),
            legal: {
                &&& self.legal
                &&& self.sink.accepts_send()
                &&& starting is Starting
                &&& sending.waits_pending(round.waits)
                &&& waited.accepts_poll()
                &&& reclaiming is Reclaiming
            },
            written: self.written.push(write),
            reclaimed: match report {
                Flush::Reclaim(transfer) => self.reclaimed.push(transfer),
                _ => self.reclaimed,
            },
        }
    }

    /// The rounds `rounds`, one after the other.
    pub open spec fn rounds(self, rounds: Seq<Round<BUF, TX, XFER, I>>) -> Self
        decreases rounds.len(),
    {
        if rounds.len() == 0 {
            self
        } else {
            self.rounds(rounds.drop_last()).round(rounds.last())
        }
    }
}

/// Polls that find the transfer in flight are admitted, report `Pending`
/// and leave the sink sending.
pub proof fn lemma_waits_keep_sending<BUF, TX, XFER>(sink: SinkState<BUF, TX, XFER>, waits: nat)
    requires
        sink is Sending,
    ensures
        sink.wait(waits) == sink,
        sink.waits_pending(waits),
    decreases waits,
{
    if waits > 0 {
        lemma_waits_keep_sending(sink, (waits - 1) as nat);
    }
}

/// A sink that sends accepts no second item: not between the two halves of
/// starting the transfer, and not while the transfer is in flight, however
/// often it is polled.
pub proof fn lemma_send_while_sending_rejected<BUF, TX, XFER, I>(
    sink: SinkState<BUF, TX, XFER>,
    item: I,
    transfer: XFER,
    waits: nat,
)
    requires
        sink.accepts_send(),
    ensures
        !sink.send(item).0.accepts_send(),
        !sink.send(item).0.started(transfer).wait(waits).accepts_send(),
{
    lemma_waits_keep_sending(sink.send(item).0.started(transfer), waits);
}

/// Items are sent one at a time and in the order of their submission.
///
/// Whatever the items, the transfers that the caller starts for them, the
/// number of polls that each transfer takes and the handles that concluding
/// it gives back: every call is admitted, the sink tells the caller to write
/// exactly the submitted items in their order, each with the buffer and the
/// transmitter that the round before gave back, it hands out exactly their
/// transfers as done, and it ends idle.
pub proof fn lemma_sends_in_order<BUF, TX, XFER, I>(
    buf: BUF,
    tx: TX,
    rounds: Seq<Round<BUF, TX, XFER, I>>,
)
    ensures
        ({
            let end = Session::begin(buf, tx).rounds(rounds);
            &&& end.legal
            &&& end.sink == if rounds.len() == 0 {
                SinkState::<BUF, TX, XFER>::fresh(buf, tx)
            } else {
                SinkState::fresh(rounds.last().buf, rounds.last().tx)
            }
            &&& end.written.len() == rounds.len()
            &&& end.reclaimed.len() == rounds.len()
            &&& forall|i: int|
                0 <= i < rounds.len() ==> {
                    &&& (#[trigger] end.written[i]).item == rounds[i].item
                    &&& end.written[i].buf == if i == 0 {
                        buf
                    } else {
                        rounds[i - 1].buf
                    }
                    &&& end.written[i].tx == if i == 0 {
                        tx
                    } else {
                        rounds[i - 1].tx
                    }
                }
            &&& forall|i: int|
                0 <= i < rounds.len() ==> #[trigger] end.reclaimed[i] == rounds[i].transfer
        }),
    decreases rounds.len(),
{
    if rounds.len() > 0 {
        let before = rounds.drop_last();
        lemma_sends_in_order(buf, tx, before);
        let mid = Session::<BUF, TX, XFER, I>::begin(buf, tx).rounds(before);
        let sending = mid.sink.send(rounds.last().item).0.started(rounds.last().transfer);
        lemma_waits_keep_sending(sending, rounds.last().waits);
    }
}

/// A sink made of what an idle sink gave back is that sink again: idle, and
/// nothing of an earlier transfer is left in it.
pub proof fn lemma_sink_release_round_trip<BUF, TX, XFER>(sink: SinkState<BUF, TX, XFER>)
    requires
        sink.accepts_send(),
    ensures
        ({
            let (buf, tx) = sink.released();
            let again = SinkState::<BUF, TX, XFER>::fresh(buf, tx);
            &&& again == sink
            &&& again.accepts_send()
            &&& again.accepts_poll()
            &&& forall|done: bool| #[trigger] again.flush(done) == (again, Flush::<XFER>::Ready)
        }),
{
}

} // verus!
