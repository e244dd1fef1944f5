//! A stream over the halves of a circular receive buffer, and why no half is
//! delivered twice in a row.

use crate::poll::Poll;
use vstd::prelude::*;

verus! {

/// One of the two halves of a circular receive buffer.
#[derive(Clone, Copy, Debug, PartialEq, Eq, Structural)]
pub enum Half {
    /// The first half.
    First,
    /// The second half.
    Second,
}

impl Half {
    /// Whether this half is still to be delivered when `last` was delivered
    /// last: it is the other one.
    pub fn is_fresh_after(self, last: Half) -> (res: bool)
        ensures
            res == (self != last),
    {
        self != last
    }
}

/// What a stream holds: the circular buffer that the hardware fills, and
/// the half that was delivered last.
pub struct StreamState<CIRC> {
    /// The circular buffer.
    pub circ: CIRC,
    /// The half that was delivered last.
    pub last_read_half: Half,
}

impl<CIRC> StreamState<CIRC> {
    /// A stream over a circular buffer that has just been started: the
    /// hardware fills the first half, so the second counts as delivered.
    pub open spec fn fresh(circ: CIRC) -> Self {
        StreamState { circ, last_read_half: Half::Second }
    }

    /// The stream after a poll, and what the poll reports. `peeked` is what
    /// the hardware shows: the half that is not being written with its
    /// contents, nothing, or a transfer error. A half is delivered only if
    /// it is not the one delivered last; an error is delivered as an item
    /// and leaves the stream as it was.
    pub open spec fn next<BUF, E>(self, peeked: Result<Option<(BUF, Half)>, E>) -> (
        Self,
        Poll<Option<Result<BUF, E>>>,
    ) {
        match peeked {
            Ok(Some((buf, half))) => if half != self.last_read_half {
                (StreamState { last_read_half: half, ..self }, Poll::Ready(Some(Ok(buf))))
            } else {
                (self, Poll::Pending)
            },
            Ok(None) => (self, Poll::Pending),
            Err(error) => (self, Poll::Ready(Some(Err(error)))),
        }
    }
}

/// An endless stream of the halves of a circular receive buffer, each
/// delivered once when the hardware has filled it.
pub struct RxStream<CIRC> {
    circ_buffer: CIRC,
    last_read_half: Half,
}

impl<CIRC> View for RxStream<CIRC> {
    type V = StreamState<CIRC>;

    closed spec fn view(&self) -> StreamState<CIRC> {
        StreamState { circ: self.circ_buffer, last_read_half: self.last_read_half }
    }
}

impl<CIRC> RxStream<CIRC> {
    /// A stream over the circular buffer `circ`, which has just been started
    /// and whose channel listens to the completion of each half.
    pub fn new(circ: CIRC) -> (res: Self)
        ensures
            res@ == StreamState::fresh(circ),
    {
        RxStream { circ_buffer: circ, last_read_half: Half::Second }
    }

    /// The circular buffer.
    pub fn as_ref(&self) -> (res: &CIRC)
        ensures
            *res == self@.circ,
    {
        &self.circ_buffer
    }

    /// The circular buffer, to peek into it.
    pub fn as_mut(&mut self) -> (res: &mut CIRC)
        ensures
            *res == old(self)@.circ,
            final(self)@ == (StreamState { circ: *final(res), ..old(self)@ }),
    {
        &mut self.circ_buffer
    }

    /// The half that was delivered last.
    pub fn last_read_half(&self) -> (res: Half)
        ensures
            res == self@.last_read_half,
    {
        self.last_read_half
    }

    /// Whether `half` is still to be delivered: it is not the half that was
    /// delivered last.
    pub fn is_fresh(&self, half: Half) -> (res: bool)
        ensures
            res == (half != self@.last_read_half),
    {
        half.is_fresh_after(self.last_read_half)
    }

    /// One poll, given what the hardware shows: `Ready` with the contents of
    /// a half that was not delivered last, `Ready` with the error if the
    /// hardware reports one, `Pending` else. The stream never ends.
    pub fn poll_next<BUF, E>(&mut self, peeked: Result<Option<(BUF, Half)>, E>) -> (res: Poll<
        Option<Result<BUF, E>>,
    >)
        ensures
            (final(self)@, res) == old(self)@.next(peeked),
    {
        match peeked {
            Ok(Some((buf, half))) => {
                if half.is_fresh_after(self.last_read_half) {
                    self.last_read_half = half;
                    Poll::Ready(Some(Ok(buf)))
                } else {
                    Poll::Pending
                }
            },
            Ok(None) => Poll::Pending,
            Err(error) => Poll::Ready(Some(Err(error))),
        }
    }

    /// The bounds on what is left of the stream: it has no end.
    pub fn size_hint(&self) -> (res: (usize, Option<usize>))
        ensures
            res == (usize::MAX, None::<usize>),
    {
        (usize::MAX, None)
    }

    /// Whether the stream has ended: never.
    pub fn is_terminated(&self) -> (res: bool)
        ensures
            !res,
    {
        false
    }

    /// Gives the circular buffer back, to be stopped.
    pub fn release(self) -> (res: CIRC)
        ensures
            res == self@.released(),
    {
        self.circ_buffer
    }
}

impl<CIRC> StreamState<CIRC> {
    /// The circular buffer that a stream gives back.
    pub open spec fn released(self) -> CIRC {
        self.circ
    }

    /// The stream after the polls that are shown `peeks`, in their order.
    pub open spec fn polled<BUF, E>(self, peeks: Seq<Result<Option<(BUF, Half)>, E>>) -> Self
        decreases peeks.len(),
    {
        if peeks.len() == 0 {
            self
        } else {
            self.polled(peeks.drop_last()).next(peeks.last()).0
        }
    }

    /// The halves that these polls deliver, in their order.
    pub open spec fn delivered<BUF, E>(self, peeks: Seq<Result<Option<(BUF, Half)>, E>>) -> Seq<
        Half,
    >
        decreases peeks.len(),
    {
        if peeks.len() == 0 {
            Seq::empty()
        } else {
            let before = self.polled(peeks.drop_last());
            match before.next(peeks.last()) {
                (after, Poll::Ready(Some(Ok(_)))) => self.delivered(peeks.drop_last()).push(
                    after.last_read_half,
                ),
                _ => self.delivered(peeks.drop_last()),
            }
        }
    }
}

/// The half delivered before the one at `at` in `halves`; before the first
/// that is `start`, the half that counted as delivered at the start.
pub open spec fn half_before(start: Half, halves: Seq<Half>, at: int) -> Half {
    if at == 0 {
        start
    } else {
        halves[at - 1]
    }
}

/// No half is delivered twice in a row.
///
/// Whatever the hardware shows from poll to poll, each delivered half
/// differs from the one delivered before it, the first from the half that
/// counted as delivered at the start, and the stream remembers the last.
pub proof fn lemma_halves_alternate<CIRC, BUF, E>(
    stream: StreamState<CIRC>,
    peeks: Seq<Result<Option<(BUF, Half)>, E>>,
)
    ensures
        ({
            let halves = stream.delivered(peeks);
            let end = stream.polled(peeks);
            &&& end.circ == stream.circ
            &&& end.last_read_half == half_before(
                stream.last_read_half,
                halves,
                halves.len() as int,
            )
            &&& forall|i: int|
                0 <= i < halves.len() ==> halves[i] != #[trigger] half_before(
                    stream.last_read_half,
                    halves,
                    i,
                )
        }),
    decreases peeks.len(),
{
    if peeks.len() > 0 {
        let front = peeks.drop_last();
        lemma_halves_alternate(stream, front);
        let start = stream.last_read_half;
        let earlier = stream.delivered(front);
        let halves = stream.delivered(peeks);
        assert forall|i: int| 0 <= i < halves.len() implies halves[i] != #[trigger] half_before(
            start,
            halves,
            i,
        ) by {
            if i < earlier.len() {
                assert(halves[i] == earlier[i]);
                assert(half_before(start, halves, i) == half_before(start, earlier, i));
            }
        }
    }
}

/// A stream made of what a stream gave back starts over: it holds the same
/// circular buffer and waits for the first half, wherever the old stream
/// stood.
pub proof fn lemma_stream_release_round_trip<CIRC>(stream: StreamState<CIRC>)
    ensures
        ({
            let again = StreamState::fresh(stream.released());
            &&& again.circ == stream.circ
            &&& again.last_read_half == Half::Second
        }),
{
}

} // verus!
