//! Serial transmission and reception by DMA: the future of one transfer, a
//! sink that sends one buffer at a time, and a stream over the halves of a
//! circular receive buffer.

pub mod sink;
pub mod stream;
pub mod transfer;

pub use sink::{Flush, Phase, SinkState, TxSink, Write};
pub use stream::{Half, RxStream, StreamState};
pub use transfer::TransferFuture;

use crate::interrupt::{Interrupt, Slot};
use vstd::prelude::*;

verus! {

/// The USARTs whose DMA channels wake sinks and streams.
#[derive(Clone, Copy, Debug, PartialEq, Eq, Structural)]
pub enum Usart {
    /// USART 1.
    Usart1,
    /// USART 2.
    Usart2,
    /// USART 3.
    Usart3,
}

impl Usart {
    /// The slot in which a sink on this USART parks its continuation: that of
    /// the USART's transmit channel.
    pub open spec fn tx_slot(self) -> Slot {
        match self {
            Usart::Usart1 => Slot { interrupt: Interrupt::Dma1Channel4, index: 0 },
            Usart::Usart2 => Slot { interrupt: Interrupt::Dma1Channel7, index: 0 },
            Usart::Usart3 => Slot { interrupt: Interrupt::Dma1Channel2, index: 0 },
        }
    }

    /// The slot in which a stream on this USART parks its continuation: that
    /// of the USART's receive channel.
    pub open spec fn rx_slot(self) -> Slot {
        match self {
            Usart::Usart1 => Slot { interrupt: Interrupt::Dma1Channel5, index: 0 },
            Usart::Usart2 => Slot { interrupt: Interrupt::Dma1Channel6, index: 0 },
            Usart::Usart3 => Slot { interrupt: Interrupt::Dma1Channel3, index: 0 },
        }
    }

    /// The slot in which a sink on this USART parks its continuation.
    pub fn tx_waker_slot(self) -> (res: Slot)
        ensures
            res == self.tx_slot(),
            res.wf(),
    {
        match self {
            Usart::Usart1 => Slot { interrupt: Interrupt::Dma1Channel4, index: 0 },
            Usart::Usart2 => Slot { interrupt: Interrupt::Dma1Channel7, index: 0 },
            Usart::Usart3 => Slot { interrupt: Interrupt::Dma1Channel2, index: 0 },
        }
    }

    /// The slot in which a stream on this USART parks its continuation.
    pub fn rx_waker_slot(self) -> (res: Slot)
        ensures
            res == self.rx_slot(),
            res.wf(),
    {
        match self {
            Usart::Usart1 => Slot { interrupt: Interrupt::Dma1Channel5, index: 0 },
            Usart::Usart2 => Slot { interrupt: Interrupt::Dma1Channel6, index: 0 },
            Usart::Usart3 => Slot { interrupt: Interrupt::Dma1Channel3, index: 0 },
        }
    }
}

} // verus!
