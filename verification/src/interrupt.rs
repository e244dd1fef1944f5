//! The interrupt vectors that wake suspend points, and the waker slots that
//! each of them owns.

use vstd::prelude::*;

verus! {

/// An interrupt vector that resumes continuations.
#[allow(non_camel_case_types)]
#[derive(Clone, Copy, Debug, PartialEq, Eq, Structural)]
pub enum Interrupt {
    /// Update event of timer 2.
    Tim2,
    /// Update event of timer 3.
    Tim3,
    /// DMA 1, channel 2: transmitter of USART 3.
    Dma1Channel2,
    /// DMA 1, channel 3: receiver of USART 3.
    Dma1Channel3,
    /// DMA 1, channel 4: transmitter of USART 1.
    Dma1Channel4,
    /// DMA 1, channel 5: receiver of USART 1.
    Dma1Channel5,
    /// DMA 1, channel 6: receiver of USART 2.
    Dma1Channel6,
    /// DMA 1, channel 7: transmitter of USART 2.
    Dma1Channel7,
    /// External interrupt lines 5 to 9, which share one vector.
    Exti9_5,
    /// External interrupt lines 10 to 15, which share one vector.
    Exti15_10,
}

impl Interrupt {
    /// The number of waker slots of the vector: one for each source that it
    /// serves.
    pub open spec fn slot_count(self) -> nat {
        match self {
            Interrupt::Exti9_5 => 5,
            Interrupt::Exti15_10 => 6,
            _ => 1,
        }
    }

    /// The number of waker slots of the vector.
    pub fn slots(self) -> (res: usize)
        ensures
            res == self.slot_count(),
    {
        match self {
            Interrupt::Exti9_5 => 5,
            Interrupt::Exti15_10 => 6,
            _ => 1,
        }
    }
}

/// Where a suspend point parks its continuation: a slot of a vector.
#[derive(Clone, Copy, Debug, PartialEq, Eq, Structural)]
pub struct Slot {
    /// The vector that reports the event.
    pub interrupt: Interrupt,
    /// The index of the slot among the vector's slots.
    pub index: usize,
}

impl Slot {
    /// Whether the vector has a slot of this index.
    pub open spec fn wf(self) -> bool {
        self.index < self.interrupt.slot_count()
    }
}

} // verus!
