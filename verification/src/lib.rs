//! Suspend points for a single-core, interrupt-driven scheduler.
//!
//! A task that waits for a timer, a pin edge or a DMA transfer parks its
//! continuation in a waker slot of the interrupt vector that reports the
//! event, and the vector's service routine resumes it. The modules hold the
//! hardware-independent part of that bridge: the order in which a
//! continuation is installed, what the service routine does, and the state
//! machines of the suspend points. Touching the hardware is left to the
//! caller, who reports what it observed and carries out what it is told.
//!
//! - [`waker`]: the waker slots of a vector, the steps of an installation
//!   and the steps of the service routine.
//! - [`vector`]: one vector with its event source, as a state and as a
//!   value to run; no wakeup is lost and none is doubled.
//! - [`interrupt`]: the vectors and their slots.
//! - [`poll`]: the result of a poll, and the one-shot completion.
//! - [`task`]: a task that waits on a vector completes once, not before its
//!   event, and is not forgotten.
//! - [`timer`], [`exti`], [`serial`]: delays, pin edges, and sending and
//!   receiving by DMA.

pub mod exti;
pub mod interrupt;
pub mod poll;
pub mod serial;
pub mod task;
pub mod timer;
pub mod vector;
pub mod waker;
