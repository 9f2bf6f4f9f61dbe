//! Streaming buffered text to a serial port with the DMA engine of the
//! Allwinner D1, one transfer per timer tick.
//!
//! The crate holds the decisions of that firmware and none of its register
//! accesses: every function here works on plain values and tells its caller
//! which accesses to carry out on the hardware, and in which order.

pub mod dmac;
pub mod interrupt;
pub mod pacing;
pub mod timer;
