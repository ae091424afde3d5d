//! Register-level hardware abstraction for a SAM4L-class microcontroller:
//! typed register blocks, GPIO pins with peripheral multiplexing, a USART
//! with a shared, reference-counted bus clock, and DMA channels.
//!
//! Each register block is modelled as a value whose fields are the words of
//! the block; every accessor touches exactly one word, and the set / clear /
//! toggle aliases of a register carry the effect the hardware gives them.

pub mod clock;
pub mod gpio;
pub mod pdca;
pub mod register;
pub mod tmp006;
pub mod usart;
