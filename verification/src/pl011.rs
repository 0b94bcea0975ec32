//! PL011 UART driver logic.
use vstd::prelude::*;

pub mod io;
pub mod irq;
pub mod mmio;
pub mod port;
pub mod regs;
pub mod rx;
pub mod setup;
pub mod table;
pub mod tx;
pub mod world;

verus! {

/// Anchor that keeps the driver in the link; there is nothing to set up.
pub fn init() {
}

} // verus!
