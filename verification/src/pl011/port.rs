//! One UART instance: where its registers live, which interrupt it raises,
//! and how it is flagged.
use vstd::prelude::*;

verus! {

/// Flag bit 0: the port backs the system console, so what it receives goes to
/// the console input buffer.
pub const PL011_FLAG_DEBUG_UART: u32 = 0x1;

/// Whether the platform has a console input buffer for the debug port to feed.
pub const CONSOLE_HAS_INPUT_BUFFER: bool = true;

/// Buffer size, in bytes, that a port's receive queue is initialised with.
pub const RXBUF_SIZE: usize = 32;

/// Number of physical ports.
pub const PL011_PORTS: usize = 1;

/// Static description of one port, as the platform hands it over.
#[derive(Clone, Copy, Debug, PartialEq, Eq, Structural)]
pub struct Pl011Config {
    /// Address of the register block; zero while the port is not configured.
    pub base: usize,
    /// Interrupt line of the device.
    pub irq: u32,
    /// Device flag bits.
    pub flag: u32,
}

/// Whether `flag` marks a port whose input feeds the console buffer.
pub open spec fn feeds_console(flag: u32) -> bool {
    CONSOLE_HAS_INPUT_BUFFER && flag & PL011_FLAG_DEBUG_UART != 0
}

/// State of one port.
#[derive(Clone, Copy, Debug, PartialEq, Eq, Structural)]
pub struct Pl011Uart {
    pub config: Pl011Config,
}

impl Pl011Uart {
    /// A port that has not been configured: every field zero.
    pub fn unconfigured() -> (uart: Self)
        ensures
            uart.config == (Pl011Config { base: 0, irq: 0, flag: 0 }),
    {
        Pl011Uart { config: Pl011Config { base: 0, irq: 0, flag: 0 } }
    }

    /// A port described by `config`.
    pub fn new(config: Pl011Config) -> (uart: Self)
        ensures
            uart.config == config,
    {
        Pl011Uart { config }
    }

    /// Whether the port has been given a register block.
    pub fn has_dev(&self) -> (present: bool)
        ensures
            present == (self.config.base != 0),
    {
        self.config.base != 0
    }

    /// Address of the port's register block.
    pub fn get_dev(&self) -> (base: usize)
        requires
            self.config.base != 0,
        ensures
            base == self.config.base,
            base != 0,
    {
        self.config.base
    }

    /// Whether what the port receives goes to the console input buffer
    /// instead of the port's own queue.
    pub fn is_debug(&self) -> (debug: bool)
        ensures
            debug == feeds_console(self.config.flag),
    {
        CONSOLE_HAS_INPUT_BUFFER && self.config.flag & PL011_FLAG_DEBUG_UART != 0
    }
}

} // verus!
