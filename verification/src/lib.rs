//! Verified core of the LK serial subsystem: a two-stage one-shot cell and a
//! PL011 UART driver built on it.
//!
//! The driver's routines never wait on the hardware themselves. Each hands
//! out one request at a time (a register access, a queue operation, a call
//! to the interrupt controller) and decides from the reply what to ask next.
//! The kernel side performs the requests; register accesses can be performed
//! through `pl011::mmio`.
use vstd::prelude::*;

pub mod app;
pub mod init;
pub mod lkonce;
pub mod log;
pub mod pl011;

verus! {

/// Number of standard streams that the kernel's stdio keeps, in one table.
pub const STDIO_STREAMS: usize = 3;

/// Anchor that keeps the sample application in the link.
pub fn must_link() {
}

/// Place of the standard input stream in the kernel's table of streams.
pub fn lk_stdin() -> (index: usize)
    ensures
        index == 0,
{
    0
}

/// Place of the standard output stream in the kernel's table of streams.
pub fn lk_stdout() -> (index: usize)
    ensures
        index == 1,
{
    1
}

/// Place of the standard error stream in the kernel's table of streams.
pub fn lk_stderr() -> (index: usize)
    ensures
        index == 2,
        index < STDIO_STREAMS,
{
    2
}

} // verus!
