//! What the driver asks of its surroundings, and what comes back.
//!
//! The driver never touches a register, a queue or the interrupt controller
//! itself. Each routine hands out one `Request` at a time; the caller performs
//! it exactly once and hands the `Reply` to the routine's step function.
use vstd::prelude::*;
use crate::pl011::regs::{Access, Register};

verus! {

/// One operation for the caller to perform.
#[derive(Clone, Copy, Debug, PartialEq, Eq)]
pub enum Request {
    /// Read the register once.
    Read(Register),
    /// Write the value to the register once.
    Write(Register, u32),
    /// Set up the port's receive queue over a buffer of this many bytes.
    RxInit(usize),
    /// Ask the port's receive queue how many more bytes it takes.
    RxSpaceAvail,
    /// Offer one byte to the port's receive queue, without rescheduling.
    RxWriteChar(u8),
    /// Offer one byte to the console input buffer, without rescheduling.
    ConsoleWriteChar(u8),
    /// Take one byte from the port's receive queue, waiting for one if the
    /// flag is set.
    RxReadChar(bool),
    /// Route the interrupt line to the port's interrupt routine.
    RegisterHandler(u32),
    /// Let the interrupt line through at the interrupt controller.
    UnmaskInterrupt(u32),
}

/// What performing a request gave.
#[derive(Clone, Copy, Debug, PartialEq, Eq)]
pub enum Reply {
    /// The operation was performed; it has no result.
    Done,
    /// The value read from a register.
    Value(u32),
    /// A number of bytes.
    Count(usize),
    /// The byte taken from a queue, if there was one.
    Char(Option<u8>),
}

/// Outcome of one step of a routine that returns an `R` and keeps its place
/// in an `S`.
#[derive(Debug, PartialEq, Eq)]
pub enum Step<S, R> {
    /// Perform the request, then call the routine's step function again, in
    /// the given state, with the reply.
    Ask(S, Request),
    /// The routine is over and returns the value.
    Return(R),
}

impl Reply {
    /// The register value that the reply carries.
    pub fn value(self) -> (value: u32)
        requires
            self is Value,
        ensures
            value == self->Value_0,
    {
        match self {
            Reply::Value(value) => value,
            _ => 0,
        }
    }

    /// The byte count that the reply carries.
    pub fn count(self) -> (count: usize)
        requires
            self is Count,
        ensures
            count == self->Count_0,
    {
        match self {
            Reply::Count(count) => count,
            _ => 0,
        }
    }

    /// The byte, if any, that the reply carries.
    pub fn char(self) -> (byte: Option<u8>)
        requires
            self is Char,
        ensures
            byte == self->Char_0,
    {
        match self {
            Reply::Char(byte) => byte,
            _ => None,
        }
    }
}

impl Request {
    /// Whether `reply` is of the kind that this request is answered with.
    pub open spec fn answered_by(self, reply: Reply) -> bool {
        match self {
            Request::Read(_) => reply is Value,
            Request::Write(_, _) => reply is Done,
            Request::RxInit(_) => reply is Done,
            Request::RxSpaceAvail => reply is Count,
            Request::RxWriteChar(_) => reply is Count,
            Request::ConsoleWriteChar(_) => reply is Count,
            Request::RxReadChar(_) => reply is Char,
            Request::RegisterHandler(_) => reply is Done,
            Request::UnmaskInterrupt(_) => reply is Done,
        }
    }

    /// Whether the request is a register access that the device allows: a
    /// write, or a read of a register that is not write-only.
    pub open spec fn on_registers(self) -> bool {
        match self {
            Request::Read(reg) => reg.spec_access() == Access::ReadWrite,
            Request::Write(_, _) => true,
            _ => false,
        }
    }

    /// Whether `reply` is of the kind that this request is answered with.
    pub fn accepts(&self, reply: &Reply) -> (ok: bool)
        ensures
            ok == self.answered_by(*reply),
    {
        match self {
            Request::Read(_) => matches!(reply, Reply::Value(_)),
            Request::RxSpaceAvail | Request::RxWriteChar(_) | Request::ConsoleWriteChar(_) => {
                matches!(reply, Reply::Count(_))
            },
            Request::RxReadChar(_) => matches!(reply, Reply::Char(_)),
            _ => matches!(reply, Reply::Done),
        }
    }
}

} // verus!
