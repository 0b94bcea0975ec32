//! Register access through memory-mapped I/O.
//!
//! The register block is addressed as an array of 32-bit words, and each
//! register by the word that its offset selects. What a register gives when
//! it is read is up to the device, so nothing is stated of it.
use vstd::prelude::*;
use safe_mmio::fields::ReadWrite;
use safe_mmio::UniqueMmioPointer;
use crate::pl011::io::{Reply, Request};
use crate::pl011::regs::{Access, Register, UART_REGS_WORDS};

verus! {

/// `safe_mmio::UniqueMmioPointer`: the one pointer to some registers of a
/// device. Nothing is known of what it points to.
#[verifier::external_type_specification]
#[verifier::external_body]
#[verifier::reject_recursive_types(T)]
pub struct ExUniqueMmioPointer<'a, T: ?Sized>(UniqueMmioPointer<'a, T>);

/// `safe_mmio::fields::ReadWrite`: marks a field of a register block as safe
/// to read and to write.
#[verifier::external_type_specification]
#[verifier::external_body]
#[verifier::reject_recursive_types(T)]
pub struct ExReadWrite<T>(ReadWrite<T>);

/// `UniqueMmioPointer::get` on a pointer to an array: a pointer to the word
/// at `index`, which there is exactly when `index` lies within the array.
#[verifier::external_body]
fn word_at<'b>(
    block: &'b mut UniqueMmioPointer<'_, [ReadWrite<u32>; UART_REGS_WORDS]>,
    index: usize,
) -> (word: Option<UniqueMmioPointer<'b, ReadWrite<u32>>>)
    ensures
        word is Some <==> index < UART_REGS_WORDS,
{
    block.get(index)
}

/// `UniqueMmioPointer::read` on a readable and writable field: one read of
/// the word. Nothing is claimed of the value.
#[verifier::external_body]
fn read_word(word: &mut UniqueMmioPointer<'_, ReadWrite<u32>>) -> (value: u32) {
    word.read()
}

/// `UniqueMmioPointer::write` on a readable and writable field: one write of
/// the word. Nothing is claimed of what the device makes of it.
#[verifier::external_body]
fn write_word(word: &mut UniqueMmioPointer<'_, ReadWrite<u32>>, value: u32) {
    word.write(value)
}

/// The register block of one device.
pub struct UartRegs<'a> {
    block: UniqueMmioPointer<'a, [ReadWrite<u32>; UART_REGS_WORDS]>,
}

impl<'a> UartRegs<'a> {
    /// The pointer through which the registers are accessed.
    pub closed spec fn block(&self) -> UniqueMmioPointer<'a, [ReadWrite<u32>; UART_REGS_WORDS]> {
        self.block
    }

    /// The register block behind `block`.
    pub fn new(block: UniqueMmioPointer<'a, [ReadWrite<u32>; UART_REGS_WORDS]>) -> (regs: Self)
        ensures
            regs.block() == block,
    {
        UartRegs { block }
    }

    /// Reads `reg` once, unless it is write-only.
    pub fn read(&mut self, reg: Register) -> (value: Option<u32>)
        ensures
            value is Some <==> reg.spec_access() == Access::ReadWrite,
    {
        match reg.access() {
            Access::WriteOnly => None,
            Access::ReadWrite => match word_at(&mut self.block, reg.word_index()) {
                Some(mut word) => Some(read_word(&mut word)),
                None => None,
            },
        }
    }

    /// Writes `value` to `reg` once.
    pub fn write(&mut self, reg: Register, value: u32) {
        match word_at(&mut self.block, reg.word_index()) {
            Some(mut word) => write_word(&mut word, value),
            None => {},
        }
    }

    /// Performs `request` if it is a register access that the device allows,
    /// and gives the reply. Any other request is left to the caller.
    pub fn perform(&mut self, request: Request) -> (reply: Option<Reply>)
        ensures
            reply is Some <==> request.on_registers(),
            reply is Some ==> request.answered_by(reply.unwrap()),
    {
        match request {
            Request::Read(reg) => match self.read(reg) {
                Some(value) => Some(Reply::Value(value)),
                None => None,
            },
            Request::Write(reg, value) => {
                self.write(reg, value);
                Some(Reply::Done)
            },
            _ => None,
        }
    }
}

} // verus!
