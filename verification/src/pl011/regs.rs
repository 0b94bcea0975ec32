//! Register block of the PL011: names, byte offsets, access rights and the
//! status and control bits that the driver tests or sets.
use vstd::prelude::*;

verus! {

/// Data register: reading pops the receive FIFO, writing pushes the transmit FIFO.
pub const UART_DR: usize = 0x00;

/// Receive status / error clear register.
pub const UART_RSR: usize = 0x04;

/// Flag register.
pub const UART_FR: usize = 0x18;

/// Interrupt priority level register.
pub const UART_IPLR: usize = 0x20;

/// Integer baud rate divisor.
pub const UART_IBRD: usize = 0x24;

/// Fractional baud rate divisor.
pub const UART_FBRD: usize = 0x28;

/// Line control register.
pub const UART_LCRH: usize = 0x2c;

/// Control register.
pub const UART_CR: usize = 0x30;

/// Interrupt FIFO level select register.
pub const UART_IFLS: usize = 0x34;

/// Interrupt mask set/clear register.
pub const UART_IMSC: usize = 0x38;

/// Raw interrupt status register.
pub const UART_RIS: usize = 0x3c;

/// Masked interrupt status register.
pub const UART_MIS: usize = 0x40;

/// Interrupt clear register.
pub const UART_ICR: usize = 0x44;

/// DMA control register.
pub const UART_DMACR: usize = 0x48;

/// Size in bytes of the whole register block.
pub const UART_REGS_SIZE: usize = 0x4c;

/// Number of 32-bit words in the register block.
pub const UART_REGS_WORDS: usize = 19;

/// Flag register bit 4: the receive FIFO is empty.
pub const UART_TFR_RXFE: u32 = 0x10;

/// Flag register bit 5: the transmit FIFO is full.
pub const UART_TFR_TXFF: u32 = 0x20;

/// Interrupt mask bit 4: the receive interrupt is enabled.
pub const UART_IMSC_RXIM: u32 = 0x10;

/// Masked interrupt status bit 4: a receive interrupt is pending.
pub const UART_TMIS_RXMIS: u32 = 0x10;

/// Control register bit 9: the receiver is enabled.
pub const UART_CR_RXEN: u32 = 0x200;

/// Every interrupt source of the device, as written to the interrupt clear register.
pub const UART_ICR_ALL: u32 = 0x3ff;

/// Trigger level 1/8 for both FIFOs.
pub const UART_IFLS_EIGHTH: u32 = 0;

/// The named registers of the device.
#[derive(Clone, Copy, Debug, PartialEq, Eq, Structural)]
pub enum Register {
    Dr,
    Rsr,
    Fr,
    Iplr,
    Ibrd,
    Fbrd,
    Lcrh,
    Cr,
    Ifls,
    Imsc,
    Ris,
    Mis,
    Icr,
    Dmacr,
}

/// What software may do with a register.
#[derive(Clone, Copy, Debug, PartialEq, Eq, Structural)]
pub enum Access {
    ReadWrite,
    WriteOnly,
}

/// One field of the register block as it is declared, in address order: a
/// named 32-bit register, or a run of reserved 32-bit words.
pub enum Slot {
    Reg(Register),
    Reserved(nat),
}

impl Slot {
    /// Bytes that the field occupies.
    pub open spec fn bytes(self) -> nat {
        match self {
            Slot::Reg(_) => 4,
            Slot::Reserved(words) => 4 * words,
        }
    }
}

/// The register block as declared: each field directly follows the one before.
pub open spec fn uart_regs_fields() -> Seq<Slot> {
    seq![
        Slot::Reg(Register::Dr),
        Slot::Reg(Register::Rsr),
        Slot::Reserved(4),
        Slot::Reg(Register::Fr),
        Slot::Reserved(1),
        Slot::Reg(Register::Iplr),
        Slot::Reg(Register::Ibrd),
        Slot::Reg(Register::Fbrd),
        Slot::Reg(Register::Lcrh),
        Slot::Reg(Register::Cr),
        Slot::Reg(Register::Ifls),
        Slot::Reg(Register::Imsc),
        Slot::Reg(Register::Ris),
        Slot::Reg(Register::Mis),
        Slot::Reg(Register::Icr),
        Slot::Reg(Register::Dmacr),
    ]
}

/// Bytes taken by the first `count` fields of `fields`.
pub open spec fn bytes_before(fields: Seq<Slot>, count: int) -> nat
    decreases count,
{
    if count <= 0 || count > fields.len() {
        0
    } else {
        bytes_before(fields, count - 1) + fields[count - 1].bytes()
    }
}

impl Register {
    /// Position of the register among the declared fields.
    pub open spec fn field_index(self) -> int {
        match self {
            Register::Dr => 0,
            Register::Rsr => 1,
            Register::Fr => 3,
            Register::Iplr => 5,
            Register::Ibrd => 6,
            Register::Fbrd => 7,
            Register::Lcrh => 8,
            Register::Cr => 9,
            Register::Ifls => 10,
            Register::Imsc => 11,
            Register::Ris => 12,
            Register::Mis => 13,
            Register::Icr => 14,
            Register::Dmacr => 15,
        }
    }

    /// Byte offset that the hardware gives the register.
    pub open spec fn spec_offset(self) -> nat {
        match self {
            Register::Dr => 0x00,
            Register::Rsr => 0x04,
            Register::Fr => 0x18,
            Register::Iplr => 0x20,
            Register::Ibrd => 0x24,
            Register::Fbrd => 0x28,
            Register::Lcrh => 0x2c,
            Register::Cr => 0x30,
            Register::Ifls => 0x34,
            Register::Imsc => 0x38,
            Register::Ris => 0x3c,
            Register::Mis => 0x40,
            Register::Icr => 0x44,
            Register::Dmacr => 0x48,
        }
    }

    /// Access right of the register: only the interrupt clear register cannot be read.
    pub open spec fn spec_access(self) -> Access {
        if self == Register::Icr {
            Access::WriteOnly
        } else {
            Access::ReadWrite
        }
    }

    /// Byte offset of the register from the base of the block.
    pub fn offset(self) -> (bytes: usize)
        ensures
            bytes == self.spec_offset(),
            bytes % 4 == 0,
            bytes + 4 <= UART_REGS_SIZE,
            bytes / 4 < UART_REGS_WORDS,
    {
        match self {
            Register::Dr => UART_DR,
            Register::Rsr => UART_RSR,
            Register::Fr => UART_FR,
            Register::Iplr => UART_IPLR,
            Register::Ibrd => UART_IBRD,
            Register::Fbrd => UART_FBRD,
            Register::Lcrh => UART_LCRH,
            Register::Cr => UART_CR,
            Register::Ifls => UART_IFLS,
            Register::Imsc => UART_IMSC,
            Register::Ris => UART_RIS,
            Register::Mis => UART_MIS,
            Register::Icr => UART_ICR,
            Register::Dmacr => UART_DMACR,
        }
    }

    /// Place of the register in the block taken as an array of 32-bit words.
    pub fn word_index(self) -> (index: usize)
        ensures
            index * 4 == self.spec_offset(),
            index < UART_REGS_WORDS,
    {
        self.offset() / 4
    }

    /// The register that lives at `bytes` from the base of the block, if any.
    pub fn from_offset(bytes: usize) -> (found: Option<Register>)
        ensures
            match found {
                Some(reg) => reg.spec_offset() == bytes,
                None => forall|reg: Register| reg.spec_offset() != bytes,
            },
    {
        if bytes == UART_DR {
            Some(Register::Dr)
        } else if bytes == UART_RSR {
            Some(Register::Rsr)
        } else if bytes == UART_FR {
            Some(Register::Fr)
        } else if bytes == UART_IPLR {
            Some(Register::Iplr)
        } else if bytes == UART_IBRD {
            Some(Register::Ibrd)
        } else if bytes == UART_FBRD {
            Some(Register::Fbrd)
        } else if bytes == UART_LCRH {
            Some(Register::Lcrh)
        } else if bytes == UART_CR {
            Some(Register::Cr)
        } else if bytes == UART_IFLS {
            Some(Register::Ifls)
        } else if bytes == UART_IMSC {
            Some(Register::Imsc)
        } else if bytes == UART_RIS {
            Some(Register::Ris)
        } else if bytes == UART_MIS {
            Some(Register::Mis)
        } else if bytes == UART_ICR {
            Some(Register::Icr)
        } else if bytes == UART_DMACR {
            Some(Register::Dmacr)
        } else {
            None
        }
    }

    /// Access right of the register.
    pub fn access(self) -> (right: Access)
        ensures
            right == self.spec_access(),
    {
        match self {
            Register::Icr => Access::WriteOnly,
            _ => Access::ReadWrite,
        }
    }
}

/// The declared register block has the layout of the hardware: every named
/// register sits in the declaration where `field_index` says, the fields
/// before it add up to exactly its hardware offset, and the block ends at
/// `UART_REGS_SIZE`.
pub proof fn verify_uart_regs_layout()
    ensures
        forall|reg: Register|
            #![trigger reg.field_index()]
            uart_regs_fields()[reg.field_index()] == Slot::Reg(reg) && bytes_before(
                uart_regs_fields(),
                reg.field_index(),
            ) == reg.spec_offset(),
        bytes_before(uart_regs_fields(), uart_regs_fields().len() as int) == UART_REGS_SIZE,
{
    reveal_with_fuel(bytes_before, 17);
}

/// Two different registers never share an offset, and none overlaps another.
pub proof fn lemma_offsets_distinct(a: Register, b: Register)
    ensures
        a != b ==> a.spec_offset() + 4 <= b.spec_offset() || b.spec_offset() + 4
            <= a.spec_offset(),
        a.field_index() < b.field_index() <==> a.spec_offset() < b.spec_offset(),
{
}

} // verus!
