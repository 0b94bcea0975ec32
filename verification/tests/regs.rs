use lk::pl011::regs::{
    Access, Register, UART_CR, UART_CR_RXEN, UART_DMACR, UART_DR, UART_FBRD, UART_FR, UART_IBRD,
    UART_ICR, UART_IFLS, UART_IMSC, UART_IMSC_RXIM, UART_IPLR, UART_LCRH, UART_MIS, UART_REGS_SIZE,
    UART_REGS_WORDS, UART_RIS, UART_RSR, UART_TFR_RXFE, UART_TFR_TXFF, UART_TMIS_RXMIS,
};

const TABLE: [(Register, usize); 14] = [
    (Register::Dr, 0x00),
    (Register::Rsr, 0x04),
    (Register::Fr, 0x18),
    (Register::Iplr, 0x20),
    (Register::Ibrd, 0x24),
    (Register::Fbrd, 0x28),
    (Register::Lcrh, 0x2c),
    (Register::Cr, 0x30),
    (Register::Ifls, 0x34),
    (Register::Imsc, 0x38),
    (Register::Ris, 0x3c),
    (Register::Mis, 0x40),
    (Register::Icr, 0x44),
    (Register::Dmacr, 0x48),
];

#[test]
fn register_offsets_match_the_hardware() {
    for (reg, offset) in TABLE {
        assert_eq!(reg.offset(), offset);
    }
}

#[test]
fn offset_constants_match_the_hardware() {
    assert_eq!(UART_DR, 0x00);
    assert_eq!(UART_RSR, 0x04);
    assert_eq!(UART_FR, 0x18);
    assert_eq!(UART_IPLR, 0x20);
    assert_eq!(UART_IBRD, 0x24);
    assert_eq!(UART_FBRD, 0x28);
    assert_eq!(UART_LCRH, 0x2c);
    assert_eq!(UART_CR, 0x30);
    assert_eq!(UART_IFLS, 0x34);
    assert_eq!(UART_IMSC, 0x38);
    assert_eq!(UART_RIS, 0x3c);
    assert_eq!(UART_MIS, 0x40);
    assert_eq!(UART_ICR, 0x44);
    assert_eq!(UART_DMACR, 0x48);
    assert_eq!(UART_REGS_SIZE, 0x4c);
    assert_eq!(UART_REGS_WORDS * 4, UART_REGS_SIZE);
}

#[test]
fn offsets_find_their_register() {
    for (reg, offset) in TABLE {
        assert_eq!(Register::from_offset(offset), Some(reg));
    }
}

#[test]
fn reserved_and_odd_offsets_name_no_register() {
    for offset in [0x08, 0x0c, 0x10, 0x14, 0x1c, 0x4c, 0x01, 0x39, usize::MAX] {
        assert_eq!(Register::from_offset(offset), None);
    }
}

#[test]
fn only_the_interrupt_clear_register_is_write_only() {
    for (reg, _) in TABLE {
        let expected = if reg == Register::Icr { Access::WriteOnly } else { Access::ReadWrite };
        assert_eq!(reg.access(), expected);
    }
}

#[test]
fn status_and_control_bits() {
    assert_eq!(UART_TFR_RXFE, 1 << 4);
    assert_eq!(UART_TFR_TXFF, 1 << 5);
    assert_eq!(UART_IMSC_RXIM, 1 << 4);
    assert_eq!(UART_TMIS_RXMIS, 1 << 4);
    assert_eq!(UART_CR_RXEN, 1 << 9);
}

#[test]
fn registers_are_words_of_the_block() {
    for (reg, offset) in TABLE {
        assert_eq!(reg.word_index(), offset / 4);
        assert!(reg.word_index() < UART_REGS_WORDS);
    }
    assert_eq!(Register::Dmacr.word_index(), 18);
}
