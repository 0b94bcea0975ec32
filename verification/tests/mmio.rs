use lk::pl011::io::{Reply, Request, Step};
use lk::pl011::mmio::UartRegs;
use lk::pl011::port::{Pl011Config, Pl011Uart};
use lk::pl011::regs::{Register, UART_REGS_WORDS};
use lk::pl011::rx::{uart_getc_step, GetState};
use safe_mmio::fields::ReadWrite;
use safe_mmio::UniqueMmioPointer;

fn memory() -> [ReadWrite<u32>; UART_REGS_WORDS] {
    std::array::from_fn(|_| ReadWrite(0))
}

#[test]
fn write_lands_at_the_offset_of_the_register() {
    let mut words = memory();
    {
        let mut regs = UartRegs::new(UniqueMmioPointer::from(&mut words));
        regs.write(Register::Dr, 0x11);
        regs.write(Register::Fr, 0x22);
        regs.write(Register::Imsc, 0x33);
        regs.write(Register::Icr, 0x3ff);
        regs.write(Register::Dmacr, 0x55);
    }
    assert_eq!(words[0x00 / 4].0, 0x11);
    assert_eq!(words[0x18 / 4].0, 0x22);
    assert_eq!(words[0x38 / 4].0, 0x33);
    assert_eq!(words[0x44 / 4].0, 0x3ff);
    assert_eq!(words[0x48 / 4].0, 0x55);
    let touched = [0x00 / 4, 0x18 / 4, 0x38 / 4, 0x44 / 4, 0x48 / 4];
    for (index, word) in words.iter().enumerate() {
        if !touched.contains(&index) {
            assert_eq!(word.0, 0);
        }
    }
}

#[test]
fn read_comes_from_the_offset_of_the_register() {
    let mut words = memory();
    words[0x30 / 4] = ReadWrite(0x301);
    words[0x40 / 4] = ReadWrite(0x10);
    let mut regs = UartRegs::new(UniqueMmioPointer::from(&mut words));
    assert_eq!(regs.read(Register::Cr), Some(0x301));
    assert_eq!(regs.read(Register::Mis), Some(0x10));
    assert_eq!(regs.read(Register::Rsr), Some(0));
}

#[test]
fn write_only_register_is_not_read() {
    let mut words = memory();
    words[0x44 / 4] = ReadWrite(0x123);
    let mut regs = UartRegs::new(UniqueMmioPointer::from(&mut words));
    assert_eq!(regs.read(Register::Icr), None);
    assert_eq!(regs.perform(Request::Read(Register::Icr)), None);
}

#[test]
fn register_requests_are_performed() {
    let mut words = memory();
    let mut regs = UartRegs::new(UniqueMmioPointer::from(&mut words));
    assert_eq!(regs.perform(Request::Write(Register::Ifls, 0x12)), Some(Reply::Done));
    assert_eq!(regs.perform(Request::Read(Register::Ifls)), Some(Reply::Value(0x12)));
    assert_eq!(regs.perform(Request::Read(Register::Lcrh)), Some(Reply::Value(0)));
}

#[test]
fn other_requests_are_left_to_the_caller() {
    let mut words = memory();
    let mut regs = UartRegs::new(UniqueMmioPointer::from(&mut words));
    for request in [
        Request::RxInit(32),
        Request::RxSpaceAvail,
        Request::RxWriteChar(1),
        Request::ConsoleWriteChar(1),
        Request::RxReadChar(true),
        Request::RegisterHandler(3),
        Request::UnmaskInterrupt(3),
    ] {
        assert_eq!(regs.perform(request), None);
    }
}

#[test]
fn acknowledge_through_memory_mapped_registers() {
    let mut words = memory();
    words[0x40 / 4] = ReadWrite(0x0000_0040);
    let uart = Pl011Uart::new(Pl011Config { base: 0x1000, irq: 1, flag: 0 });
    assert!(uart.has_dev());
    {
        let mut regs = UartRegs::new(UniqueMmioPointer::from(&mut words));
        let mut step = uart_getc_step(GetState::Char, Reply::Char(Some(b'k')));
        let result = loop {
            match step {
                Step::Ask(state, request) => {
                    let reply = regs.perform(request).unwrap();
                    step = uart_getc_step(state, reply);
                }
                Step::Return(result) => break result,
            }
        };
        assert_eq!(result, b'k' as i32);
    }
    assert_eq!(words[0x40 / 4].0, 0x0000_0050);
}
