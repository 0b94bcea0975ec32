//! Bringing a port fully up.
//!
//! The routine sets up the receive queue, routes the interrupt line to the
//! interrupt routine, clears every pending interrupt of the device, selects
//! the FIFO trigger level, enables the receive interrupt, enables the
//! receiver, and at last lets the interrupt line through at the controller.
//! While it runs the port's cell is in its full stage; it completes the stage
//! when the last request is done.
use vstd::prelude::*;
use crate::lkonce::{OnceOp, States};
use crate::pl011::io::{Reply, Request, Step};
use crate::pl011::port::{Pl011Uart, PL011_PORTS, RXBUF_SIZE};
use crate::pl011::regs::{
    Register,
    UART_CR_RXEN,
    UART_ICR_ALL,
    UART_IFLS_EIGHTH,
    UART_IMSC_RXIM,
};
use crate::pl011::table::PortTable;
use crate::pl011::world::{run, World};

verus! {

/// Which reply the routine is waiting for.
#[derive(Clone, Copy, Debug, PartialEq, Eq, Structural)]
pub enum InitStage {
    /// The receive queue is being set up.
    Queue,
    /// The interrupt line is being routed.
    Handler,
    /// Pending interrupts are being cleared.
    Cleared,
    /// The FIFO trigger level is being written.
    Level,
    /// The interrupt mask is being read.
    Mask,
    /// The interrupt mask is being written.
    Enabled,
    /// The control register is being read.
    Control,
    /// The control register is being written.
    Receiving,
    /// The interrupt line is being let through.
    Unmasked,
}

/// Where the routine stands, and the port that it is bringing up.
#[derive(Clone, Copy, Debug, PartialEq, Eq, Structural)]
pub struct InitState {
    pub stage: InitStage,
    pub uart: Pl011Uart,
}

/// The interrupt mask with the receive interrupt enabled and every other bit kept.
pub open spec fn rx_unmasked(imsc: u32) -> u32 {
    imsc | UART_IMSC_RXIM
}

/// The control register with the receiver enabled and every other bit kept.
pub open spec fn rx_enabled(cr: u32) -> u32 {
    cr | UART_CR_RXEN
}

impl InitStage {
    /// Whether `reply` is of the kind that the routine waits for at this stage.
    pub open spec fn awaits(self, reply: Reply) -> bool {
        match self {
            InitStage::Mask | InitStage::Control => reply is Value,
            _ => reply is Done,
        }
    }

    /// Whether `reply` is of the kind that the routine waits for at this stage.
    pub fn expects(&self, reply: &Reply) -> (ok: bool)
        ensures
            ok == self.awaits(*reply),
    {
        match self {
            InitStage::Mask | InitStage::Control => matches!(reply, Reply::Value(_)),
            _ => matches!(reply, Reply::Done),
        }
    }
}

/// The routine's first state and request for `uart`.
pub open spec fn init_first(uart: Pl011Uart) -> (InitState, Request) {
    (InitState { stage: InitStage::Queue, uart }, Request::RxInit(RXBUF_SIZE))
}

/// What the routine does in `state` on `reply`.
pub open spec fn init_next(state: InitState, reply: Reply) -> Step<InitState, Pl011Uart> {
    let uart = state.uart;
    match state.stage {
        InitStage::Queue => Step::Ask(
            InitState { stage: InitStage::Handler, uart },
            Request::RegisterHandler(uart.config.irq),
        ),
        InitStage::Handler => Step::Ask(
            InitState { stage: InitStage::Cleared, uart },
            Request::Write(Register::Icr, UART_ICR_ALL),
        ),
        InitStage::Cleared => Step::Ask(
            InitState { stage: InitStage::Level, uart },
            Request::Write(Register::Ifls, UART_IFLS_EIGHTH),
        ),
        InitStage::Level => Step::Ask(
            InitState { stage: InitStage::Mask, uart },
            Request::Read(Register::Imsc),
        ),
        InitStage::Mask => Step::Ask(
            InitState { stage: InitStage::Enabled, uart },
            Request::Write(Register::Imsc, rx_unmasked(reply->Value_0)),
        ),
        InitStage::Enabled => Step::Ask(
            InitState { stage: InitStage::Control, uart },
            Request::Read(Register::Cr),
        ),
        InitStage::Control => Step::Ask(
            InitState { stage: InitStage::Receiving, uart },
            Request::Write(Register::Cr, rx_enabled(reply->Value_0)),
        ),
        InitStage::Receiving => Step::Ask(
            InitState { stage: InitStage::Unmasked, uart },
            Request::UnmaskInterrupt(uart.config.irq),
        ),
        InitStage::Unmasked => Step::Return(uart),
    }
}

/// The state that the routine starts in for `uart`, and its first request.
pub fn init_start(uart: Pl011Uart) -> (first: (InitState, Request))
    ensures
        first == init_first(uart),
{
    (InitState { stage: InitStage::Queue, uart }, Request::RxInit(RXBUF_SIZE))
}

/// One step of the routine: given the reply to the request that led to
/// `state`, says what to perform next, or returns the port that is now up.
pub fn init_step(state: InitState, reply: Reply) -> (step: Step<InitState, Pl011Uart>)
    requires
        state.stage.awaits(reply),
    ensures
        step == init_next(state, reply),
{
    let uart = state.uart;
    match state.stage {
        InitStage::Queue => Step::Ask(
            InitState { stage: InitStage::Handler, uart },
            Request::RegisterHandler(uart.config.irq),
        ),
        InitStage::Handler => Step::Ask(
            InitState { stage: InitStage::Cleared, uart },
            Request::Write(Register::Icr, UART_ICR_ALL),
        ),
        InitStage::Cleared => Step::Ask(
            InitState { stage: InitStage::Level, uart },
            Request::Write(Register::Ifls, UART_IFLS_EIGHTH),
        ),
        InitStage::Level => Step::Ask(
            InitState { stage: InitStage::Mask, uart },
            Request::Read(Register::Imsc),
        ),
        InitStage::Mask => {
            let old: u32 = reply.value();
            Step::Ask(
                InitState { stage: InitStage::Enabled, uart },
                Request::Write(Register::Imsc, old | UART_IMSC_RXIM),
            )
        },
        InitStage::Enabled => Step::Ask(
            InitState { stage: InitStage::Control, uart },
            Request::Read(Register::Cr),
        ),
        InitStage::Control => {
            let old: u32 = reply.value();
            Step::Ask(
                InitState { stage: InitStage::Receiving, uart },
                Request::Write(Register::Cr, old | UART_CR_RXEN),
            )
        },
        InitStage::Receiving => Step::Ask(
            InitState { stage: InitStage::Unmasked, uart },
            Request::UnmaskInterrupt(uart.config.irq),
        ),
        InitStage::Unmasked => Step::Return(uart),
    }
}

/// Starts bringing `port` up: enters the full stage of its cell and gives
/// the state to start in and the first request.
pub fn pl011_init(table: &mut PortTable, port: usize) -> (first: (InitState, Request))
    requires
        old(table).ready(port as int, OnceOp::Init),
    ensures
        first == init_first(old(table).uart(port as int).unwrap()),
        final(table).state(port as int) == States::Initializing,
        final(table).uart(port as int) is None,
        final(table).keeps_others(old(table), port as int),
{
    let uart = table.begin_init(port);
    init_start(uart)
}

/// One step of bringing `port` up: given the reply to the request that led
/// to `state`, says what to perform next. When nothing is left to perform,
/// the port's cell completes its full stage and holds the port.
pub fn pl011_init_step(
    table: &mut PortTable,
    port: usize,
    state: InitState,
    reply: Reply,
) -> (step: Step<InitState, ()>)
    requires
        0 <= port < PL011_PORTS,
        old(table).state(port as int) == States::Initializing,
        state.stage.awaits(reply),
    ensures
        match init_next(state, reply) {
            Step::Ask(resume, ask) => {
                &&& step == Step::<InitState, ()>::Ask(resume, ask)
                &&& *final(table) == *old(table)
            },
            Step::Return(uart) => {
                &&& step == Step::<InitState, ()>::Return(())
                &&& final(table).state(port as int) == States::Initialized
                &&& final(table).uart(port as int) == Some(uart)
            },
        },
        final(table).keeps_others(old(table), port as int),
{
    match init_step(state, reply) {
        Step::Ask(resume, ask) => Step::Ask(resume, ask),
        Step::Return(uart) => {
            table.finish_init(port, uart);
            Step::Return(())
        },
    }
}

/// The routine waits for exactly the kind of reply that answers the request
/// it handed out, at the start and after every step, and never asks to read
/// a register that cannot be read.
pub proof fn lemma_init_asks_what_it_awaits(
    uart: Pl011Uart,
    state: InitState,
    reply: Reply,
    resume: InitState,
    ask: Request,
    answer: Reply,
)
    requires
        (resume, ask) == init_first(uart) || init_next(state, reply) == Step::<
            InitState,
            Pl011Uart,
        >::Ask(resume, ask),
    ensures
        ask.answered_by(answer) <==> resume.stage.awaits(answer),
        ask is Read ==> ask.on_registers(),
        resume.uart == if (resume, ask) == init_first(uart) {
            uart
        } else {
            state.uart
        },
{
}

/// The routine as a step function.
pub open spec fn init_routine() -> spec_fn(InitState, Reply) -> Step<InitState, Pl011Uart> {
    |state: InitState, reply: Reply| init_next(state, reply)
}

/// Bringing a port up performs nine requests, in this order: the receive
/// queue is set up over `RXBUF_SIZE` bytes and holds nothing; the port's
/// interrupt line is routed; every interrupt is cleared; the trigger level is
/// set to one eighth; the receive interrupt is enabled and the receiver is
/// enabled, each by reading the register once and writing it back with the
/// one bit set; and the interrupt line is let through last.
pub proof fn lemma_init_programs_device(uart: Pl011Uart, world: World, fuel: nat)
    requires
        world.wf(),
        fuel >= 9,
    ensures
        run(init_routine(), init_first(uart).0, init_first(uart).1, world, fuel) == Some(
            (
                World {
                    regs: world.regs.insert(Register::Icr, UART_ICR_ALL).insert(
                        Register::Ifls,
                        UART_IFLS_EIGHTH,
                    ).insert(Register::Imsc, rx_unmasked(world.regs[Register::Imsc])).insert(
                        Register::Cr,
                        rx_enabled(world.regs[Register::Cr]),
                    ),
                    rx_queue: Seq::empty(),
                    rx_buffer: Some(RXBUF_SIZE),
                    handled: world.handled.insert(uart.config.irq),
                    unmasked: world.unmasked.insert(uart.config.irq),
                    trace: world.trace + seq![
                        Request::RxInit(RXBUF_SIZE),
                        Request::RegisterHandler(uart.config.irq),
                        Request::Write(Register::Icr, UART_ICR_ALL),
                        Request::Write(Register::Ifls, UART_IFLS_EIGHTH),
                        Request::Read(Register::Imsc),
                        Request::Write(Register::Imsc, rx_unmasked(world.regs[Register::Imsc])),
                        Request::Read(Register::Cr),
                        Request::Write(Register::Cr, rx_enabled(world.regs[Register::Cr])),
                        Request::UnmaskInterrupt(uart.config.irq),
                    ],
                    ..world
                },
                uart,
            ),
        ),
{
    reveal_with_fuel(run, 10);
    let irq = uart.config.irq;
    let w1 = world.respond(Request::RxInit(RXBUF_SIZE)).0;
    let w2 = w1.respond(Request::RegisterHandler(irq)).0;
    let w3 = w2.respond(Request::Write(Register::Icr, UART_ICR_ALL)).0;
    let w4 = w3.respond(Request::Write(Register::Ifls, UART_IFLS_EIGHTH)).0;
    let w5 = w4.respond(Request::Read(Register::Imsc)).0;
    let mask = rx_unmasked(world.regs[Register::Imsc]);
    let w6 = w5.respond(Request::Write(Register::Imsc, mask)).0;
    let w7 = w6.respond(Request::Read(Register::Cr)).0;
    let control = rx_enabled(world.regs[Register::Cr]);
    let w8 = w7.respond(Request::Write(Register::Cr, control)).0;
    let w9 = w8.respond(Request::UnmaskInterrupt(irq)).0;
    assert(w9.trace =~= world.trace + seq![
        Request::RxInit(RXBUF_SIZE),
        Request::RegisterHandler(irq),
        Request::Write(Register::Icr, UART_ICR_ALL),
        Request::Write(Register::Ifls, UART_IFLS_EIGHTH),
        Request::Read(Register::Imsc),
        Request::Write(Register::Imsc, mask),
        Request::Read(Register::Cr),
        Request::Write(Register::Cr, control),
        Request::UnmaskInterrupt(irq),
    ]);
    assert(run(init_routine(), init_first(uart).0, init_first(uart).1, world, fuel) == Some(
        (w9, uart),
    ));
}

/// Enabling the receive interrupt and the receiver sets the one bit and
/// keeps every other.
pub proof fn lemma_enable_bits(imsc: u32, cr: u32)
    ensures
        rx_unmasked(imsc) & UART_IMSC_RXIM == UART_IMSC_RXIM,
        rx_unmasked(imsc) & !UART_IMSC_RXIM == imsc & !UART_IMSC_RXIM,
        rx_enabled(cr) & UART_CR_RXEN == UART_CR_RXEN,
        rx_enabled(cr) & !UART_CR_RXEN == cr & !UART_CR_RXEN,
{
    assert((imsc | 0x10) & 0x10 == 0x10) by (bit_vector);
    assert((imsc | 0x10) & !0x10u32 == imsc & !0x10u32) by (bit_vector);
    assert((cr | 0x200) & 0x200 == 0x200) by (bit_vector);
    assert((cr | 0x200) & !0x200u32 == cr & !0x200u32) by (bit_vector);
}

} // verus!
