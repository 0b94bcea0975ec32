//! The receive interrupt routine.
//!
//! On an interrupt the routine reads the masked interrupt status once. If a
//! receive interrupt is pending it drains the hardware FIFO byte by byte until
//! the flag register reports it empty. A port that feeds the console hands
//! every byte to the console input buffer. Any other port first asks its
//! receive queue for room; when there is none it clears the receive interrupt
//! enable bit and stops, leaving the remaining bytes in the hardware.
use vstd::prelude::*;
use crate::lkonce::OnceOp;
use crate::pl011::io::{Reply, Request, Step};
use crate::pl011::port::{feeds_console, Pl011Uart};
use crate::pl011::regs::{Register, UART_IMSC_RXIM, UART_TFR_RXFE, UART_TMIS_RXMIS};
use crate::pl011::table::PortTable;
use crate::pl011::world::{run, World};

verus! {

/// Where the routine stands: which reply it is waiting for. `drained` records
/// whether a byte has been read from the data register since the interrupt.
#[derive(Clone, Copy, Debug, PartialEq, Eq, Structural)]
pub enum IrqState {
    /// Waiting for the masked interrupt status.
    Status,
    /// Waiting for the flag register.
    Flags { drained: bool },
    /// Waiting for the receive queue's free space.
    Space { drained: bool },
    /// Waiting for the data register.
    Data,
    /// Waiting for the queue to take the byte.
    Pushed,
    /// Waiting for the interrupt mask register.
    Mask { drained: bool },
    /// Waiting for the interrupt mask write to be done.
    Masked { drained: bool },
}

/// Whether the masked interrupt status reports a receive interrupt.
pub open spec fn rx_pending(mis: u32) -> bool {
    mis & UART_TMIS_RXMIS != 0
}

/// Whether the flag register reports the receive FIFO empty.
pub open spec fn rx_fifo_empty(fr: u32) -> bool {
    fr & UART_TFR_RXFE != 0
}

/// The byte that a read of the data register delivered: its low eight bits.
pub open spec fn data_byte(dr: u32) -> u8 {
    (dr & 0xff) as u8
}

/// The interrupt mask with the receive interrupt disabled and every other bit kept.
pub open spec fn rx_masked(imsc: u32) -> u32 {
    imsc & !UART_IMSC_RXIM
}

impl IrqState {
    /// Whether `reply` is of the kind that the routine waits for in this state.
    pub open spec fn awaits(self, reply: Reply) -> bool {
        match self {
            IrqState::Status => reply is Value,
            IrqState::Flags { .. } => reply is Value,
            IrqState::Space { .. } => reply is Count,
            IrqState::Data => reply is Value,
            IrqState::Pushed => reply is Count,
            IrqState::Mask { .. } => reply is Value,
            IrqState::Masked { .. } => reply is Done,
        }
    }

    /// Whether `reply` is of the kind that the routine waits for in this state.
    pub fn expects(&self, reply: &Reply) -> (ok: bool)
        ensures
            ok == self.awaits(*reply),
    {
        match self {
            IrqState::Space { .. } | IrqState::Pushed => matches!(reply, Reply::Count(_)),
            IrqState::Masked { .. } => matches!(reply, Reply::Done),
            _ => matches!(reply, Reply::Value(_)),
        }
    }
}

/// The routine's first state and request.
pub open spec fn irq_first() -> (IrqState, Request) {
    (IrqState::Status, Request::Read(Register::Mis))
}

/// What the routine does in `state` on `reply`.
pub open spec fn irq_next(uart: Pl011Uart, state: IrqState, reply: Reply) -> Step<IrqState, bool> {
    match state {
        IrqState::Status => {
            if rx_pending(reply->Value_0) {
                Step::Ask(IrqState::Flags { drained: false }, Request::Read(Register::Fr))
            } else {
                Step::Return(false)
            }
        },
        IrqState::Flags { drained } => {
            if rx_fifo_empty(reply->Value_0) {
                Step::Return(drained)
            } else if feeds_console(uart.config.flag) {
                Step::Ask(IrqState::Data, Request::Read(Register::Dr))
            } else {
                Step::Ask(IrqState::Space { drained }, Request::RxSpaceAvail)
            }
        },
        IrqState::Space { drained } => {
            if reply->Count_0 == 0 {
                Step::Ask(IrqState::Mask { drained }, Request::Read(Register::Imsc))
            } else {
                Step::Ask(IrqState::Data, Request::Read(Register::Dr))
            }
        },
        IrqState::Data => {
            if feeds_console(uart.config.flag) {
                Step::Ask(
                    IrqState::Pushed,
                    Request::ConsoleWriteChar(data_byte(reply->Value_0)),
                )
            } else {
                Step::Ask(IrqState::Pushed, Request::RxWriteChar(data_byte(reply->Value_0)))
            }
        },
        IrqState::Pushed => Step::Ask(
            IrqState::Flags { drained: true },
            Request::Read(Register::Fr),
        ),
        IrqState::Mask { drained } => Step::Ask(
            IrqState::Masked { drained },
            Request::Write(Register::Imsc, rx_masked(reply->Value_0)),
        ),
        IrqState::Masked { drained } => Step::Return(drained),
    }
}

/// The state that the interrupt routine starts in, and its first request.
pub fn irq_start() -> (first: (IrqState, Request))
    ensures
        first == irq_first(),
{
    (IrqState::Status, Request::Read(Register::Mis))
}

/// Enters the interrupt routine of `port`, which must have been given its
/// configuration: gives the port for the steps to come, the state to start
/// in and the first request.
pub fn uart_irq(table: &PortTable, port: usize) -> (first: (&Pl011Uart, IrqState, Request))
    requires
        table.ready(port as int, OnceOp::GetEarly),
    ensures
        table.uart(port as int) == Some(*first.0),
        (first.1, first.2) == irq_first(),
{
    let (state, request) = irq_start();
    (table.get_uart_early(port), state, request)
}

/// One step of the interrupt routine: given the reply to the request that led
/// to `state`, says what to perform next, or that the routine is over and
/// whether a reschedule may be warranted.
pub fn uart_irq_step(uart: &Pl011Uart, state: IrqState, reply: Reply) -> (step: Step<IrqState, bool>)
    requires
        state.awaits(reply),
    ensures
        step == irq_next(*uart, state, reply),
{
    match state {
        IrqState::Status => {
            let isr: u32 = reply.value();
            if (isr & UART_TMIS_RXMIS) != 0 {
                Step::Ask(IrqState::Flags { drained: false }, Request::Read(Register::Fr))
            } else {
                Step::Return(false)
            }
        },
        IrqState::Flags { drained } => {
            let fr: u32 = reply.value();
            if (fr & UART_TFR_RXFE) != 0 {
                Step::Return(drained)
            } else if uart.is_debug() {
                Step::Ask(IrqState::Data, Request::Read(Register::Dr))
            } else {
                Step::Ask(IrqState::Space { drained }, Request::RxSpaceAvail)
            }
        },
        IrqState::Space { drained } => {
            let room: usize = reply.count();
            if room == 0 {
                Step::Ask(IrqState::Mask { drained }, Request::Read(Register::Imsc))
            } else {
                Step::Ask(IrqState::Data, Request::Read(Register::Dr))
            }
        },
        IrqState::Data => {
            let c: u8 = (reply.value() & 0xff) as u8;
            if uart.is_debug() {
                Step::Ask(IrqState::Pushed, Request::ConsoleWriteChar(c))
            } else {
                Step::Ask(IrqState::Pushed, Request::RxWriteChar(c))
            }
        },
        IrqState::Pushed => Step::Ask(
            IrqState::Flags { drained: true },
            Request::Read(Register::Fr),
        ),
        IrqState::Mask { drained } => {
            let old: u32 = reply.value();
            Step::Ask(
                IrqState::Masked { drained },
                Request::Write(Register::Imsc, old & !UART_IMSC_RXIM),
            )
        },
        IrqState::Masked { drained } => Step::Return(drained),
    }
}

/// The routine waits for exactly the kind of reply that answers the request
/// it handed out, at the start and after every step, and never asks to read
/// a register that cannot be read.
pub proof fn lemma_irq_asks_what_it_awaits(
    uart: Pl011Uart,
    state: IrqState,
    reply: Reply,
    resume: IrqState,
    ask: Request,
    answer: Reply,
)
    requires
        (resume, ask) == irq_first() || irq_next(uart, state, reply) == Step::<
            IrqState,
            bool,
        >::Ask(resume, ask),
    ensures
        ask.answered_by(answer) <==> resume.awaits(answer),
        ask is Read ==> ask.on_registers(),
{
}

/// The interrupt routine of `uart` as a step function.
pub open spec fn irq_routine(uart: Pl011Uart) -> spec_fn(IrqState, Reply) -> Step<IrqState, bool> {
    |state: IrqState, reply: Reply| irq_next(uart, state, reply)
}

/// What one interrupt of `uart` makes of `world` and returns, if it is over
/// within `fuel` requests.
pub open spec fn irq_run(uart: Pl011Uart, world: World, fuel: nat) -> Option<(World, bool)> {
    run(irq_routine(uart), irq_first().0, irq_first().1, world, fuel)
}

/// Bytes that an interrupt moves from the hardware FIFO into the receive
/// queue of a port that has its own: all of them, or as many as there is room for.
pub open spec fn rx_moved(world: World) -> nat {
    if world.rx_fifo.len() <= world.rx_room() {
        world.rx_fifo.len()
    } else {
        world.rx_room()
    }
}

/// What draining into the port's own queue makes of `world`, the trace
/// aside: the oldest bytes of the hardware FIFO are appended to the queue in
/// order, the rest stays in the hardware, and the receive interrupt is
/// disabled exactly when some had to stay.
pub open spec fn rx_drained(world: World) -> World {
    World {
        rx_queue: world.rx_queue + world.rx_fifo.take(rx_moved(world) as int),
        rx_fifo: world.rx_fifo.skip(rx_moved(world) as int),
        regs: if world.rx_fifo.len() > world.rx_room() {
            world.regs.insert(Register::Imsc, rx_masked(world.regs[Register::Imsc]))
        } else {
            world.regs
        },
        ..world
    }
}

/// Bytes of the hardware FIFO that the console input buffer has room for.
pub open spec fn console_taken(world: World) -> nat {
    if world.rx_fifo.len() <= world.console_room() {
        world.rx_fifo.len()
    } else {
        world.console_room()
    }
}

/// What draining into the console input buffer makes of `world`, the trace
/// aside: the hardware FIFO is emptied, and the buffer holds in order what it
/// had room for.
pub open spec fn console_drained(world: World) -> World {
    World {
        console: world.console + world.rx_fifo.take(console_taken(world) as int),
        rx_fifo: Seq::empty(),
        ..world
    }
}

proof fn lemma_flag_bit(fr: u32)
    ensures
        rx_fifo_empty(fr | UART_TFR_RXFE),
        !rx_fifo_empty(fr & !UART_TFR_RXFE),
{
    assert((fr | 0x10) & 0x10 != 0) by (bit_vector);
    assert((fr & !0x10u32) & 0x10 == 0) by (bit_vector);
}

proof fn lemma_data_byte(byte: u8)
    ensures
        data_byte(byte as u32) == byte,
{
    assert(((byte as u32) & 0xff) as u8 == byte) by (bit_vector);
}

/// Disabling the receive interrupt clears its enable bit and keeps every
/// other bit of the mask.
pub proof fn lemma_rx_masked(imsc: u32)
    ensures
        rx_masked(imsc) & UART_IMSC_RXIM == 0,
        rx_masked(imsc) | UART_IMSC_RXIM == imsc | UART_IMSC_RXIM,
        rx_masked(imsc) <= imsc,
{
    assert((imsc & !0x10u32) & 0x10 == 0) by (bit_vector);
    assert((imsc & !0x10u32) | 0x10 == imsc | 0x10) by (bit_vector);
    assert(imsc & !0x10u32 <= imsc) by (bit_vector);
}

proof fn lemma_drain_rx(uart: Pl011Uart, world: World, drained: bool, fuel: nat)
    requires
        world.wf(),
        !feeds_console(uart.config.flag),
        fuel >= 4 * world.rx_fifo.len() + 4,
    ensures
        match run(
            irq_routine(uart),
            IrqState::Flags { drained },
            Request::Read(Register::Fr),
            world,
            fuel,
        ) {
            Some((after, resched)) => {
                &&& after == (World { trace: after.trace, ..rx_drained(world) })
                &&& resched == (drained || rx_moved(world) > 0)
            },
            None => false,
        },
    decreases world.rx_fifo.len(),
{
    reveal_with_fuel(run, 5);
    lemma_flag_bit(world.regs[Register::Fr]);
    let routine = irq_routine(uart);
    let w1 = world.respond(Request::Read(Register::Fr)).0;
    if world.rx_fifo.len() == 0 {
        assert(world.rx_fifo.take(0) =~= Seq::<u8>::empty());
        assert(world.rx_fifo.skip(0) =~= world.rx_fifo);
        assert(world.rx_queue + Seq::<u8>::empty() =~= world.rx_queue);
        assert(w1 =~= (World { trace: w1.trace, ..rx_drained(world) }));
    } else if world.rx_room() == 0 {
        let w2 = w1.respond(Request::RxSpaceAvail).0;
        let w3 = w2.respond(Request::Read(Register::Imsc)).0;
        let w4 = w3.respond(
            Request::Write(Register::Imsc, rx_masked(world.regs[Register::Imsc])),
        ).0;
        assert(world.rx_fifo.take(0) =~= Seq::<u8>::empty());
        assert(world.rx_fifo.skip(0) =~= world.rx_fifo);
        assert(world.rx_queue + Seq::<u8>::empty() =~= world.rx_queue);
        assert(w4 =~= (World { trace: w4.trace, ..rx_drained(world) }));
    } else {
        let byte = world.rx_fifo[0];
        lemma_data_byte(byte);
        let w2 = w1.respond(Request::RxSpaceAvail).0;
        let w3 = w2.respond(Request::Read(Register::Dr)).0;
        let w4 = w3.respond(Request::RxWriteChar(byte)).0;
        assert(w4.rx_fifo == world.rx_fifo.drop_first());
        assert(w4.rx_queue == world.rx_queue.push(byte));
        lemma_drain_rx(uart, w4, true, (fuel - 4) as nat);
        let moved = rx_moved(world) as int;
        assert(rx_moved(w4) == moved - 1);
        assert(w4.rx_queue + w4.rx_fifo.take(moved - 1) =~= world.rx_queue + world.rx_fifo.take(
            moved,
        ));
        assert(w4.rx_fifo.skip(moved - 1) =~= world.rx_fifo.skip(moved));
        assert(run(routine, IrqState::Flags { drained }, Request::Read(Register::Fr), world, fuel)
            == run(
            routine,
            IrqState::Flags { drained: true },
            Request::Read(Register::Fr),
            w4,
            (fuel - 4) as nat,
        ));
        let after = run(
            routine,
            IrqState::Flags { drained: true },
            Request::Read(Register::Fr),
            w4,
            (fuel - 4) as nat,
        )->Some_0.0;
        assert(after =~= (World { trace: after.trace, ..rx_drained(world) }));
    }
}

/// An interrupt without a pending receive condition reads the masked
/// interrupt status once and does nothing else.
pub proof fn lemma_irq_not_pending(uart: Pl011Uart, world: World, fuel: nat)
    requires
        world.wf(),
        !rx_pending(world.regs[Register::Mis]),
        fuel >= 1,
    ensures
        irq_run(uart, world, fuel) == Some((world.noted(Request::Read(Register::Mis)), false)),
{
    reveal_with_fuel(run, 2);
}

/// An interrupt on a port with its own receive queue moves bytes from the
/// hardware FIFO to the queue, in order, until the FIFO is empty or the queue
/// is full. What was queued before stays, in front. Where bytes remain in the
/// hardware the receive interrupt is disabled, every other mask bit kept;
/// otherwise no register changes. The routine reports a reschedule exactly
/// when it moved a byte.
pub proof fn lemma_irq_fills_queue(uart: Pl011Uart, world: World, fuel: nat)
    requires
        world.wf(),
        rx_pending(world.regs[Register::Mis]),
        !feeds_console(uart.config.flag),
        fuel >= 4 * world.rx_fifo.len() + 5,
    ensures
        match irq_run(uart, world, fuel) {
            Some((after, resched)) => {
                &&& after == (World { trace: after.trace, ..rx_drained(world) })
                &&& resched == (rx_moved(world) > 0)
            },
            None => false,
        },
{
    reveal_with_fuel(run, 2);
    let w1 = world.respond(Request::Read(Register::Mis)).0;
    lemma_drain_rx(uart, w1, false, (fuel - 1) as nat);
    assert(rx_drained(w1) =~= (World { trace: w1.trace, ..rx_drained(world) }));
}

/// Overflow: when more bytes wait in the hardware than the port's receive
/// queue has room for, an interrupt fills the queue to its capacity with the
/// oldest of them, in order behind what it held, leaves the others in the
/// hardware, and ends with the receive interrupt disabled.
pub proof fn lemma_irq_overflow(uart: Pl011Uart, world: World, fuel: nat)
    requires
        world.wf(),
        rx_pending(world.regs[Register::Mis]),
        !feeds_console(uart.config.flag),
        world.rx_fifo.len() > world.rx_room(),
        fuel >= 4 * world.rx_fifo.len() + 5,
    ensures
        irq_run(uart, world, fuel) is Some,
        irq_run(uart, world, fuel).unwrap().0.rx_queue.len() == world.rx_capacity,
        irq_run(uart, world, fuel).unwrap().0.rx_queue == world.rx_queue + world.rx_fifo.take(
            world.rx_room() as int,
        ),
        irq_run(uart, world, fuel).unwrap().0.rx_fifo == world.rx_fifo.skip(
            world.rx_room() as int,
        ),
        irq_run(uart, world, fuel).unwrap().0.regs[Register::Imsc] & UART_IMSC_RXIM == 0,
{
    lemma_irq_fills_queue(uart, world, fuel);
    lemma_rx_masked(world.regs[Register::Imsc]);
}

/// No overflow: when the port's receive queue has room for every byte that
/// waits in the hardware, an interrupt queues them all, in order behind what
/// the queue held, and writes no register.
pub proof fn lemma_irq_queues_all(uart: Pl011Uart, world: World, fuel: nat)
    requires
        world.wf(),
        rx_pending(world.regs[Register::Mis]),
        !feeds_console(uart.config.flag),
        world.rx_fifo.len() <= world.rx_room(),
        fuel >= 4 * world.rx_fifo.len() + 5,
    ensures
        irq_run(uart, world, fuel) is Some,
        irq_run(uart, world, fuel).unwrap().0.rx_queue == world.rx_queue + world.rx_fifo,
        irq_run(uart, world, fuel).unwrap().0.rx_fifo.len() == 0,
        irq_run(uart, world, fuel).unwrap().0.regs == world.regs,
        irq_run(uart, world, fuel).unwrap().1 == (world.rx_fifo.len() > 0),
{
    lemma_irq_fills_queue(uart, world, fuel);
    assert(world.rx_fifo.take(world.rx_fifo.len() as int) =~= world.rx_fifo);
}

/// Backpressure: when bytes wait in the hardware and the port's receive
/// queue is full, an interrupt reads the status, the flags, the queue's room
/// and the interrupt mask, writes the mask back with the receive interrupt
/// disabled, and stops. The queue and the hardware FIFO keep exactly what
/// they held, and no reschedule is reported.
pub proof fn lemma_irq_backpressure(uart: Pl011Uart, world: World, fuel: nat)
    requires
        world.wf(),
        rx_pending(world.regs[Register::Mis]),
        !feeds_console(uart.config.flag),
        world.rx_fifo.len() > 0,
        world.rx_queue.len() == world.rx_capacity,
        fuel >= 5,
    ensures
        irq_run(uart, world, fuel) == Some(
            (
                World {
                    regs: world.regs.insert(
                        Register::Imsc,
                        rx_masked(world.regs[Register::Imsc]),
                    ),
                    trace: world.trace + seq![
                        Request::Read(Register::Mis),
                        Request::Read(Register::Fr),
                        Request::RxSpaceAvail,
                        Request::Read(Register::Imsc),
                        Request::Write(Register::Imsc, rx_masked(world.regs[Register::Imsc])),
                    ],
                    ..world
                },
                false,
            ),
        ),
        rx_masked(world.regs[Register::Imsc]) & UART_IMSC_RXIM == 0,
{
    reveal_with_fuel(run, 6);
    lemma_flag_bit(world.regs[Register::Fr]);
    lemma_rx_masked(world.regs[Register::Imsc]);
    let masked = rx_masked(world.regs[Register::Imsc]);
    let w1 = world.respond(Request::Read(Register::Mis)).0;
    let w2 = w1.respond(Request::Read(Register::Fr)).0;
    let w3 = w2.respond(Request::RxSpaceAvail).0;
    let w4 = w3.respond(Request::Read(Register::Imsc)).0;
    let w5 = w4.respond(Request::Write(Register::Imsc, masked)).0;
    assert(w5.trace =~= world.trace + seq![
        Request::Read(Register::Mis),
        Request::Read(Register::Fr),
        Request::RxSpaceAvail,
        Request::Read(Register::Imsc),
        Request::Write(Register::Imsc, masked),
    ]);
    assert(irq_run(uart, world, fuel) == Some((w5, false)));
}

proof fn lemma_drain_console(uart: Pl011Uart, world: World, drained: bool, fuel: nat)
    requires
        world.wf(),
        feeds_console(uart.config.flag),
        fuel >= 3 * world.rx_fifo.len() + 1,
    ensures
        match run(
            irq_routine(uart),
            IrqState::Flags { drained },
            Request::Read(Register::Fr),
            world,
            fuel,
        ) {
            Some((after, resched)) => {
                &&& after == (World { trace: after.trace, ..console_drained(world) })
                &&& resched == (drained || world.rx_fifo.len() > 0)
            },
            None => false,
        },
    decreases world.rx_fifo.len(),
{
    reveal_with_fuel(run, 4);
    lemma_flag_bit(world.regs[Register::Fr]);
    let routine = irq_routine(uart);
    let w1 = world.respond(Request::Read(Register::Fr)).0;
    if world.rx_fifo.len() == 0 {
        assert(world.rx_fifo.take(0) =~= Seq::<u8>::empty());
        assert(world.console + Seq::<u8>::empty() =~= world.console);
        assert(w1 =~= (World { trace: w1.trace, ..console_drained(world) }));
    } else {
        let byte = world.rx_fifo[0];
        lemma_data_byte(byte);
        let w2 = w1.respond(Request::Read(Register::Dr)).0;
        let w3 = w2.respond(Request::ConsoleWriteChar(byte)).0;
        assert(w3.rx_fifo == world.rx_fifo.drop_first());
        lemma_drain_console(uart, w3, true, (fuel - 3) as nat);
        let taken = console_taken(world) as int;
        if world.console_room() == 0 {
            assert(console_taken(w3) == 0);
            assert(w3.rx_fifo.take(0) =~= world.rx_fifo.take(0));
        } else {
            assert(console_taken(w3) == taken - 1);
            assert(w3.console + w3.rx_fifo.take(taken - 1) =~= world.console
                + world.rx_fifo.take(taken));
        }
        assert(run(routine, IrqState::Flags { drained }, Request::Read(Register::Fr), world, fuel)
            == run(
            routine,
            IrqState::Flags { drained: true },
            Request::Read(Register::Fr),
            w3,
            (fuel - 3) as nat,
        ));
        let after = run(
            routine,
            IrqState::Flags { drained: true },
            Request::Read(Register::Fr),
            w3,
            (fuel - 3) as nat,
        )->Some_0.0;
        assert(after =~= (World { trace: after.trace, ..console_drained(world) }));
    }
}

/// An interrupt on a port that feeds the console reads every byte out of the
/// hardware FIFO and offers each to the console input buffer, which keeps in
/// order what it has room for. No register is written, so the receive
/// interrupt stays enabled however full the buffer is, and the port's own
/// queue is left alone. The routine reports a reschedule exactly when the
/// FIFO held a byte.
pub proof fn lemma_irq_feeds_console(uart: Pl011Uart, world: World, fuel: nat)
    requires
        world.wf(),
        rx_pending(world.regs[Register::Mis]),
        feeds_console(uart.config.flag),
        fuel >= 3 * world.rx_fifo.len() + 2,
    ensures
        match irq_run(uart, world, fuel) {
            Some((after, resched)) => {
                &&& after == (World { trace: after.trace, ..console_drained(world) })
                &&& resched == (world.rx_fifo.len() > 0)
            },
            None => false,
        },
{
    reveal_with_fuel(run, 2);
    let w1 = world.respond(Request::Read(Register::Mis)).0;
    lemma_drain_console(uart, w1, false, (fuel - 1) as nat);
    assert(console_drained(w1) =~= (World { trace: w1.trace, ..console_drained(world) }));
}

} // verus!
