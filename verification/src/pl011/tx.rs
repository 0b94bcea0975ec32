//! Putting a byte out on a port.
//!
//! The routine reads the flag register until it no longer reports the
//! transmit FIFO full, then writes the byte to the data register. It has no
//! other way out: while the hardware reports the FIFO full, it asks again.
use vstd::prelude::*;
use crate::lkonce::OnceOp;
use crate::pl011::io::{Reply, Request, Step};
use crate::pl011::regs::{Register, UART_TFR_TXFF};
use crate::pl011::table::PortTable;
use crate::pl011::world::{run, World};

verus! {

/// Which reply the routine is waiting for.
#[derive(Clone, Copy, Debug, PartialEq, Eq, Structural)]
pub enum PutState {
    /// Holding `byte`, waiting for the flag register.
    Flags { byte: u8 },
    /// Waiting for the data register write to be done.
    Written,
}

/// Whether the flag register reports the transmit FIFO full.
pub open spec fn tx_fifo_full(fr: u32) -> bool {
    fr & UART_TFR_TXFF != 0
}

impl PutState {
    /// Whether `reply` is of the kind that the routine waits for in this state.
    pub open spec fn awaits(self, reply: Reply) -> bool {
        match self {
            PutState::Flags { .. } => reply is Value,
            PutState::Written => reply is Done,
        }
    }

    /// Whether `reply` is of the kind that the routine waits for in this state.
    pub fn expects(&self, reply: &Reply) -> (ok: bool)
        ensures
            ok == self.awaits(*reply),
    {
        match self {
            PutState::Flags { .. } => matches!(reply, Reply::Value(_)),
            PutState::Written => matches!(reply, Reply::Done),
        }
    }
}

/// The routine's first state and request.
pub open spec fn put_first(byte: u8) -> (PutState, Request) {
    (PutState::Flags { byte }, Request::Read(Register::Fr))
}

/// What the routine does in `state` on `reply`.
pub open spec fn put_next(state: PutState, reply: Reply) -> Step<PutState, ()> {
    match state {
        PutState::Flags { byte } => {
            if tx_fifo_full(reply->Value_0) {
                Step::Ask(PutState::Flags { byte }, Request::Read(Register::Fr))
            } else {
                Step::Ask(PutState::Written, Request::Write(Register::Dr, byte as u32))
            }
        },
        PutState::Written => Step::Return(()),
    }
}

/// What the panic-time routine does in `state` on `reply`: the same, but
/// that it returns 1 when the byte is written.
pub open spec fn pput_next(state: PutState, reply: Reply) -> Step<PutState, i32> {
    match put_next(state, reply) {
        Step::Ask(resume, ask) => Step::Ask(resume, ask),
        Step::Return(_) => Step::Return(1),
    }
}

/// The state that the routine starts in for `byte`, and its first request.
pub fn put_start(byte: u8) -> (first: (PutState, Request))
    ensures
        first == put_first(byte),
{
    (PutState::Flags { byte }, Request::Read(Register::Fr))
}

/// Starts putting `c` out on `port`, which must have been given its
/// configuration: gives the state to start in and the first request.
pub fn uart_putc(table: &PortTable, port: usize, c: u8) -> (first: (PutState, Request))
    requires
        table.ready(port as int, OnceOp::GetEarly),
    ensures
        first == put_first(c),
{
    put_start(c)
}

/// One step of putting a byte out: given the reply to the request that led
/// to `state`, says what to perform next or that the byte is written.
pub fn uart_putc_step(state: PutState, reply: Reply) -> (step: Step<PutState, ()>)
    requires
        state.awaits(reply),
    ensures
        step == put_next(state, reply),
{
    match state {
        PutState::Flags { byte } => {
            let fr: u32 = reply.value();
            if (fr & UART_TFR_TXFF) != 0 {
                Step::Ask(PutState::Flags { byte }, Request::Read(Register::Fr))
            } else {
                Step::Ask(PutState::Written, Request::Write(Register::Dr, byte as u32))
            }
        },
        PutState::Written => Step::Return(()),
    }
}

/// Starts putting `c` out on `port` at panic time. The port need only have
/// been given its configuration.
pub fn uart_pputc(table: &PortTable, port: usize, c: u8) -> (first: (PutState, Request))
    requires
        table.ready(port as int, OnceOp::GetEarly),
    ensures
        first == put_first(c),
{
    put_start(c)
}

/// One step of putting a byte out at panic time; returns 1 when the byte is
/// written.
pub fn uart_pputc_step(state: PutState, reply: Reply) -> (step: Step<PutState, i32>)
    requires
        state.awaits(reply),
    ensures
        step == pput_next(state, reply),
{
    match uart_putc_step(state, reply) {
        Step::Ask(resume, ask) => Step::Ask(resume, ask),
        Step::Return(_) => Step::Return(1),
    }
}

/// The routine waits for exactly the kind of reply that answers the request
/// it handed out, at the start and after every step, and never asks to read
/// a register that cannot be read.
pub proof fn lemma_put_asks_what_it_awaits(
    byte: u8,
    state: PutState,
    reply: Reply,
    resume: PutState,
    ask: Request,
    answer: Reply,
)
    requires
        (resume, ask) == put_first(byte) || put_next(state, reply) == Step::<PutState, ()>::Ask(
            resume,
            ask,
        ) || pput_next(state, reply) == Step::<PutState, i32>::Ask(resume, ask),
    ensures
        ask.answered_by(answer) <==> resume.awaits(answer),
        ask is Read ==> ask.on_registers(),
{
}

/// The routine as a step function.
pub open spec fn put_routine() -> spec_fn(PutState, Reply) -> Step<PutState, ()> {
    |state: PutState, reply: Reply| put_next(state, reply)
}

/// The panic-time routine as a step function.
pub open spec fn pput_routine() -> spec_fn(PutState, Reply) -> Step<PutState, i32> {
    |state: PutState, reply: Reply| pput_next(state, reply)
}

/// What putting `byte` out leaves of `world` where the transmit FIFO has room.
pub open spec fn put_sent(byte: u8, world: World) -> World {
    World {
        sent: world.sent.push(byte),
        trace: world.trace + seq![
            Request::Read(Register::Fr),
            Request::Write(Register::Dr, byte as u32),
        ],
        ..world
    }
}

/// Where the transmit FIFO has room, putting a byte out reads the flag
/// register once and writes the byte to the data register once. At panic
/// time it does the same and returns 1.
pub proof fn lemma_put_sends(byte: u8, world: World, fuel: nat)
    requires
        world.wf(),
        !tx_fifo_full(world.flags()),
        fuel >= 2,
    ensures
        run(put_routine(), put_first(byte).0, put_first(byte).1, world, fuel) == Some(
            (put_sent(byte, world), ()),
        ),
        run(pput_routine(), put_first(byte).0, put_first(byte).1, world, fuel) == Some(
            (put_sent(byte, world), 1i32),
        ),
{
    reveal_with_fuel(run, 3);
    assert(((byte as u32) & 0xff) as u8 == byte) by (bit_vector);
    let w1 = world.respond(Request::Read(Register::Fr)).0;
    let w2 = w1.respond(Request::Write(Register::Dr, byte as u32)).0;
    assert(w2.trace =~= put_sent(byte, world).trace);
    assert(w2 =~= put_sent(byte, world));
}

} // verus!
