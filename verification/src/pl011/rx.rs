//! Taking a received byte from a port.
//!
//! The routine takes one byte from the port's receive queue, waiting for one
//! if asked to. When it got a byte it sets the receive bit of the masked
//! interrupt status by reading the register once and writing it back. It does
//! so without regard to the interrupt routine, which works on the same device
//! and may run in between.
use vstd::prelude::*;
use crate::lkonce::OnceOp;
use crate::pl011::io::{Reply, Request, Step};
use crate::pl011::regs::{Register, UART_TMIS_RXMIS};
use crate::pl011::table::PortTable;
use crate::pl011::world::{run, World};

verus! {

/// What the routine returns when the queue gave no byte.
pub const NO_DATA: i32 = -1;

/// Which reply the routine is waiting for.
#[derive(Clone, Copy, Debug, PartialEq, Eq, Structural)]
pub enum GetState {
    /// Waiting for the queue.
    Char,
    /// Holding `byte`, waiting for the masked interrupt status.
    Status { byte: u8 },
    /// Holding `byte`, waiting for the status write to be done.
    Acked { byte: u8 },
}

/// The masked interrupt status with the receive bit set and every other bit kept.
pub open spec fn rx_acked(mis: u32) -> u32 {
    mis | UART_TMIS_RXMIS
}

impl GetState {
    /// Whether `reply` is of the kind that the routine waits for in this state.
    pub open spec fn awaits(self, reply: Reply) -> bool {
        match self {
            GetState::Char => reply is Char,
            GetState::Status { .. } => reply is Value,
            GetState::Acked { .. } => reply is Done,
        }
    }

    /// Whether `reply` is of the kind that the routine waits for in this state.
    pub fn expects(&self, reply: &Reply) -> (ok: bool)
        ensures
            ok == self.awaits(*reply),
    {
        match self {
            GetState::Char => matches!(reply, Reply::Char(_)),
            GetState::Status { .. } => matches!(reply, Reply::Value(_)),
            GetState::Acked { .. } => matches!(reply, Reply::Done),
        }
    }
}

/// The routine's first state and request.
pub open spec fn get_first(wait: bool) -> (GetState, Request) {
    (GetState::Char, Request::RxReadChar(wait))
}

/// What the routine does in `state` on `reply`.
pub open spec fn get_next(state: GetState, reply: Reply) -> Step<GetState, i32> {
    match state {
        GetState::Char => match reply->Char_0 {
            Some(byte) => Step::Ask(GetState::Status { byte }, Request::Read(Register::Mis)),
            None => Step::Return(NO_DATA),
        },
        GetState::Status { byte } => Step::Ask(
            GetState::Acked { byte },
            Request::Write(Register::Mis, rx_acked(reply->Value_0)),
        ),
        GetState::Acked { byte } => Step::Return(byte as i32),
    }
}

/// The state that the routine starts in, and its first request.
pub fn get_start(wait: bool) -> (first: (GetState, Request))
    ensures
        first == get_first(wait),
{
    (GetState::Char, Request::RxReadChar(wait))
}

/// Starts taking a byte from `port`, which must be fully up: gives the state
/// to start in and the first request.
pub fn uart_getc(table: &PortTable, port: usize, wait: bool) -> (first: (GetState, Request))
    requires
        table.ready(port as int, OnceOp::Get),
    ensures
        first == get_first(wait),
{
    get_start(wait)
}

/// One step of taking a byte: given the reply to the request that led to
/// `state`, says what to perform next, or returns the byte as a number from 0
/// to 255, or `NO_DATA` if the queue gave none.
pub fn uart_getc_step(state: GetState, reply: Reply) -> (step: Step<GetState, i32>)
    requires
        state.awaits(reply),
    ensures
        step == get_next(state, reply),
{
    match state {
        GetState::Char => match reply.char() {
            Some(byte) => Step::Ask(GetState::Status { byte }, Request::Read(Register::Mis)),
            None => Step::Return(NO_DATA),
        },
        GetState::Status { byte } => {
            let old: u32 = reply.value();
            Step::Ask(
                GetState::Acked { byte },
                Request::Write(Register::Mis, old | UART_TMIS_RXMIS),
            )
        },
        GetState::Acked { byte } => Step::Return(byte as i32),
    }
}

/// The routine waits for exactly the kind of reply that answers the request
/// it handed out, at the start and after every step, and never asks to read
/// a register that cannot be read.
pub proof fn lemma_get_asks_what_it_awaits(
    wait: bool,
    state: GetState,
    reply: Reply,
    resume: GetState,
    ask: Request,
    answer: Reply,
)
    requires
        (resume, ask) == get_first(wait) || get_next(state, reply) == Step::<GetState, i32>::Ask(
            resume,
            ask,
        ),
    ensures
        ask.answered_by(answer) <==> resume.awaits(answer),
        ask is Read ==> ask.on_registers(),
{
}

/// The routine as a step function.
pub open spec fn get_routine() -> spec_fn(GetState, Reply) -> Step<GetState, i32> {
    |state: GetState, reply: Reply| get_next(state, reply)
}

/// What taking a byte makes of `world` and returns, if it is over within
/// `fuel` requests.
pub open spec fn get_run(wait: bool, world: World, fuel: nat) -> Option<(World, i32)> {
    run(get_routine(), get_first(wait).0, get_first(wait).1, world, fuel)
}

/// Taking a byte from a queue that holds one returns the oldest byte, leaves
/// the others in the queue in order, and sets the receive bit of the masked
/// interrupt status, by one read and one write of that register.
pub proof fn lemma_get_takes_oldest(wait: bool, world: World, fuel: nat)
    requires
        world.wf(),
        world.rx_queue.len() > 0,
        fuel >= 3,
    ensures
        get_run(wait, world, fuel) == Some(
            (
                World {
                    rx_queue: world.rx_queue.drop_first(),
                    regs: world.regs.insert(Register::Mis, rx_acked(world.regs[Register::Mis])),
                    trace: world.trace + seq![
                        Request::RxReadChar(wait),
                        Request::Read(Register::Mis),
                        Request::Write(Register::Mis, rx_acked(world.regs[Register::Mis])),
                    ],
                    ..world
                },
                world.rx_queue[0] as i32,
            ),
        ),
        0 <= world.rx_queue[0] as i32 <= 255,
{
    reveal_with_fuel(run, 4);
    let acked = rx_acked(world.regs[Register::Mis]);
    let w1 = world.respond(Request::RxReadChar(wait)).0;
    let w2 = w1.respond(Request::Read(Register::Mis)).0;
    let w3 = w2.respond(Request::Write(Register::Mis, acked)).0;
    assert(w3.trace =~= world.trace + seq![
        Request::RxReadChar(wait),
        Request::Read(Register::Mis),
        Request::Write(Register::Mis, acked),
    ]);
    assert(get_run(wait, world, fuel) == Some((w3, world.rx_queue[0] as i32)));
}

/// Taking a byte from an empty queue without waiting returns `NO_DATA` after
/// the one request to the queue; no register is touched.
pub proof fn lemma_get_empty(world: World, fuel: nat)
    requires
        world.wf(),
        world.rx_queue.len() == 0,
        fuel >= 1,
    ensures
        get_run(false, world, fuel) == Some(
            (world.noted(Request::RxReadChar(false)), NO_DATA),
        ),
{
    reveal_with_fuel(run, 2);
}

} // verus!
