//! A model of what surrounds the driver, for stating what a whole routine
//! achieves.
//!
//! The model is ghost: nothing of it is compiled. It answers each `Request`
//! as the device, the queues and the interrupt controller are taken to do:
//! the hardware receive FIFO is a sequence of bytes that a read of the data
//! register pops; the flag register reports that FIFO empty exactly when it
//! is; every other register holds what was last written to it; a queue takes a
//! byte while it has room and drops it otherwise; nothing else acts while a
//! routine runs.
use vstd::prelude::*;
use crate::pl011::io::{Reply, Request, Step};
use crate::pl011::irq::data_byte;
use crate::pl011::regs::{Register, UART_TFR_RXFE};

verus! {

/// The surroundings of one port at one moment.
#[verifier::ext_equal]
pub struct World {
    /// What each register holds, but for the data register and the
    /// receive-FIFO-empty bit of the flag register.
    pub regs: Map<Register, u32>,
    /// Bytes waiting in the hardware receive FIFO, oldest first.
    pub rx_fifo: Seq<u8>,
    /// Bytes written to the data register, oldest first.
    pub sent: Seq<u8>,
    /// Bytes held by the port's receive queue, oldest first.
    pub rx_queue: Seq<u8>,
    /// Most bytes that the port's receive queue holds.
    pub rx_capacity: nat,
    /// Buffer size that the port's receive queue was last set up with.
    pub rx_buffer: Option<usize>,
    /// Bytes held by the console input buffer, oldest first.
    pub console: Seq<u8>,
    /// Most bytes that the console input buffer holds.
    pub console_capacity: nat,
    /// Interrupt lines routed to the port's interrupt routine.
    pub handled: Set<u32>,
    /// Interrupt lines let through at the interrupt controller.
    pub unmasked: Set<u32>,
    /// Every request performed so far, in order.
    pub trace: Seq<Request>,
}

impl World {
    /// Every register holds a value, and the queues hold no more than they
    /// can, by counts that fit a machine word.
    pub open spec fn wf(self) -> bool {
        &&& forall|reg: Register| self.regs.dom().contains(reg)
        &&& self.rx_queue.len() <= self.rx_capacity <= usize::MAX
        &&& self.console.len() <= self.console_capacity <= usize::MAX
    }

    /// Bytes that the port's receive queue still takes.
    pub open spec fn rx_room(self) -> nat {
        (self.rx_capacity - self.rx_queue.len()) as nat
    }

    /// Bytes that the console input buffer still takes.
    pub open spec fn console_room(self) -> nat {
        (self.console_capacity - self.console.len()) as nat
    }

    /// What a read of the flag register gives.
    pub open spec fn flags(self) -> u32 {
        if self.rx_fifo.len() == 0 {
            self.regs[Register::Fr] | UART_TFR_RXFE
        } else {
            self.regs[Register::Fr] & !UART_TFR_RXFE
        }
    }

    /// The world with `request` added to its trace.
    pub open spec fn noted(self, request: Request) -> World {
        World { trace: self.trace.push(request), ..self }
    }

    /// The world after `request` was performed, and the reply.
    pub open spec fn respond(self, request: Request) -> (World, Reply) {
        let noted = self.noted(request);
        match request {
            Request::Read(Register::Dr) => {
                if self.rx_fifo.len() > 0 {
                    (
                        World { rx_fifo: self.rx_fifo.drop_first(), ..noted },
                        Reply::Value(self.rx_fifo[0] as u32),
                    )
                } else {
                    (noted, Reply::Value(0))
                }
            },
            Request::Read(Register::Fr) => (noted, Reply::Value(self.flags())),
            Request::Read(reg) => (noted, Reply::Value(self.regs[reg])),
            Request::Write(Register::Dr, value) => (
                World { sent: self.sent.push(data_byte(value)), ..noted },
                Reply::Done,
            ),
            Request::Write(reg, value) => (
                World { regs: self.regs.insert(reg, value), ..noted },
                Reply::Done,
            ),
            Request::RxInit(size) => (
                World { rx_queue: Seq::empty(), rx_buffer: Some(size), ..noted },
                Reply::Done,
            ),
            Request::RxSpaceAvail => (noted, Reply::Count(self.rx_room() as usize)),
            Request::RxWriteChar(byte) => {
                if self.rx_queue.len() < self.rx_capacity {
                    (World { rx_queue: self.rx_queue.push(byte), ..noted }, Reply::Count(1))
                } else {
                    (noted, Reply::Count(0))
                }
            },
            Request::ConsoleWriteChar(byte) => {
                if self.console.len() < self.console_capacity {
                    (World { console: self.console.push(byte), ..noted }, Reply::Count(1))
                } else {
                    (noted, Reply::Count(0))
                }
            },
            Request::RxReadChar(_) => {
                if self.rx_queue.len() > 0 {
                    (
                        World { rx_queue: self.rx_queue.drop_first(), ..noted },
                        Reply::Char(Some(self.rx_queue[0])),
                    )
                } else {
                    (noted, Reply::Char(None))
                }
            },
            Request::RegisterHandler(irq) => (
                World { handled: self.handled.insert(irq), ..noted },
                Reply::Done,
            ),
            Request::UnmaskInterrupt(irq) => (
                World { unmasked: self.unmasked.insert(irq), ..noted },
                Reply::Done,
            ),
        }
    }
}

/// Runs a routine in `world`: performs `request`, hands the reply to `next`
/// in `state`, and goes on until the routine returns or `fuel` requests have
/// been performed. Gives the world then and the routine's result.
pub open spec fn run<S, R>(
    next: spec_fn(S, Reply) -> Step<S, R>,
    state: S,
    request: Request,
    world: World,
    fuel: nat,
) -> Option<(World, R)>
    decreases fuel,
{
    if fuel == 0 {
        None
    } else {
        let (after, reply) = world.respond(request);
        match next(state, reply) {
            Step::Ask(resume, ask) => run(next, resume, ask, after, (fuel - 1) as nat),
            Step::Return(result) => Some((after, result)),
        }
    }
}

/// The world answers every request with a reply of the kind asked for, and
/// stays well formed.
pub proof fn lemma_respond_answers(world: World, request: Request)
    requires
        world.wf(),
    ensures
        request.answered_by(world.respond(request).1),
        world.respond(request).0.wf(),
        world.respond(request).0.trace == world.trace.push(request),
{
}

} // verus!
