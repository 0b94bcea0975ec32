//! The table of ports: one cell per physical port, indexed by port number.
use vstd::prelude::*;
use crate::lkonce::{LkOnce, OnceOp, States};
use crate::pl011::port::{Pl011Config, Pl011Uart, PL011_PORTS};

verus! {

/// Every port of the platform, each in a cell of its own.
pub struct PortTable {
    ports: [LkOnce<Pl011Uart>; PL011_PORTS],
}

impl PortTable {
    /// Where the cell of `port` stands in its lifecycle.
    pub closed spec fn state(&self, port: int) -> States {
        self.ports[port].state()
    }

    /// The port, if its cell holds it.
    pub closed spec fn uart(&self, port: int) -> Option<Pl011Uart> {
        self.ports[port].value()
    }

    /// Whether `port` names a port whose cell lets `op` go ahead.
    pub open spec fn admits(&self, port: int, op: OnceOp) -> bool {
        0 <= port < PL011_PORTS && self.state(port).admits(op)
    }

    /// Whether `port` names a port that has been given a register block.
    pub open spec fn configured(&self, port: int) -> bool {
        &&& 0 <= port < PL011_PORTS
        &&& self.uart(port) is Some
        &&& self.uart(port).unwrap().config.base != 0
    }

    /// Whether `port` names a port that a routine can drive for `op`: its
    /// cell lets `op` go ahead and it has been given a register block.
    pub open spec fn ready(&self, port: int, op: OnceOp) -> bool {
        self.admits(port, op) && self.configured(port)
    }

    /// Whether every port but `port` is in this table as it is in `before`.
    pub open spec fn keeps_others(&self, before: &PortTable, port: int) -> bool {
        forall|other: int|
            0 <= other < PL011_PORTS && other != port ==> self.state(other) == before.state(other)
                && self.uart(other) == before.uart(other)
    }

    /// A table in which no port has been set up.
    pub fn new() -> (table: Self)
        ensures
            forall|port: int|
                0 <= port < PL011_PORTS ==> table.state(port) == States::Uninit && table.uart(
                    port,
                ) is None,
    {
        PortTable { ports: [LkOnce::uninit()] }
    }

    /// Number of ports in the table.
    pub fn len(&self) -> (count: usize)
        ensures
            count == PL011_PORTS,
    {
        PL011_PORTS
    }

    /// Whether `port` names a port whose cell lets `op` go ahead.
    pub fn permits(&self, port: usize, op: OnceOp) -> (ok: bool)
        ensures
            ok == self.admits(port as int, op),
            ok && !op.builds() ==> self.uart(port as int) is Some,
    {
        port < PL011_PORTS && self.ports[port].current().permits(op)
    }

    /// Whether `port` names a port that a routine can drive for `op`.
    pub fn is_ready(&self, port: usize, op: OnceOp) -> (ok: bool)
        ensures
            ok == self.ready(port as int, op),
    {
        if port < PL011_PORTS {
            let cell = &self.ports[port];
            let state = cell.current();
            match cell.try_get_early() {
                Some(uart) => state.permits(op) && uart.has_dev(),
                None => false,
            }
        } else {
            false
        }
    }

    /// Enters the full stage of the cell of `port` and hands out the port.
    pub fn begin_init(&mut self, port: usize) -> (uart: Pl011Uart)
        requires
            old(self).ready(port as int, OnceOp::Init),
        ensures
            old(self).uart(port as int) == Some(uart),
            final(self).state(port as int) == States::Initializing,
            final(self).uart(port as int) is None,
            final(self).keeps_others(old(self), port as int),
    {
        self.ports[port].begin_init().unwrap()
    }

    /// Completes the full stage of the cell of `port` with the port.
    pub fn finish_init(&mut self, port: usize, uart: Pl011Uart)
        requires
            0 <= port < PL011_PORTS,
            old(self).state(port as int) == States::Initializing,
        ensures
            final(self).state(port as int) == States::Initialized,
            final(self).uart(port as int) == Some(uart),
            final(self).keeps_others(old(self), port as int),
    {
        self.ports[port].finish_init(uart);
    }

    /// The port once it is fully set up.
    pub fn get_uart(&self, port: usize) -> (uart: &Pl011Uart)
        requires
            self.admits(port as int, OnceOp::Get),
        ensures
            self.uart(port as int) == Some(*uart),
    {
        self.ports[port].get()
    }

    /// The port as soon as it has been given its configuration.
    pub fn get_uart_early(&self, port: usize) -> (uart: &Pl011Uart)
        requires
            self.admits(port as int, OnceOp::GetEarly),
        ensures
            self.uart(port as int) == Some(*uart),
    {
        self.ports[port].get_early()
    }
}

/// Gives `port` its configuration, so that bytes can be put out on it before
/// the driver is fully up.
pub fn pl011_init_early(table: &mut PortTable, port: usize, config: Pl011Config)
    requires
        old(table).admits(port as int, OnceOp::EarlyInit),
    ensures
        final(table).state(port as int) == States::EarlyInitted,
        final(table).uart(port as int) == Some((Pl011Uart { config })),
        final(table).keeps_others(old(table), port as int),
{
    table.ports[port].begin_early_init();
    table.ports[port].finish_early_init(Pl011Uart::new(config));
}

} // verus!
