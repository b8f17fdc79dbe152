//! The I/O port bus, modelled as explicit machine state.
//!
//! Real port I/O is a processor instruction with device side effects; here the
//! bus is data: a value per port and a log of every access in order.  Drivers
//! are verified against this model, and their contracts pin down exactly
//! which ports are touched, with which values, in which order.  Device
//! behaviour (a scancode arriving, a mask register changing) is introduced by
//! `poke`, which stands for the device side of the bus.

use vstd::prelude::*;

verus! {

/// The number of I/O ports in the 16-bit port address space.
pub const PORT_SPACE: usize = 0x10000;

/// One access on the port bus: which port, the value carried, and whether it
/// was a write (out) or a read (in).  A read records the raw port value.
#[derive(Clone, Copy, PartialEq, Eq, Structural, Debug)]
pub struct PortOp {
    pub port: u16,
    pub value: u32,
    pub is_write: bool,
}

/// The log entry of a read that found `raw` on `port`.
pub open spec fn read_op(port: u16, raw: u32) -> PortOp {
    PortOp { port, value: raw, is_write: false }
}

/// The log entry of a write of `value` to `port`.
pub open spec fn write_op(port: u16, value: u32) -> PortOp {
    PortOp { port, value, is_write: true }
}

/// The port bus: the current value of every port and the ordered access log.
pub struct Bus {
    pub values: Vec<u32>,
    pub log: Vec<PortOp>,
}

impl Bus {
    /// A bus is well formed when it holds one value per port.
    pub open spec fn wf(&self) -> bool {
        self.values@.len() == PORT_SPACE
    }

    /// A fresh bus: every port reads zero, nothing logged yet.
    pub fn new() -> (bus: Bus)
        ensures
            bus.wf(),
            bus.values@ == Seq::new(PORT_SPACE as nat, |i: int| 0u32),
            bus.log@ == Seq::<PortOp>::empty(),
    {
        let bus = Bus { values: vec![0u32; PORT_SPACE], log: Vec::new() };
        proof {
            assert(bus.values@ =~= Seq::new(PORT_SPACE as nat, |i: int| 0u32));
        }
        bus
    }

    /// Reads the raw 32-bit value of a port and logs the access.
    pub fn read_raw(&mut self, port: u16) -> (raw: u32)
        requires
            old(self).wf(),
        ensures
            final(self).wf(),
            raw == old(self).values@[port as int],
            final(self).values@ == old(self).values@,
            final(self).log@ == old(self).log@.push(read_op(port, raw)),
    {
        let raw = self.values[port as usize];
        self.log.push(PortOp { port, value: raw, is_write: false });
        raw
    }

    /// Writes a raw 32-bit value to a port and logs the access.
    pub fn write_raw(&mut self, port: u16, value: u32)
        requires
            old(self).wf(),
        ensures
            final(self).wf(),
            final(self).values@ == old(self).values@.update(port as int, value),
            final(self).log@ == old(self).log@.push(write_op(port, value)),
    {
        self.values[port as usize] = value;
        self.log.push(PortOp { port, value, is_write: true });
    }

    /// The value a port currently holds, without logging an access.
    pub fn peek(&self, port: u16) -> (raw: u32)
        requires
            self.wf(),
        ensures
            raw == self.values@[port as int],
    {
        self.values[port as usize]
    }

    /// Sets a port value from the device side of the bus: no access is
    /// logged, standing for hardware that changed the line on its own.
    pub fn poke(&mut self, port: u16, value: u32)
        requires
            old(self).wf(),
        ensures
            final(self).wf(),
            final(self).values@ == old(self).values@.update(port as int, value),
            final(self).log@ == old(self).log@,
    {
        self.values[port as usize] = value;
    }
}

/// A byte-wide I/O port, named by its number.
#[derive(Clone, Copy, PartialEq, Eq, Structural, Debug)]
pub struct Port {
    pub port: u16,
}

impl Port {
    pub fn new(port: u16) -> (p: Port)
        ensures
            p.port == port,
    {
        Port { port }
    }

    /// Reads one byte from the port: the low byte of the raw port value.
    pub fn read(&self, bus: &mut Bus) -> (value: u8)
        requires
            old(bus).wf(),
        ensures
            final(bus).wf(),
            value == old(bus).values@[self.port as int] & 0xFF,
            final(bus).values@ == old(bus).values@,
            final(bus).log@ == old(bus).log@.push(
                read_op(self.port, old(bus).values@[self.port as int]),
            ),
    {
        let raw = bus.read_raw(self.port);
        proof {
            assert((raw & 0xFF) as u8 == raw & 0xFF) by (bit_vector);
        }
        (raw & 0xFF) as u8
    }

    /// Writes one byte to the port.
    pub fn write(&self, bus: &mut Bus, value: u8)
        requires
            old(bus).wf(),
        ensures
            final(bus).wf(),
            final(bus).values@ == old(bus).values@.update(self.port as int, value as u32),
            final(bus).log@ == old(bus).log@.push(write_op(self.port, value as u32)),
    {
        bus.write_raw(self.port, value as u32);
    }
}

} // verus!
