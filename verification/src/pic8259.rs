//! The chained 8259 programmable interrupt controllers.
//!
//! Two controllers sit on the bus: the primary at ports 0x20/0x21 and the
//! secondary at 0xA0/0xA1, the secondary chained through the primary's
//! line 2.  `initialize` remaps their vector offsets with the classic
//! three-byte command sequence, pacing the writes through the unused port
//! 0x80 and restoring the saved interrupt masks afterwards.
//! `notify_end_of_interrupt` performs the acknowledgment protocol: a vector
//! owned by the secondary is acknowledged on both controllers, the primary
//! always last, because the primary otherwise never learns that the chained
//! interrupt is over.
//!
//! Every method's contract states the exact port traffic it appends to the
//! bus log, so the hardware protocol is pinned down, not just the state.

use vstd::prelude::*;

use crate::io::read_op;
use crate::io::write_op;
use crate::io::Bus;
use crate::io::PortOp;

verus! {

/// Command sent to begin controller initialization.
pub const CMD_INIT: u8 = 0x11;

/// Command sent to acknowledge an interrupt.
pub const CMD_END_OF_INTERRUPT: u8 = 0x20;

/// The mode byte selecting 8086 operation.
pub const MODE_8086: u8 = 0x01;

/// A value may be moved through an I/O port of its width.  The bus carries
/// raw 32-bit port values; `of_bus` is the typed value a read yields.
pub trait PortRead: Sized {
    /// The typed value read from a port holding raw value `raw`.
    spec fn of_bus(raw: u32) -> Self;

    /// Reads a `Self` value from the given port, logging one access.
    fn read_from_port(bus: &mut Bus, port: u16) -> (r: Self)
        requires
            old(bus).wf(),
        ensures
            final(bus).wf(),
            r == Self::of_bus(old(bus).values@[port as int]),
            final(bus).values@ == old(bus).values@,
            final(bus).log@ == old(bus).log@.push(
                read_op(port, old(bus).values@[port as int]),
            ),
    ;
}

/// A value may be written through an I/O port of its width; `to_bus` is the
/// raw value the port then holds.
pub trait PortWrite: Sized {
    /// The raw port value left by writing `self`.
    spec fn to_bus(self) -> u32;

    /// Writes a `Self` value to the given port, logging one access.
    fn write_to_port(bus: &mut Bus, port: u16, value: Self)
        requires
            old(bus).wf(),
        ensures
            final(bus).wf(),
            final(bus).values@ == old(bus).values@.update(port as int, value.to_bus()),
            final(bus).log@ == old(bus).log@.push(write_op(port, value.to_bus())),
    ;
}

impl PortRead for u8 {
    open spec fn of_bus(raw: u32) -> u8 {
        (raw & 0xFF) as u8
    }

    fn read_from_port(bus: &mut Bus, port: u16) -> (r: u8) {
        let raw = bus.read_raw(port);
        (raw & 0xFF) as u8
    }
}

impl PortRead for u16 {
    open spec fn of_bus(raw: u32) -> u16 {
        (raw & 0xFFFF) as u16
    }

    fn read_from_port(bus: &mut Bus, port: u16) -> (r: u16) {
        let raw = bus.read_raw(port);
        (raw & 0xFFFF) as u16
    }
}

impl PortRead for u32 {
    open spec fn of_bus(raw: u32) -> u32 {
        raw
    }

    fn read_from_port(bus: &mut Bus, port: u16) -> (r: u32) {
        bus.read_raw(port)
    }
}

impl PortWrite for u8 {
    open spec fn to_bus(self) -> u32 {
        self as u32
    }

    fn write_to_port(bus: &mut Bus, port: u16, value: u8) {
        bus.write_raw(port, value as u32);
    }
}

impl PortWrite for u16 {
    open spec fn to_bus(self) -> u32 {
        self as u32
    }

    fn write_to_port(bus: &mut Bus, port: u16, value: u16) {
        bus.write_raw(port, value as u32);
    }
}

impl PortWrite for u32 {
    open spec fn to_bus(self) -> u32 {
        self
    }

    fn write_to_port(bus: &mut Bus, port: u16, value: u32) {
        bus.write_raw(port, value);
    }
}

/// A read only I/O port.
pub struct PortReadOnly<T> {
    pub port: u16,
    pub phantom: core::marker::PhantomData<T>,
}

/// A write only I/O port.
pub struct PortWriteOnly<T> {
    pub port: u16,
    pub phantom: core::marker::PhantomData<T>,
}

/// An I/O port carrying values of width `T`.
pub struct Port<T> {
    pub port: u16,
    pub phantom: core::marker::PhantomData<T>,
}

impl<T> PortReadOnly<T> {
    /// Creates a read only I/O port with the given port number.
    pub fn new(port: u16) -> (p: PortReadOnly<T>)
        ensures
            p.port == port,
    {
        PortReadOnly { port, phantom: core::marker::PhantomData }
    }
}

impl<T: PortRead> PortReadOnly<T> {
    /// Reads from the port.
    pub fn read(&self, bus: &mut Bus) -> (r: T)
        requires
            old(bus).wf(),
        ensures
            final(bus).wf(),
            r == T::of_bus(old(bus).values@[self.port as int]),
            final(bus).values@ == old(bus).values@,
            final(bus).log@ == old(bus).log@.push(
                read_op(self.port, old(bus).values@[self.port as int]),
            ),
    {
        T::read_from_port(bus, self.port)
    }
}

impl<T> PortWriteOnly<T> {
    /// Creates a write only I/O port with the given port number.
    pub fn new(port: u16) -> (p: PortWriteOnly<T>)
        ensures
            p.port == port,
    {
        PortWriteOnly { port, phantom: core::marker::PhantomData }
    }
}

impl<T: PortWrite> PortWriteOnly<T> {
    /// Writes to the port.
    pub fn write(&self, bus: &mut Bus, value: T)
        requires
            old(bus).wf(),
        ensures
            final(bus).wf(),
            final(bus).values@ == old(bus).values@.update(self.port as int, value.to_bus()),
            final(bus).log@ == old(bus).log@.push(write_op(self.port, value.to_bus())),
    {
        T::write_to_port(bus, self.port, value);
    }
}

impl<T> Port<T> {
    /// Creates an I/O port with the given port number.
    pub fn new(port: u16) -> (p: Port<T>)
        ensures
            p.port == port,
    {
        Port { port, phantom: core::marker::PhantomData }
    }
}

impl<T: PortRead> Port<T> {
    /// Reads from the port.
    pub fn read(&self, bus: &mut Bus) -> (r: T)
        requires
            old(bus).wf(),
        ensures
            final(bus).wf(),
            r == T::of_bus(old(bus).values@[self.port as int]),
            final(bus).values@ == old(bus).values@,
            final(bus).log@ == old(bus).log@.push(
                read_op(self.port, old(bus).values@[self.port as int]),
            ),
    {
        T::read_from_port(bus, self.port)
    }
}

impl<T: PortWrite> Port<T> {
    /// Writes to the port.
    pub fn write(&self, bus: &mut Bus, value: T)
        requires
            old(bus).wf(),
        ensures
            final(bus).wf(),
            final(bus).values@ == old(bus).values@.update(self.port as int, value.to_bus()),
            final(bus).log@ == old(bus).log@.push(write_op(self.port, value.to_bus())),
    {
        T::write_to_port(bus, self.port, value);
    }
}

/// An individual controller: its vector base offset and its two ports.
pub struct Pic {
    /// The base vector offset this controller's eight lines are mapped to.
    pub offset: u8,
    /// The port on which commands are sent.
    pub command: Port<u8>,
    /// The port on which data is sent and received.
    pub data: Port<u8>,
}

impl Pic {
    /// Whether this controller owns the given interrupt vector: each
    /// controller handles the eight vectors from its offset.
    pub open spec fn spec_handles(self, interrupt_id: u8) -> bool {
        self.offset <= interrupt_id < self.offset + 8
    }

    /// Are we in charge of handling the specified interrupt?
    pub fn handles_interrupt(&self, interupt_id: u8) -> (r: bool)
        ensures
            r == self.spec_handles(interupt_id),
    {
        self.offset <= interupt_id && (interupt_id as u16) < self.offset as u16 + 8
    }

    /// Acknowledges the interrupt in service: one end-of-interrupt command
    /// on the command port.
    pub fn end_of_interrupt(&self, bus: &mut Bus)
        requires
            old(bus).wf(),
        ensures
            final(bus).wf(),
            final(bus).values@ == old(bus).values@.update(
                self.command.port as int,
                CMD_END_OF_INTERRUPT as u32,
            ),
            final(bus).log@ == old(bus).log@.push(
                write_op(self.command.port, CMD_END_OF_INTERRUPT as u32),
            ),
    {
        self.command.write(bus, CMD_END_OF_INTERRUPT);
    }

    /// Reads the interrupt mask of this controller.
    pub fn read_mask(&self, bus: &mut Bus) -> (mask: u8)
        requires
            old(bus).wf(),
        ensures
            final(bus).wf(),
            mask == old(bus).values@[self.data.port as int] & 0xFF,
            final(bus).values@ == old(bus).values@,
            final(bus).log@ == old(bus).log@.push(
                read_op(self.data.port, old(bus).values@[self.data.port as int]),
            ),
    {
        let mask = self.data.read(bus);
        proof {
            let raw = old(bus).values@[self.data.port as int];
            assert((raw & 0xFF) as u8 == raw & 0xFF) by (bit_vector);
        }
        mask
    }

    /// Writes the interrupt mask of this controller.
    pub fn write_mask(&self, bus: &mut Bus, mask: u8)
        requires
            old(bus).wf(),
        ensures
            final(bus).wf(),
            final(bus).values@ == old(bus).values@.update(self.data.port as int, mask as u32),
            final(bus).log@ == old(bus).log@.push(write_op(self.data.port, mask as u32)),
    {
        self.data.write(bus, mask);
    }
}

/// The standard x86 pair of chained controllers.
pub struct ChainedPics {
    pub primary: Pic,
    pub secondary: Pic,
}

impl ChainedPics {
    /// The standard port assignment — primary on 0x20/0x21, secondary on
    /// 0xA0/0xA1 — with the secondary's vector base eight above the
    /// primary's, since each controller owns eight lines.
    pub open spec fn wf(self) -> bool {
        &&& self.primary.command.port == 0x20
        &&& self.primary.data.port == 0x21
        &&& self.secondary.command.port == 0xA0
        &&& self.secondary.data.port == 0xA1
        &&& self.secondary.offset == self.primary.offset + 8
    }

    /// Creates the interface for the two standard controllers with the
    /// desired vector offsets.
    pub fn new(offset1: u8, offset2: u8) -> (pics: ChainedPics)
        requires
            offset2 == offset1 + 8,
        ensures
            pics.wf(),
            pics.primary.offset == offset1,
            pics.secondary.offset == offset2,
    {
        ChainedPics {
            primary: Pic { offset: offset1, command: Port::new(0x20), data: Port::new(0x21) },
            secondary: Pic { offset: offset2, command: Port::new(0xA0), data: Port::new(0xA1) },
        }
    }

    /// The exact port traffic of `initialize`, as a function of the two
    /// mask bytes found on the data ports: the two mask reads, then the
    /// interleaved command sequence paced through port 0x80, then the mask
    /// restore.
    pub open spec fn spec_init_ops(self, raw1: u32, raw2: u32) -> Seq<PortOp> {
        seq![
            read_op(0x21, raw1),
            read_op(0xA1, raw2),
            write_op(0x20, CMD_INIT as u32),
            write_op(0x80, 0),
            write_op(0xA0, CMD_INIT as u32),
            write_op(0x80, 0),
            write_op(0x21, self.primary.offset as u32),
            write_op(0x80, 0),
            write_op(0xA1, self.secondary.offset as u32),
            write_op(0x80, 0),
            write_op(0x21, 4),
            write_op(0x80, 0),
            write_op(0xA1, 2),
            write_op(0x80, 0),
            write_op(0x21, MODE_8086 as u32),
            write_op(0x80, 0),
            write_op(0xA1, MODE_8086 as u32),
            write_op(0x80, 0),
            write_op(0x21, (raw1 & 0xFF) as u32),
            write_op(0xA1, (raw2 & 0xFF) as u32),
        ]
    }

    /// Remaps both controllers.  The three-byte initialization sequence is
    /// sent to each: base offset, chain configuration, 8086 mode.  The
    /// saved masks are restored at the end, so the remap unmasks nothing;
    /// in particular the data ports hold the same mask bytes afterwards.
    pub fn initialize(&self, bus: &mut Bus)
        requires
            old(bus).wf(),
            self.wf(),
        ensures
            final(bus).wf(),
            final(bus).log@ == old(bus).log@ + self.spec_init_ops(
                old(bus).values@[0x21],
                old(bus).values@[0xA1],
            ),
            final(bus).values@[0x21] == old(bus).values@[0x21] & 0xFF,
            final(bus).values@[0xA1] == old(bus).values@[0xA1] & 0xFF,
            final(bus).values@[0x20] == CMD_INIT as u32,
            final(bus).values@[0xA0] == CMD_INIT as u32,
            final(bus).values@[0x80] == 0u32,
            forall|p: int|
                0 <= p < crate::io::PORT_SPACE && p != 0x20 && p != 0x21 && p != 0x80 && p != 0xA0
                    && p != 0xA1 ==> final(bus).values@[p] == old(bus).values@[p],
    {
        let wait_port: Port<u8> = Port::new(0x80);

        // Save the current interrupt masks, to restore them when done.
        let saved_mask_1 = self.primary.read_mask(bus);
        let saved_mask_2 = self.secondary.read_mask(bus);

        // Tell each controller to expect a three-byte initialization
        // sequence on its data port.
        self.primary.command.write(bus, CMD_INIT);
        wait_port.write(bus, 0);
        self.secondary.command.write(bus, CMD_INIT);
        wait_port.write(bus, 0);

        // Byte 1: the base vector offsets.
        self.primary.data.write(bus, self.primary.offset);
        wait_port.write(bus, 0);
        self.secondary.data.write(bus, self.secondary.offset);
        wait_port.write(bus, 0);

        // Byte 2: the chaining between the two controllers.
        self.primary.data.write(bus, 4);
        wait_port.write(bus, 0);
        self.secondary.data.write(bus, 2);
        wait_port.write(bus, 0);

        // Byte 3: the mode.
        self.primary.data.write(bus, MODE_8086);
        wait_port.write(bus, 0);
        self.secondary.data.write(bus, MODE_8086);
        wait_port.write(bus, 0);

        // Restore the saved masks.
        self.primary.write_mask(bus, saved_mask_1);
        self.secondary.write_mask(bus, saved_mask_2);

        proof {
            assert(bus.log@ =~= old(bus).log@ + self.spec_init_ops(
                old(bus).values@[0x21],
                old(bus).values@[0xA1],
            ));
            assert(bus.values@ =~= old(bus).values@.update(0x21, (old(bus).values@[0x21]
                & 0xFF) as u32).update(0xA1, (old(bus).values@[0xA1] & 0xFF) as u32).update(
                0x20,
                CMD_INIT as u32,
            ).update(0xA0, CMD_INIT as u32).update(0x80, 0u32));
        }
    }

    /// Reads the interrupt masks of both controllers.
    pub fn read_masks(&self, bus: &mut Bus) -> (masks: [u8; 2])
        requires
            old(bus).wf(),
            self.wf(),
        ensures
            final(bus).wf(),
            masks@ == seq![
                (old(bus).values@[0x21] & 0xFF) as u8,
                (old(bus).values@[0xA1] & 0xFF) as u8,
            ],
            final(bus).values@ == old(bus).values@,
            final(bus).log@ == old(bus).log@.push(read_op(0x21, old(bus).values@[0x21])).push(
                read_op(0xA1, old(bus).values@[0xA1]),
            ),
    {
        let m1 = self.primary.read_mask(bus);
        let m2 = self.secondary.read_mask(bus);
        let masks = [m1, m2];
        proof {
            assert(masks@ =~= seq![m1, m2]);
        }
        masks
    }

    /// Writes the interrupt masks of both controllers.
    pub fn write_masks(&self, bus: &mut Bus, mask1: u8, mask2: u8)
        requires
            old(bus).wf(),
            self.wf(),
        ensures
            final(bus).wf(),
            final(bus).values@ == old(bus).values@.update(0x21, mask1 as u32).update(
                0xA1,
                mask2 as u32,
            ),
            final(bus).log@ == old(bus).log@.push(write_op(0x21, mask1 as u32)).push(
                write_op(0xA1, mask2 as u32),
            ),
    {
        self.primary.write_mask(bus, mask1);
        self.secondary.write_mask(bus, mask2);
    }

    /// Disables both controllers by masking every interrupt line.
    pub fn disable(&self, bus: &mut Bus)
        requires
            old(bus).wf(),
            self.wf(),
        ensures
            final(bus).wf(),
            final(bus).values@ == old(bus).values@.update(0x21, 0xFFu32).update(0xA1, 0xFFu32),
            final(bus).log@ == old(bus).log@.push(write_op(0x21, 0xFF)).push(write_op(0xA1, 0xFF)),
    {
        self.write_masks(bus, 0xFF, 0xFF);
    }

    /// Whether either controller owns the given interrupt vector.
    pub open spec fn spec_handles(self, interrupt_id: u8) -> bool {
        self.primary.spec_handles(interrupt_id) || self.secondary.spec_handles(interrupt_id)
    }

    /// Do we handle this interrupt?
    pub fn handles_interrupt(&self, interrupt_id: u8) -> (r: bool)
        ensures
            r == self.spec_handles(interrupt_id),
    {
        self.primary.handles_interrupt(interrupt_id) || self.secondary.handles_interrupt(
            interrupt_id,
        )
    }

    /// The acknowledgment writes owed for a vector: both controllers when
    /// the secondary owns it (the secondary first, the primary always
    /// last), the primary alone for its own vectors, nothing for a vector
    /// neither controller owns.
    pub open spec fn spec_eoi_ops(self, interrupt_id: u8) -> Seq<PortOp> {
        if self.secondary.spec_handles(interrupt_id) {
            seq![
                write_op(0xA0, CMD_END_OF_INTERRUPT as u32),
                write_op(0x20, CMD_END_OF_INTERRUPT as u32),
            ]
        } else if self.primary.spec_handles(interrupt_id) {
            seq![write_op(0x20, CMD_END_OF_INTERRUPT as u32)]
        } else {
            Seq::empty()
        }
    }

    /// Acknowledges a handled interrupt on every controller that needs to
    /// know: interrupts from the secondary are chained through the primary,
    /// so the primary is acknowledged last in that case.
    pub fn notify_end_of_interrupt(&self, bus: &mut Bus, interrupt_id: u8)
        requires
            old(bus).wf(),
            self.wf(),
        ensures
            final(bus).wf(),
            final(bus).log@ == old(bus).log@ + self.spec_eoi_ops(interrupt_id),
            forall|p: int|
                0 <= p < crate::io::PORT_SPACE && p != 0x20 && p != 0xA0 ==> final(bus).values@[p]
                    == old(bus).values@[p],
    {
        if self.handles_interrupt(interrupt_id) {
            if self.secondary.handles_interrupt(interrupt_id) {
                self.secondary.end_of_interrupt(bus);
            }
            self.primary.end_of_interrupt(bus);
        }
        proof {
            assert(bus.log@ =~= old(bus).log@ + self.spec_eoi_ops(interrupt_id));
        }
    }
}

/// An end-of-interrupt for a vector owned by the secondary controller
/// acknowledges both controllers, and the primary is acknowledged last.
pub proof fn lemma_eoi_secondary_acknowledges_both(pics: ChainedPics, interrupt_id: u8)
    requires
        pics.secondary.spec_handles(interrupt_id),
    ensures
        pics.spec_eoi_ops(interrupt_id).len() == 2,
        pics.spec_eoi_ops(interrupt_id)[0] == write_op(0xA0, CMD_END_OF_INTERRUPT as u32),
        pics.spec_eoi_ops(interrupt_id)[1] == write_op(0x20, CMD_END_OF_INTERRUPT as u32),
{
}

} // verus!
