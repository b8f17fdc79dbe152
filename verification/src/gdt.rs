//! The Global Descriptor Table: bit-exact 8-byte segment descriptors and the
//! fixed seven-entry flat-memory table that the boot code installs.
//!
//! The CPU consumes these records directly, so the field encodings are pinned
//! by contract: a descriptor built from a 32-bit base and a 20-bit limit must
//! reassemble to exactly those values.

use vstd::prelude::*;

verus! {

/// One 8-byte segment descriptor, with the base and limit split across
/// fields exactly as the processor expects them.
#[derive(Clone, Copy, PartialEq, Eq, Structural, Debug)]
pub struct SegmentDescriptor {
    pub limit_low: u16,
    pub base_low: u16,
    pub base_middle: u8,
    pub access: u8,
    pub granularity: u8,
    pub base_high: u8,
}

impl SegmentDescriptor {
    /// The 32-bit segment base encoded by the three base fields.
    pub open spec fn spec_base(self) -> int {
        self.base_low + self.base_middle * 0x1_0000 + self.base_high * 0x100_0000
    }

    /// The 20-bit segment limit encoded by `limit_low` and the low nibble of
    /// `granularity`.
    pub open spec fn spec_limit(self) -> int {
        self.limit_low + (self.granularity & 0x0F) * 0x1_0000
    }

    /// The descriptor whose every byte is zero.
    pub open spec fn spec_null() -> SegmentDescriptor {
        SegmentDescriptor {
            limit_low: 0,
            base_low: 0,
            base_middle: 0,
            access: 0,
            granularity: 0,
            base_high: 0,
        }
    }

    /// Builds a descriptor; the split fields reassemble to the requested
    /// base and to the low 20 bits of the requested limit, whatever the
    /// flags — the bit-exact layout invariant of the record.
    pub fn new(base: u32, limit: u32, access: u8, granularity: u8) -> (d: SegmentDescriptor)
        ensures
            d.base_low == base & 0xFFFF,
            d.base_middle == (base >> 16) & 0xFF,
            d.base_high == (base >> 24) & 0xFF,
            d.limit_low == limit & 0xFFFF,
            d.granularity == (((limit >> 16) as u8) & 0x0F) | (granularity & 0xF0),
            d.access == access,
            d.spec_base() == base,
            d.spec_limit() == limit & 0xFFFFF,
    {
        let d = SegmentDescriptor {
            base_low: base as u16,
            base_middle: (base >> 16) as u8,
            base_high: (base >> 24) as u8,
            limit_low: limit as u16,
            granularity: (((limit >> 16) as u8) & 0x0F) | (granularity & 0xF0),
            access: access,
        };
        proof {
            let gran = granularity;
            assert(base as u16 == base & 0xFFFF) by (bit_vector);
            assert((base >> 16) as u8 == (base >> 16) & 0xFF) by (bit_vector);
            assert((base >> 24) as u8 == (base >> 24) & 0xFF) by (bit_vector);
            assert(limit as u16 == limit & 0xFFFF) by (bit_vector);
            assert((base as u16) as u64 + ((base >> 16) as u8) as u64 * 0x1_0000 + ((base
                >> 24) as u8) as u64 * 0x100_0000 == base as u64) by (bit_vector);
            assert((limit as u16) as u64 + (((((limit >> 16) as u8) & 0x0F) | (gran & 0xF0))
                & 0x0F) as u64 * 0x1_0000 == (limit & 0xFFFFF) as u64) by (bit_vector);
        }
        d
    }
}

/// The six-byte pointer record handed to the processor's table-load
/// instruction: the table size minus one, then the physical base address.
#[derive(Clone, Copy, PartialEq, Eq, Structural, Debug)]
pub struct GdtPointer {
    pub limit: u16,
    pub base: u32,
}

/// The fixed seven-entry table: a null descriptor, then kernel and user
/// code, data and stack segments, all flat over the full 4 GiB.
#[derive(Clone, Copy, PartialEq, Eq, Structural, Debug)]
pub struct GlobalDescriptorTable {
    pub null_segment: SegmentDescriptor,
    pub code_segment: SegmentDescriptor,
    pub data_segment: SegmentDescriptor,
    pub stack_segment: SegmentDescriptor,
    pub user_code_segment: SegmentDescriptor,
    pub user_data_segment: SegmentDescriptor,
    pub user_stack_segment: SegmentDescriptor,
}

/// The number of bytes the installed table occupies: seven 8-byte entries.
pub const GDT_SIZE_BYTES: u16 = 56;

impl GlobalDescriptorTable {
    /// Every non-null entry is a flat 4 GiB segment: base 0, limit 0xFFFFF,
    /// 4 KiB granularity.
    pub open spec fn spec_flat(self) -> bool {
        &&& self.null_segment == SegmentDescriptor::spec_null()
        &&& self.code_segment.spec_base() == 0 && self.code_segment.spec_limit() == 0xFFFFF
        &&& self.data_segment.spec_base() == 0 && self.data_segment.spec_limit() == 0xFFFFF
        &&& self.stack_segment.spec_base() == 0 && self.stack_segment.spec_limit() == 0xFFFFF
        &&& self.user_code_segment.spec_base() == 0 && self.user_code_segment.spec_limit()
            == 0xFFFFF
        &&& self.user_data_segment.spec_base() == 0 && self.user_data_segment.spec_limit()
            == 0xFFFFF
        &&& self.user_stack_segment.spec_base() == 0 && self.user_stack_segment.spec_limit()
            == 0xFFFFF
    }

    /// The entries in table order, the null descriptor first.
    pub open spec fn spec_entries(self) -> Seq<SegmentDescriptor> {
        seq![
            self.null_segment,
            self.code_segment,
            self.data_segment,
            self.stack_segment,
            self.user_code_segment,
            self.user_data_segment,
            self.user_stack_segment,
        ]
    }

    /// Builds the boot-time table.  The access bytes distinguish kernel code,
    /// kernel data, the kernel stack and the three ring-3 segments; the
    /// granularity byte 0b11001111 selects 4 KiB pages and 32-bit operands.
    pub fn init() -> (t: GlobalDescriptorTable)
        ensures
            t.null_segment == SegmentDescriptor::spec_null(),
            t.code_segment.access == 0b10011010u8,
            t.data_segment.access == 0b10010010u8,
            t.stack_segment.access == 0b10010111u8,
            t.user_code_segment.access == 0xFAu8,
            t.user_data_segment.access == 0xF2u8,
            t.user_stack_segment.access == 0xF2u8,
            t.spec_flat(),
    {
        let t = GlobalDescriptorTable {
            null_segment: SegmentDescriptor::new(0, 0, 0, 0),
            code_segment: SegmentDescriptor::new(0, 0xFFFFF, 0b10011010, 0b11001111),
            data_segment: SegmentDescriptor::new(0, 0xFFFFF, 0b10010010, 0b11001111),
            stack_segment: SegmentDescriptor::new(0, 0xFFFFF, 0b10010111, 0b11001111),
            user_code_segment: SegmentDescriptor::new(0, 0xFFFFF, 0xFA, 0b11001111),
            user_data_segment: SegmentDescriptor::new(0, 0xFFFFF, 0xF2, 0b11001111),
            user_stack_segment: SegmentDescriptor::new(0, 0xFFFFF, 0xF2, 0b11001111),
        };
        proof {
            assert(0xFFFFFu32 & 0xFFFF == 0xFFFF
                && ((0xFFFFFu32 >> 16) as u8 & 0x0F) | (0b11001111u8 & 0xF0) == 0xCFu8
                && 0xCFu8 & 0x0F == 0x0F && 0u32 & 0xFFFF == 0 && (0u32 >> 16) & 0xFF == 0
                && (0u32 >> 24) & 0xFF == 0 && ((0u32 >> 16) as u8 & 0x0F) | (0u8 & 0xF0) == 0
                && 0u8 & 0x0F == 0) by (bit_vector);
        }
        t
    }

    /// The pointer record for a copy of this table placed at `base`:
    /// the limit field is the table size minus one.
    pub fn pointer_at(&self, base: u32) -> (p: GdtPointer)
        ensures
            p.limit == GDT_SIZE_BYTES - 1,
            p.base == base,
    {
        GdtPointer { limit: GDT_SIZE_BYTES - 1, base }
    }

    /// The 56-byte image that `install` copies to the table's physical
    /// location, one descriptor after another.
    pub fn table_bytes(&self) -> (b: Vec<u8>)
        ensures
            b@ == Self::spec_descriptor_bytes(self.spec_entries()),
    {
        let mut b: Vec<u8> = Vec::new();
        push_descriptor_bytes(&mut b, &self.null_segment);
        push_descriptor_bytes(&mut b, &self.code_segment);
        push_descriptor_bytes(&mut b, &self.data_segment);
        push_descriptor_bytes(&mut b, &self.stack_segment);
        push_descriptor_bytes(&mut b, &self.user_code_segment);
        push_descriptor_bytes(&mut b, &self.user_data_segment);
        push_descriptor_bytes(&mut b, &self.user_stack_segment);
        proof {
            reveal_with_fuel(GlobalDescriptorTable::spec_descriptor_bytes, 8);
            assert(b@ =~= Self::spec_descriptor_bytes(self.spec_entries()));
        }
        b
    }

    /// The byte image of a run of descriptors, in table order.
    pub open spec fn spec_descriptor_bytes(entries: Seq<SegmentDescriptor>) -> Seq<u8>
        decreases entries.len(),
    {
        if entries.len() == 0 {
            Seq::empty()
        } else {
            spec_descriptor_image(entries.first()) + Self::spec_descriptor_bytes(
                entries.drop_first(),
            )
        }
    }
}

impl GlobalDescriptorTable {
    /// Renders a hex dump of the installed table image to the screen, as
    /// the table-load instruction sees it at `base`: the pointer record's
    /// limit field counts the size minus one, so that many bytes appear.
    pub fn print(&self, writer: &mut crate::vga_buffer::Writer, base: u32)
        requires
            old(writer)@.wf(),
            base + GDT_SIZE_BYTES <= 0xFFFF_FFFF,
        ensures
            final(writer)@.wf(),
            final(writer)@ == crate::vga_buffer::spec_write_bytes(
                old(writer)@,
                crate::vga_buffer::spec_hexdump_text(
                    base as int,
                    Self::spec_descriptor_bytes(self.spec_entries()).take(
                        GDT_SIZE_BYTES - 1,
                    ),
                ),
            ),
    {
        let mut bytes = self.table_bytes();
        proof {
            assert(bytes@.len() == 56) by {
                reveal_with_fuel(GlobalDescriptorTable::spec_descriptor_bytes, 8);
            }
        }
        bytes.truncate((GDT_SIZE_BYTES - 1) as usize);
        proof {
            assert(bytes@ == Self::spec_descriptor_bytes(self.spec_entries()).take(
                GDT_SIZE_BYTES - 1,
            ));
        }
        crate::vga_buffer::hexdump(writer, base, &bytes);
    }
}

/// The 8 bytes of one descriptor as the CPU reads them: limit low word,
/// base low word, base middle byte, access byte, granularity byte, base
/// high byte, all little-endian.
pub open spec fn spec_descriptor_image(d: SegmentDescriptor) -> Seq<u8> {
    seq![
        (d.limit_low & 0xFF) as u8,
        (d.limit_low >> 8) as u8,
        (d.base_low & 0xFF) as u8,
        (d.base_low >> 8) as u8,
        d.base_middle,
        d.access,
        d.granularity,
        d.base_high,
    ]
}

fn push_descriptor_bytes(b: &mut Vec<u8>, d: &SegmentDescriptor)
    ensures
        final(b)@ == old(b)@ + spec_descriptor_image(*d),
{
    b.push((d.limit_low & 0xFF) as u8);
    b.push((d.limit_low >> 8) as u8);
    b.push((d.base_low & 0xFF) as u8);
    b.push((d.base_low >> 8) as u8);
    b.push(d.base_middle);
    b.push(d.access);
    b.push(d.granularity);
    b.push(d.base_high);
    proof {
        assert(b@ =~= old(b)@ + spec_descriptor_image(*d));
    }
}

} // verus!
