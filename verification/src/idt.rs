//! Interrupt gate descriptors in the 32-bit format: the handler offset
//! split across the two ends of the 8-byte record, with the code-segment
//! selector and the type/attribute byte between them.

use vstd::prelude::*;

verus! {

/// One 32-bit interrupt gate: handler offset low half, selector, the
/// mandatory zero byte, type and attributes, offset high half.
#[derive(Clone, Copy, PartialEq, Eq, Structural, Debug)]
pub struct InterruptDescriptor32 {
    pub offset_1: u16,
    pub selector: u16,
    pub zero: u8,
    pub type_attributes: u8,
    pub offset_2: u16,
}

impl InterruptDescriptor32 {
    /// The 32-bit handler offset the two halves encode.
    pub open spec fn spec_offset(self) -> int {
        self.offset_1 + self.offset_2 * 0x1_0000
    }

    /// The all-zero gate: not present, so the vector is unhandled.
    pub open spec fn spec_absent() -> InterruptDescriptor32 {
        InterruptDescriptor32 { offset_1: 0, selector: 0, zero: 0, type_attributes: 0, offset_2: 0 }
    }

    /// Builds a gate for a handler offset, selector and attribute byte.
    pub fn new(offset: u32, selector: u16, type_attributes: u8) -> (d: InterruptDescriptor32)
        ensures
            d.offset_1 == offset & 0xFFFF,
            d.offset_2 == (offset >> 16) & 0xFFFF,
            d.selector == selector,
            d.zero == 0,
            d.type_attributes == type_attributes,
            d.spec_offset() == offset,
    {
        let d = InterruptDescriptor32 {
            offset_1: (offset & 0xFFFF) as u16,
            selector,
            zero: 0,
            type_attributes,
            offset_2: ((offset >> 16) & 0xFFFF) as u16,
        };
        proof {
            assert((offset & 0xFFFF) as u16 == offset & 0xFFFF && ((offset >> 16) & 0xFFFF) as u16
                == (offset >> 16) & 0xFFFF && ((offset & 0xFFFF) as u16) as u64 + (((offset >> 16)
                & 0xFFFF) as u16) as u64 * 0x1_0000 == offset as u64) by (bit_vector);
        }
        d
    }
}

/// The six-byte pointer record for the table-load instruction: the table
/// size minus one, then its base address.
#[derive(Clone, Copy, PartialEq, Eq, Structural, Debug)]
pub struct DescriptorTablePointer {
    pub size: u16,
    pub offset: u32,
}

/// The table of 256 gates, one per interrupt vector.
pub struct InterruptDescriptorTable {
    pub descriptors: Vec<InterruptDescriptor32>,
}

impl InterruptDescriptorTable {
    /// A well-formed table holds exactly one gate per vector.
    pub open spec fn wf(&self) -> bool {
        self.descriptors@.len() == 256
    }

    /// A table of absent gates: every vector unhandled.
    pub fn new() -> (t: InterruptDescriptorTable)
        ensures
            t.wf(),
            t.descriptors@ == Seq::new(256, |i: int| InterruptDescriptor32::spec_absent()),
    {
        let mut descriptors: Vec<InterruptDescriptor32> = Vec::new();
        let mut i: usize = 0;
        while i < 256
            invariant
                i <= 256,
                descriptors@.len() == i,
                forall|j: int|
                    0 <= j < i ==> descriptors@[j] == InterruptDescriptor32::spec_absent(),
            decreases 256 - i,
        {
            descriptors.push(
                InterruptDescriptor32 {
                    offset_1: 0,
                    selector: 0,
                    zero: 0,
                    type_attributes: 0,
                    offset_2: 0,
                },
            );
            i += 1;
        }
        let t = InterruptDescriptorTable { descriptors };
        proof {
            assert(t.descriptors@ =~= Seq::new(
                256,
                |i: int| InterruptDescriptor32::spec_absent(),
            ));
        }
        t
    }

    /// Installs one gate at its vector.
    pub fn set_descriptor(&mut self, index: usize, descriptor: InterruptDescriptor32)
        requires
            old(self).wf(),
            index < 256,
        ensures
            final(self).wf(),
            final(self).descriptors@ == old(self).descriptors@.update(index as int, descriptor),
    {
        self.descriptors[index] = descriptor;
    }

    /// The pointer record for a copy of this table at `base`: 256 8-byte
    /// gates, so the size field is 2047.
    pub fn pointer(&self, base: u32) -> (p: DescriptorTablePointer)
        ensures
            p.size == 2047,
            p.offset == base,
    {
        DescriptorTablePointer { size: 2047, offset: base }
    }
}

} // verus!
