//! The interrupt layer: the vector table wiring, and the timer and
//! keyboard service routines as verified transitions over the machine
//! model.
//!
//! Vectors 0 to 31 are CPU faults and traps; the remapped controllers put
//! the timer on vector 32 and the keyboard on vector 33.  Both interrupt
//! routines end by acknowledging their controller — their contracts state
//! the exact acknowledgment traffic, so no path can skip it.

use vstd::prelude::*;

use crate::cli::handle_cli_caret_blink;
use crate::cli::handle_cli_change;
use crate::cli::spec_caret_blink;
use crate::cli::spec_cli_apply;
use crate::cli::spec_render_prompt;
use crate::cli::CliState;
use crate::cli::CommandAction;
use crate::io::read_op;
use crate::io::Bus;
use crate::io::Port;
use crate::keyboard::handle_scancode;
use crate::keyboard::spec_decode_output;
use crate::keyboard::spec_decode_state;
use crate::keyboard::KeyboardState;
use crate::pic8259::ChainedPics;
use crate::vga_buffer::Writer;

verus! {

/// The vector base the primary controller is remapped to.
pub const PIC_1_OFFSET: u8 = 32;

/// The vector base the secondary controller is remapped to.
pub const PIC_2_OFFSET: u8 = 40;

/// The processor's interrupt-enable flag, modelled as data.  On hardware
/// it lives in the flags register and moves only through the dedicated
/// enable/disable instructions; here those become field writes, so the
/// save-and-restore protocol of a critical section can be stated and
/// proved.
#[derive(Clone, Copy, PartialEq, Eq, Structural, Debug)]
pub struct InterruptFlag {
    pub enabled: bool,
}

/// Returns whether interrupts are enabled.
pub fn are_interrupts_enabled(flag: &InterruptFlag) -> (e: bool)
    ensures
        e == flag.enabled,
{
    flag.enabled
}

/// Runs a closure with interrupts disabled, restoring the flag afterwards
/// on every path: the result satisfies the closure's own contract, and the
/// flag leaves exactly as it entered, so no critical section can strand
/// the machine with interrupts off.
pub fn without_interrupts<FuncResult, Func: FnOnce() -> FuncResult>(
    flag: &mut InterruptFlag,
    func: Func,
) -> (ret: FuncResult)
    requires
        call_requires(func, ()),
    ensures
        call_ensures(func, (), ret),
        final(flag).enabled == old(flag).enabled,
{
    let saved_intpt_flag = are_interrupts_enabled(flag);

    if saved_intpt_flag {
        flag.enabled = false;
    }

    let ret = func();

    if saved_intpt_flag {
        flag.enabled = true;
    }

    ret
}

/// The stack frame the CPU pushes on interrupt or exception entry.
#[derive(Clone, Copy, PartialEq, Eq, Structural, Debug)]
pub struct InterruptStackFrame {
    pub instruction_pointer: u32,
    pub code_segment: u32,
    pub cpu_flags: u32,
    pub stack_pointer: u32,
    pub stack_segment: u32,
}

/// One interrupt gate: handler offset low half, the kernel code-segment
/// selector, the mandatory zero byte, type and attributes, offset high
/// half.
#[derive(Clone, Copy, PartialEq, Eq, Structural, Debug)]
pub struct InterruptDescriptor {
    pub isr_low: u16,
    pub kernel_cs: u16,
    pub zero: u8,
    pub type_attributes: u8,
    pub isr_high: u16,
}

/// The descriptor record wired to a handler address; its selector field
/// holds 0x8, the kernel code segment.
pub open spec fn spec_gate(offset: u32, type_attributes: u8) -> InterruptDescriptor {
    InterruptDescriptor {
        isr_low: (offset & 0xFFFF) as u16,
        kernel_cs: 0x8,
        zero: 0,
        type_attributes,
        isr_high: ((offset >> 16) & 0xFFFF) as u16,
    }
}

impl InterruptDescriptor {
    /// The 32-bit handler offset the two halves encode.
    pub open spec fn spec_offset(self) -> int {
        self.isr_low + self.isr_high * 0x1_0000
    }

    /// The all-zero gate: not present, the vector is unhandled.
    pub open spec fn spec_absent() -> InterruptDescriptor {
        InterruptDescriptor { isr_low: 0, kernel_cs: 0, zero: 0, type_attributes: 0, isr_high: 0 }
    }

    /// Builds a gate for a handler offset and attribute byte.
    pub fn new(offset: u32, type_attributes: u8) -> (d: InterruptDescriptor)
        ensures
            d == spec_gate(offset, type_attributes),
            d.spec_offset() == offset,
    {
        let d = InterruptDescriptor {
            isr_low: (offset & 0xFFFF) as u16,
            kernel_cs: 0x8,
            zero: 0,
            type_attributes,
            isr_high: ((offset >> 16) & 0xFFFF) as u16,
        };
        proof {
            assert(((offset & 0xFFFF) as u16) as u64 + (((offset >> 16) & 0xFFFF) as u16) as u64
                * 0x1_0000 == offset as u64) by (bit_vector);
        }
        d
    }
}

/// The pointer record the table-load instruction reads: size minus one,
/// then the base address.
#[derive(Clone, Copy, PartialEq, Eq, Structural, Debug)]
pub struct IDTR {
    pub limit: u16,
    pub base: u32,
}

/// The table of 256 gates together with its pointer record.
pub struct InterruptDescriptorTable {
    pub descriptors: Vec<InterruptDescriptor>,
    pub ptr: IDTR,
}

impl InterruptDescriptorTable {
    /// A well-formed table holds exactly one gate per vector.
    pub open spec fn wf(&self) -> bool {
        self.descriptors@.len() == 256
    }

    /// A table of absent gates and a null pointer record.
    pub fn new() -> (t: InterruptDescriptorTable)
        ensures
            t.wf(),
            t.descriptors@ == Seq::new(256, |i: int| InterruptDescriptor::spec_absent()),
            t.ptr == (IDTR { limit: 0, base: 0 }),
    {
        let mut descriptors: Vec<InterruptDescriptor> = Vec::new();
        let mut i: usize = 0;
        while i < 256
            invariant
                i <= 256,
                descriptors@.len() == i,
                forall|j: int| 0 <= j < i ==> descriptors@[j] == InterruptDescriptor::spec_absent(),
            decreases 256 - i,
        {
            descriptors.push(
                InterruptDescriptor {
                    isr_low: 0,
                    kernel_cs: 0,
                    zero: 0,
                    type_attributes: 0,
                    isr_high: 0,
                },
            );
            i += 1;
        }
        let t = InterruptDescriptorTable { descriptors, ptr: IDTR { limit: 0, base: 0 } };
        proof {
            assert(t.descriptors@ =~= Seq::new(256, |i: int| InterruptDescriptor::spec_absent()));
        }
        t
    }

    /// Installs one gate at its vector.
    pub fn set_descriptor(&mut self, index: usize, descriptor: InterruptDescriptor)
        requires
            old(self).wf(),
            index < 256,
        ensures
            final(self).wf(),
            final(self).descriptors@ == old(self).descriptors@.update(index as int, descriptor),
            final(self).ptr == old(self).ptr,
    {
        self.descriptors[index] = descriptor;
    }
}

/// The wired interrupt vectors, by name.  Vector 0x0F and vectors 0x16 to
/// 0x1B are reserved by the processor and carry no gate.
#[derive(Clone, Copy, PartialEq, Eq, Structural, Debug)]
pub enum InterruptIndex {
    DivisionByZero,
    Debugger,
    NMI,
    Breakpoint,
    Overflow,
    Bounds,
    InvalidOpcode,
    CoprocessorNotAvailable,
    DoubleFault,
    CoprocessorSegmentOverrun,
    InvalidTaskStateSegment,
    SegmentNotPresent,
    StackFault,
    GeneralProtectionFault,
    PageFault,
    MathFault,
    AlignmentCheck,
    MachineCheck,
    SIMDException,
    VirtualizationException,
    ControlProtectionException,
    HypervisorInjectionException,
    VMMException,
    SecurityException,
    Timer,
    Keyboard,
}

/// The vector number of a named interrupt.
pub open spec fn spec_vector(i: InterruptIndex) -> u8 {
    match i {
        InterruptIndex::DivisionByZero => 0x00,
        InterruptIndex::Debugger => 0x01,
        InterruptIndex::NMI => 0x02,
        InterruptIndex::Breakpoint => 0x03,
        InterruptIndex::Overflow => 0x04,
        InterruptIndex::Bounds => 0x05,
        InterruptIndex::InvalidOpcode => 0x06,
        InterruptIndex::CoprocessorNotAvailable => 0x07,
        InterruptIndex::DoubleFault => 0x08,
        InterruptIndex::CoprocessorSegmentOverrun => 0x09,
        InterruptIndex::InvalidTaskStateSegment => 0x0A,
        InterruptIndex::SegmentNotPresent => 0x0B,
        InterruptIndex::StackFault => 0x0C,
        InterruptIndex::GeneralProtectionFault => 0x0D,
        InterruptIndex::PageFault => 0x0E,
        InterruptIndex::MathFault => 0x10,
        InterruptIndex::AlignmentCheck => 0x11,
        InterruptIndex::MachineCheck => 0x12,
        InterruptIndex::SIMDException => 0x13,
        InterruptIndex::VirtualizationException => 0x14,
        InterruptIndex::ControlProtectionException => 0x15,
        InterruptIndex::HypervisorInjectionException => 0x1C,
        InterruptIndex::VMMException => 0x1D,
        InterruptIndex::SecurityException => 0x1E,
        InterruptIndex::Timer => 32,
        InterruptIndex::Keyboard => 33,
    }
}

impl InterruptIndex {
    /// The vector number, as a byte.
    pub fn as_u8(self) -> (v: u8)
        ensures
            v == spec_vector(self),
    {
        match self {
            InterruptIndex::DivisionByZero => 0x00,
            InterruptIndex::Debugger => 0x01,
            InterruptIndex::NMI => 0x02,
            InterruptIndex::Breakpoint => 0x03,
            InterruptIndex::Overflow => 0x04,
            InterruptIndex::Bounds => 0x05,
            InterruptIndex::InvalidOpcode => 0x06,
            InterruptIndex::CoprocessorNotAvailable => 0x07,
            InterruptIndex::DoubleFault => 0x08,
            InterruptIndex::CoprocessorSegmentOverrun => 0x09,
            InterruptIndex::InvalidTaskStateSegment => 0x0A,
            InterruptIndex::SegmentNotPresent => 0x0B,
            InterruptIndex::StackFault => 0x0C,
            InterruptIndex::GeneralProtectionFault => 0x0D,
            InterruptIndex::PageFault => 0x0E,
            InterruptIndex::MathFault => 0x10,
            InterruptIndex::AlignmentCheck => 0x11,
            InterruptIndex::MachineCheck => 0x12,
            InterruptIndex::SIMDException => 0x13,
            InterruptIndex::VirtualizationException => 0x14,
            InterruptIndex::ControlProtectionException => 0x15,
            InterruptIndex::HypervisorInjectionException => 0x1C,
            InterruptIndex::VMMException => 0x1D,
            InterruptIndex::SecurityException => 0x1E,
            InterruptIndex::Timer => 32,
            InterruptIndex::Keyboard => 33,
        }
    }

    /// The vector number, as an index.
    pub fn as_usize(self) -> (v: usize)
        ensures
            v == spec_vector(self),
    {
        self.as_u8() as usize
    }

    /// Whether the default policy for this vector is to halt the machine:
    /// every fault and trap halts except the breakpoint trap, and the two
    /// external interrupts resume.
    pub fn halts(self) -> (h: bool)
        ensures
            h == (spec_vector(self) < 32 && self != InterruptIndex::Breakpoint),
    {
        match self {
            InterruptIndex::Breakpoint => false,
            InterruptIndex::Timer => false,
            InterruptIndex::Keyboard => false,
            _ => true,
        }
    }
}

/// The handler-table slot a vector is wired from, or -1 for a vector
/// without a gate.
pub open spec fn spec_isr_slot(v: int) -> int {
    if 0x00 <= v <= 0x0E {
        v
    } else if 0x10 <= v <= 0x15 {
        v - 1
    } else if 0x1C <= v <= 0x1E {
        v - 7
    } else if v == 32 {
        24
    } else if v == 33 {
        25
    } else {
        -1
    }
}

/// The number of wired vectors.
pub const ISR_COUNT: usize = 26;

/// Builds the vector table: a present 32-bit interrupt gate (attribute
/// 0x8E) for each of the 26 wired vectors, wired to the corresponding
/// handler address, every other vector left absent, and the pointer record
/// set for a table at `idt_base`.
#[verifier::rlimit(60)]
pub fn init_idt(isrs: &Vec<u32>, idt_base: u32) -> (idt: InterruptDescriptorTable)
    requires
        isrs@.len() == ISR_COUNT,
    ensures
        idt.wf(),
        idt.descriptors@ == Seq::new(
            256,
            |v: int|
                if spec_isr_slot(v) >= 0 {
                    spec_gate(isrs@[spec_isr_slot(v)], 0x8E)
                } else {
                    InterruptDescriptor::spec_absent()
                },
        ),
        idt.ptr == (IDTR { limit: 2047, base: idt_base }),
{
    let mut idt = InterruptDescriptorTable::new();

    idt.set_descriptor(InterruptIndex::DivisionByZero.as_usize(), InterruptDescriptor::new(isrs[0], 0x8E));
    idt.set_descriptor(InterruptIndex::Debugger.as_usize(), InterruptDescriptor::new(isrs[1], 0x8E));
    idt.set_descriptor(InterruptIndex::NMI.as_usize(), InterruptDescriptor::new(isrs[2], 0x8E));
    idt.set_descriptor(InterruptIndex::Breakpoint.as_usize(), InterruptDescriptor::new(isrs[3], 0x8E));
    idt.set_descriptor(InterruptIndex::Overflow.as_usize(), InterruptDescriptor::new(isrs[4], 0x8E));
    idt.set_descriptor(InterruptIndex::Bounds.as_usize(), InterruptDescriptor::new(isrs[5], 0x8E));
    idt.set_descriptor(InterruptIndex::InvalidOpcode.as_usize(), InterruptDescriptor::new(isrs[6], 0x8E));
    idt.set_descriptor(InterruptIndex::CoprocessorNotAvailable.as_usize(), InterruptDescriptor::new(isrs[7], 0x8E));
    idt.set_descriptor(InterruptIndex::DoubleFault.as_usize(), InterruptDescriptor::new(isrs[8], 0x8E));
    idt.set_descriptor(InterruptIndex::CoprocessorSegmentOverrun.as_usize(), InterruptDescriptor::new(isrs[9], 0x8E));
    idt.set_descriptor(InterruptIndex::InvalidTaskStateSegment.as_usize(), InterruptDescriptor::new(isrs[10], 0x8E));
    idt.set_descriptor(InterruptIndex::SegmentNotPresent.as_usize(), InterruptDescriptor::new(isrs[11], 0x8E));
    idt.set_descriptor(InterruptIndex::StackFault.as_usize(), InterruptDescriptor::new(isrs[12], 0x8E));
    idt.set_descriptor(InterruptIndex::GeneralProtectionFault.as_usize(), InterruptDescriptor::new(isrs[13], 0x8E));
    idt.set_descriptor(InterruptIndex::PageFault.as_usize(), InterruptDescriptor::new(isrs[14], 0x8E));
    idt.set_descriptor(InterruptIndex::MathFault.as_usize(), InterruptDescriptor::new(isrs[15], 0x8E));
    idt.set_descriptor(InterruptIndex::AlignmentCheck.as_usize(), InterruptDescriptor::new(isrs[16], 0x8E));
    idt.set_descriptor(InterruptIndex::MachineCheck.as_usize(), InterruptDescriptor::new(isrs[17], 0x8E));
    idt.set_descriptor(InterruptIndex::SIMDException.as_usize(), InterruptDescriptor::new(isrs[18], 0x8E));
    idt.set_descriptor(InterruptIndex::VirtualizationException.as_usize(), InterruptDescriptor::new(isrs[19], 0x8E));
    idt.set_descriptor(InterruptIndex::ControlProtectionException.as_usize(), InterruptDescriptor::new(isrs[20], 0x8E));
    idt.set_descriptor(InterruptIndex::HypervisorInjectionException.as_usize(), InterruptDescriptor::new(isrs[21], 0x8E));
    idt.set_descriptor(InterruptIndex::VMMException.as_usize(), InterruptDescriptor::new(isrs[22], 0x8E));
    idt.set_descriptor(InterruptIndex::SecurityException.as_usize(), InterruptDescriptor::new(isrs[23], 0x8E));
    idt.set_descriptor(InterruptIndex::Timer.as_usize(), InterruptDescriptor::new(isrs[24], 0x8E));
    idt.set_descriptor(InterruptIndex::Keyboard.as_usize(), InterruptDescriptor::new(isrs[25], 0x8E));

    idt.ptr = IDTR { limit: 2047, base: idt_base };

    proof {
        assert(idt.descriptors@ =~= Seq::new(
            256,
            |v: int|
                if spec_isr_slot(v) >= 0 {
                    spec_gate(isrs@[spec_isr_slot(v)], 0x8E)
                } else {
                    InterruptDescriptor::spec_absent()
                },
        ));
    }
    idt
}

/// One timer tick: the very first tick draws the initial prompt; every
/// eighth tick blinks the caret; and the controller is always acknowledged
/// before returning.  Returns the new tick counter.
pub fn timer_isr(
    ticks: i8,
    cli: &mut CliState,
    kb: &mut KeyboardState,
    writer: &mut Writer,
    pics: &ChainedPics,
    bus: &mut Bus,
    stack_top: u32,
) -> (new_ticks: i8)
    requires
        -1 <= ticks <= 8,
        old(cli).wf(),
        old(writer)@.wf(),
        old(bus).wf(),
        pics.wf(),
        stack_top >= 0x80,
    ensures
        final(cli).wf(),
        final(writer)@.wf(),
        final(bus).wf(),
        0 <= new_ticks <= 8,
        new_ticks == (if ticks == 0 || ticks == 8 {
            1int
        } else {
            ticks + 1
        }),
        final(cli)@.line == old(cli)@.line,
        *final(kb) == *old(kb),
        final(cli)@.blink == (if ticks == 0 || ticks == 8 {
            !old(cli)@.blink
        } else {
            old(cli)@.blink
        }),
        final(writer)@ == ({
            let v1 = if ticks == -1 {
                spec_render_prompt(old(writer)@, old(cli)@.line)
            } else {
                old(writer)@
            };
            if ticks == 0 || ticks == 8 {
                spec_caret_blink(v1, old(cli)@.line.len() as int, old(cli)@.blink)
            } else {
                v1
            }
        }),
        final(bus).log@ == old(bus).log@ + pics.spec_eoi_ops(32),
        forall|p: int|
            0 <= p < crate::io::PORT_SPACE && p != 0x20 && p != 0xA0 ==> final(bus).values@[p]
                == old(bus).values@[p],
{
    if ticks == -1 {
        let no_input: Vec<u8> = Vec::new();
        let _act = handle_cli_change(cli, &no_input, kb, writer, stack_top);
    }

    let mut new_ticks = ticks;
    if new_ticks == 0 || new_ticks == 8 {
        new_ticks = 0;
        handle_cli_caret_blink(cli, writer);
    }
    new_ticks += 1;

    pics.notify_end_of_interrupt(bus, InterruptIndex::Timer.as_u8());
    new_ticks
}

/// One keyboard interrupt: reads the scancode waiting on port 0x60,
/// decodes it, feeds the output to the console, and acknowledges the
/// controller — the acknowledgment traffic is part of the contract, so no
/// path can skip it.  Returns what the dispatched command, if any, asked
/// for.
pub fn keyboard_interrupt_handler(
    cli: &mut CliState,
    kb: &mut KeyboardState,
    writer: &mut Writer,
    pics: &ChainedPics,
    bus: &mut Bus,
    stack_top: u32,
) -> (act: CommandAction)
    requires
        old(cli).wf(),
        old(writer)@.wf(),
        old(bus).wf(),
        pics.wf(),
        stack_top >= 0x80,
    ensures
        final(cli).wf(),
        final(writer)@.wf(),
        final(bus).wf(),
        final(cli)@.blink == old(cli)@.blink,
        ({
            let raw = old(bus).values@[0x60];
            let scancode = (raw & 0xFF) as u8;
            let kb1 = spec_decode_state(*old(kb), scancode);
            let out = spec_decode_output(*old(kb), scancode);
            let (l2, kb2, v2, act2) = spec_cli_apply(
                old(cli)@.line,
                kb1,
                old(writer)@,
                out,
                stack_top,
            );
            &&& final(cli)@.line == l2
            &&& *final(kb) == kb2
            &&& act == act2
            &&& final(writer)@ == (if act2 matches CommandAction::Halt { .. } {
                v2
            } else {
                spec_render_prompt(v2, l2)
            })
            &&& final(bus).log@ == old(bus).log@.push(read_op(0x60, raw)) + pics.spec_eoi_ops(33)
        }),
        forall|p: int|
            0 <= p < crate::io::PORT_SPACE && p != 0x20 && p != 0xA0 ==> final(bus).values@[p]
                == old(bus).values@[p],
{
    let port = Port::new(0x60);
    let scancode: u8 = port.read(bus);

    let scancode_changes = handle_scancode(scancode, kb);
    let act = handle_cli_change(cli, &scancode_changes, kb, writer, stack_top);

    pics.notify_end_of_interrupt(bus, InterruptIndex::Keyboard.as_u8());
    act
}

} // verus!
