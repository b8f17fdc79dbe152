use kernel_core::gdt::GlobalDescriptorTable;
use kernel_core::gdt::SegmentDescriptor;
use kernel_core::idt::DescriptorTablePointer;
use kernel_core::idt::InterruptDescriptor32;
use kernel_core::interrupts::init_idt;
use kernel_core::interrupts::InterruptDescriptor;
use kernel_core::interrupts::InterruptIndex;

#[test]
fn segment_descriptor_splits_base_and_limit_exactly() {
    let d = SegmentDescriptor::new(0x12345678, 0xABCDE, 0x9A, 0xC0);
    assert_eq!(d.base_low, 0x5678);
    assert_eq!(d.base_middle, 0x34);
    assert_eq!(d.base_high, 0x12);
    assert_eq!(d.limit_low, 0xBCDE);
    // Low nibble: limit bits 16-19; high nibble: the flags.
    assert_eq!(d.granularity, 0xCA);
    assert_eq!(d.access, 0x9A);
}

#[test]
fn boot_gdt_has_the_seven_flat_segments() {
    let t = GlobalDescriptorTable::init();
    assert_eq!(t.null_segment, SegmentDescriptor::new(0, 0, 0, 0));
    for d in [
        t.code_segment,
        t.data_segment,
        t.stack_segment,
        t.user_code_segment,
        t.user_data_segment,
        t.user_stack_segment,
    ] {
        assert_eq!(d.base_low, 0);
        assert_eq!(d.base_middle, 0);
        assert_eq!(d.base_high, 0);
        assert_eq!(d.limit_low, 0xFFFF);
        assert_eq!(d.granularity, 0xCF);
    }
    assert_eq!(t.code_segment.access, 0b10011010);
    assert_eq!(t.data_segment.access, 0b10010010);
    assert_eq!(t.stack_segment.access, 0b10010111);
    assert_eq!(t.user_code_segment.access, 0xFA);
    assert_eq!(t.user_data_segment.access, 0xF2);
    assert_eq!(t.user_stack_segment.access, 0xF2);
}

#[test]
fn gdt_pointer_counts_size_minus_one() {
    let t = GlobalDescriptorTable::init();
    let p = t.pointer_at(0x800);
    assert_eq!(p.limit, 55);
    assert_eq!(p.base, 0x800);
}

#[test]
fn gdt_image_is_byte_exact() {
    let t = GlobalDescriptorTable::init();
    let bytes = t.table_bytes();
    assert_eq!(bytes.len(), 56);
    // The null descriptor is all zero.
    assert_eq!(&bytes[0..8], &[0u8; 8]);
    // The kernel code segment: limit low, base low, base middle, access,
    // granularity, base high.
    assert_eq!(&bytes[8..16], &[0xFF, 0xFF, 0x00, 0x00, 0x00, 0x9A, 0xCF, 0x00]);
    assert_eq!(&bytes[16..24], &[0xFF, 0xFF, 0x00, 0x00, 0x00, 0x92, 0xCF, 0x00]);
}

#[test]
fn interrupt_gate_32_splits_the_offset() {
    let d = InterruptDescriptor32::new(0xDEADBEEF, 0x08, 0x8E);
    assert_eq!(d.offset_1, 0xBEEF);
    assert_eq!(d.offset_2, 0xDEAD);
    assert_eq!(d.selector, 0x08);
    assert_eq!(d.zero, 0);
    assert_eq!(d.type_attributes, 0x8E);
}

#[test]
fn idt32_table_starts_absent_and_takes_gates() {
    let mut t = kernel_core::idt::InterruptDescriptorTable::new();
    assert_eq!(t.descriptors.len(), 256);
    assert_eq!(t.descriptors[3].type_attributes, 0);
    let gate = InterruptDescriptor32::new(0x1234, 0x08, 0x8E);
    t.set_descriptor(3, gate);
    assert_eq!(t.descriptors[3], gate);
    let p: DescriptorTablePointer = t.pointer(0x2000);
    assert_eq!(p.size, 2047);
    assert_eq!(p.offset, 0x2000);
}

#[test]
fn interrupt_gate_fixes_the_kernel_selector() {
    let d = InterruptDescriptor::new(0x00CAFE10, 0x8E);
    assert_eq!(d.isr_low, 0xFE10);
    assert_eq!(d.isr_high, 0x00CA);
    assert_eq!(d.kernel_cs, 0x08);
    assert_eq!(d.zero, 0);
    assert_eq!(d.type_attributes, 0x8E);
}

#[test]
fn interrupt_index_vectors_match_the_map() {
    assert_eq!(InterruptIndex::DivisionByZero.as_u8(), 0x00);
    assert_eq!(InterruptIndex::Breakpoint.as_u8(), 0x03);
    assert_eq!(InterruptIndex::PageFault.as_u8(), 0x0E);
    assert_eq!(InterruptIndex::MathFault.as_u8(), 0x10);
    assert_eq!(InterruptIndex::SecurityException.as_u8(), 0x1E);
    assert_eq!(InterruptIndex::Timer.as_u8(), 32);
    assert_eq!(InterruptIndex::Keyboard.as_u8(), 33);
    assert_eq!(InterruptIndex::Keyboard.as_usize(), 33);
}

#[test]
fn fault_policy_halts_everything_but_breakpoint_and_irqs() {
    assert!(!InterruptIndex::Breakpoint.halts());
    assert!(!InterruptIndex::Timer.halts());
    assert!(!InterruptIndex::Keyboard.halts());
    assert!(InterruptIndex::DivisionByZero.halts());
    assert!(InterruptIndex::GeneralProtectionFault.halts());
}

#[test]
fn init_idt_wires_the_26_vectors_and_leaves_the_rest_absent() {
    let mut isrs: Vec<u32> = Vec::new();
    for k in 0..26u32 {
        isrs.push(0x0010_0000 + k);
    }
    let idt = init_idt(&isrs, 0x3000);
    assert_eq!(idt.descriptors.len(), 256);
    // The breakpoint gate holds the fourth handler address.
    let bp = idt.descriptors[3];
    assert_eq!(bp.isr_low, 0x0003);
    assert_eq!(bp.isr_high, 0x0010);
    assert_eq!(bp.kernel_cs, 0x08);
    assert_eq!(bp.type_attributes, 0x8E);
    // The reserved vector 0x0F carries no gate.
    assert_eq!(idt.descriptors[0x0F].type_attributes, 0);
    assert_eq!(idt.descriptors[0x0F].kernel_cs, 0);
    // The keyboard gate holds the last handler address.
    assert_eq!(idt.descriptors[33].isr_low, 0x0019);
    // Vectors past the keyboard stay absent.
    assert_eq!(idt.descriptors[34].type_attributes, 0);
    assert_eq!(idt.ptr.limit, 2047);
    assert_eq!(idt.ptr.base, 0x3000);
}
