use kernel_core::io::Bus;
use kernel_core::pic8259::Port as TypedPort;
use kernel_core::io::Port;
use kernel_core::io::PortOp;
use kernel_core::pic8259::ChainedPics;

fn write_op(port: u16, value: u32) -> PortOp {
    PortOp { port, value, is_write: true }
}

fn read_op(port: u16, value: u32) -> PortOp {
    PortOp { port, value, is_write: false }
}

#[test]
fn io_port_reads_and_writes_the_bus() {
    let mut bus = Bus::new();
    let port = Port::new(0x60);
    assert_eq!(port.read(&mut bus), 0);
    port.write(&mut bus, 0xAB);
    assert_eq!(port.read(&mut bus), 0xAB);
    assert_eq!(
        bus.log,
        vec![read_op(0x60, 0), write_op(0x60, 0xAB), read_op(0x60, 0xAB)]
    );
}

#[test]
fn poke_sets_a_value_without_logging() {
    let mut bus = Bus::new();
    bus.poke(0x60, 0x1C);
    assert!(bus.log.is_empty());
    assert_eq!(bus.peek(0x60), 0x1C);
}

#[test]
fn initialize_sends_the_exact_command_sequence() {
    let mut bus = Bus::new();
    bus.poke(0x21, 0xAD);
    bus.poke(0xA1, 0x70);
    let pics = ChainedPics::new(32, 40);
    pics.initialize(&mut bus);
    assert_eq!(
        bus.log,
        vec![
            read_op(0x21, 0xAD),
            read_op(0xA1, 0x70),
            write_op(0x20, 0x11),
            write_op(0x80, 0),
            write_op(0xA0, 0x11),
            write_op(0x80, 0),
            write_op(0x21, 32),
            write_op(0x80, 0),
            write_op(0xA1, 40),
            write_op(0x80, 0),
            write_op(0x21, 4),
            write_op(0x80, 0),
            write_op(0xA1, 2),
            write_op(0x80, 0),
            write_op(0x21, 1),
            write_op(0x80, 0),
            write_op(0xA1, 1),
            write_op(0x80, 0),
            write_op(0x21, 0xAD),
            write_op(0xA1, 0x70),
        ]
    );
    // The saved masks are restored, so the remap unmasked nothing.
    assert_eq!(bus.peek(0x21), 0xAD);
    assert_eq!(bus.peek(0xA1), 0x70);
}

#[test]
fn eoi_for_a_secondary_vector_acknowledges_both_primary_last() {
    let mut bus = Bus::new();
    let pics = ChainedPics::new(32, 40);
    // Vector 44 belongs to the secondary controller (40..48).
    pics.notify_end_of_interrupt(&mut bus, 44);
    assert_eq!(bus.log, vec![write_op(0xA0, 0x20), write_op(0x20, 0x20)]);
}

#[test]
fn eoi_for_a_primary_vector_acknowledges_the_primary_alone() {
    let mut bus = Bus::new();
    let pics = ChainedPics::new(32, 40);
    pics.notify_end_of_interrupt(&mut bus, 33);
    assert_eq!(bus.log, vec![write_op(0x20, 0x20)]);
}

#[test]
fn eoi_for_an_unowned_vector_writes_nothing() {
    let mut bus = Bus::new();
    let pics = ChainedPics::new(32, 40);
    pics.notify_end_of_interrupt(&mut bus, 3);
    pics.notify_end_of_interrupt(&mut bus, 48);
    assert!(bus.log.is_empty());
}

#[test]
fn handles_interrupt_covers_both_controller_ranges() {
    let pics = ChainedPics::new(32, 40);
    assert!(pics.handles_interrupt(32));
    assert!(pics.handles_interrupt(39));
    assert!(pics.handles_interrupt(40));
    assert!(pics.handles_interrupt(47));
    assert!(!pics.handles_interrupt(31));
    assert!(!pics.handles_interrupt(48));
}

#[test]
fn read_and_write_masks_touch_the_data_ports() {
    let mut bus = Bus::new();
    bus.poke(0x21, 0xFE);
    bus.poke(0xA1, 0xFF);
    let pics = ChainedPics::new(32, 40);
    let masks = pics.read_masks(&mut bus);
    assert_eq!(masks, [0xFE, 0xFF]);
    pics.write_masks(&mut bus, 0x00, 0x01);
    assert_eq!(bus.peek(0x21), 0x00);
    assert_eq!(bus.peek(0xA1), 0x01);
    pics.disable(&mut bus);
    assert_eq!(bus.peek(0x21), 0xFF);
    assert_eq!(bus.peek(0xA1), 0xFF);
}

#[test]
fn wide_port_values_are_masked_to_their_width() {
    let mut bus = Bus::new();
    bus.poke(0x1234, 0xDEAD_BEEF);
    let p8: TypedPort<u8> = TypedPort::new(0x1234);
    let p16: TypedPort<u16> = TypedPort::new(0x1234);
    let p32: TypedPort<u32> = TypedPort::new(0x1234);
    assert_eq!(p8.read(&mut bus), 0xEF);
    assert_eq!(p16.read(&mut bus), 0xBEEF);
    assert_eq!(p32.read(&mut bus), 0xDEAD_BEEF);
    p16.write(&mut bus, 0x1122);
    assert_eq!(bus.peek(0x1234), 0x1122);
}
