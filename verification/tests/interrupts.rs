use kernel_core::cli::CliState;
use kernel_core::cli::CommandAction;
use kernel_core::interrupts::are_interrupts_enabled;
use kernel_core::interrupts::keyboard_interrupt_handler;
use kernel_core::interrupts::without_interrupts;
use kernel_core::interrupts::InterruptFlag;
use kernel_core::interrupts::timer_isr;
use kernel_core::io::Bus;
use kernel_core::io::PortOp;
use kernel_core::keyboard::KeyboardState;
use kernel_core::pic8259::ChainedPics;
use kernel_core::vga_buffer::Writer;

const STACK_TOP: u32 = 0x0090_0000;

fn write_op(port: u16, value: u32) -> PortOp {
    PortOp { port, value, is_write: true }
}

fn read_op(port: u16, value: u32) -> PortOp {
    PortOp { port, value, is_write: false }
}

fn row_text(writer: &Writer, row: usize) -> Vec<u8> {
    let mut out = Vec::new();
    for col in 0..80 {
        out.push(writer.char_at(row, col));
    }
    out
}

#[test]
fn first_timer_tick_draws_the_prompt_and_acknowledges() {
    let mut cli = CliState::new();
    let mut kb = KeyboardState::start();
    let mut writer = Writer::new();
    let pics = ChainedPics::new(32, 40);
    let mut bus = Bus::new();
    let t = timer_isr(-1, &mut cli, &mut kb, &mut writer, &pics, &mut bus, STACK_TOP);
    assert_eq!(t, 0);
    assert_eq!(&row_text(&writer, 24)[..2], b"> ");
    assert_eq!(bus.log, vec![write_op(0x20, 0x20)]);
    assert!(!cli.caret_blink);
}

#[test]
fn every_eighth_tick_blinks_the_caret() {
    let mut cli = CliState::new();
    let mut kb = KeyboardState::start();
    let mut writer = Writer::new();
    let pics = ChainedPics::new(32, 40);
    let mut bus = Bus::new();
    let t = timer_isr(0, &mut cli, &mut kb, &mut writer, &pics, &mut bus, STACK_TOP);
    assert_eq!(t, 1);
    assert!(cli.caret_blink);
    let t = timer_isr(t, &mut cli, &mut kb, &mut writer, &pics, &mut bus, STACK_TOP);
    assert_eq!(t, 2);
    assert!(cli.caret_blink);
    let t = timer_isr(8, &mut cli, &mut kb, &mut writer, &pics, &mut bus, STACK_TOP);
    assert_eq!(t, 1);
    assert!(!cli.caret_blink);
}

#[test]
fn keyboard_interrupt_decodes_feeds_the_console_and_acknowledges() {
    let mut cli = CliState::new();
    let mut kb = KeyboardState::start();
    let mut writer = Writer::new();
    let pics = ChainedPics::new(32, 40);
    let mut bus = Bus::new();
    // A press of 0x23, the 'h' key, waits on the keyboard data port.
    bus.poke(0x60, 0x23);
    let act = keyboard_interrupt_handler(
        &mut cli,
        &mut kb,
        &mut writer,
        &pics,
        &mut bus,
        STACK_TOP,
    );
    assert_eq!(act, CommandAction::Done);
    assert_eq!(cli.command_line, b"h".to_vec());
    assert_eq!(&row_text(&writer, 24)[..4], b"> h ");
    assert_eq!(bus.log, vec![read_op(0x60, 0x23), write_op(0x20, 0x20)]);
}

#[test]
fn keyboard_interrupt_with_a_release_changes_nothing_but_still_acknowledges() {
    let mut cli = CliState::new();
    let mut kb = KeyboardState::start();
    let mut writer = Writer::new();
    let pics = ChainedPics::new(32, 40);
    let mut bus = Bus::new();
    bus.poke(0x60, (0x23 | 0x80) as u32);
    keyboard_interrupt_handler(&mut cli, &mut kb, &mut writer, &pics, &mut bus, STACK_TOP);
    assert!(cli.command_line.is_empty());
    assert_eq!(bus.log, vec![read_op(0x60, 0xA3), write_op(0x20, 0x20)]);
}

#[test]
fn enter_scancode_dispatches_the_buffered_line() {
    let mut cli = CliState::new();
    let mut kb = KeyboardState::start();
    let mut writer = Writer::new();
    let pics = ChainedPics::new(32, 40);
    let mut bus = Bus::new();
    // Type "exit" by scancode: e=0x12, x=0x2D, i=0x17, t=0x14, enter=0x1C.
    for sc in [0x12u32, 0x2D, 0x17, 0x14] {
        bus.poke(0x60, sc);
        keyboard_interrupt_handler(&mut cli, &mut kb, &mut writer, &pics, &mut bus, STACK_TOP);
    }
    assert_eq!(cli.command_line, b"exit".to_vec());
    bus.poke(0x60, 0x1C);
    let act = keyboard_interrupt_handler(
        &mut cli,
        &mut kb,
        &mut writer,
        &pics,
        &mut bus,
        STACK_TOP,
    );
    assert_eq!(act, CommandAction::Halt { addr: STACK_TOP - 0x80, size: 0x80 });
    assert!(cli.command_line.is_empty());
}

#[test]
fn critical_section_restores_the_interrupt_flag() {
    let mut flag = InterruptFlag { enabled: true };
    let r = without_interrupts(&mut flag, || 40 + 2);
    assert_eq!(r, 42);
    assert!(are_interrupts_enabled(&flag));

    let mut flag = InterruptFlag { enabled: false };
    without_interrupts(&mut flag, || ());
    assert!(!are_interrupts_enabled(&flag));
}
