use kernel_core::cli::handle_cli_caret_blink;
use kernel_core::cli::handle_cli_change;
use kernel_core::cli::get_handler;
use kernel_core::cli::CliState;
use kernel_core::cli::Command;
use kernel_core::cli::CommandAction;
use kernel_core::cli::COMMAND_LINE_LENGTH;
use kernel_core::keyboard::KeyboardState;
use kernel_core::vga_buffer::Writer;

const STACK_TOP: u32 = 0x0090_0000;

fn fresh() -> (CliState, KeyboardState, Writer) {
    (CliState::new(), KeyboardState::start(), Writer::new())
}

fn feed(
    cli: &mut CliState,
    kb: &mut KeyboardState,
    writer: &mut Writer,
    bytes: &[u8],
) -> CommandAction {
    let changes: Vec<u8> = bytes.to_vec();
    handle_cli_change(cli, &changes, kb, writer, STACK_TOP)
}

fn row_text(writer: &Writer, row: usize) -> Vec<u8> {
    let mut out = Vec::new();
    for col in 0..80 {
        out.push(writer.char_at(row, col));
    }
    out
}

fn assert_row_starts_with(writer: &Writer, row: usize, expected: &[u8]) {
    let text = row_text(writer, row);
    assert_eq!(
        &text[..expected.len()],
        expected,
        "row {} is {:?}",
        row,
        String::from_utf8_lossy(&text)
    );
}

fn bare_prompt_row() -> Vec<u8> {
    let mut row = vec![b'>', b' '];
    row.extend(std::iter::repeat(b' ').take(78));
    row
}

#[test]
fn typing_appends_and_renders_prompt_line() {
    let (mut cli, mut kb, mut writer) = fresh();
    let act = feed(&mut cli, &mut kb, &mut writer, b"hi");
    assert_eq!(act, CommandAction::Done);
    assert_eq!(cli.command_line, b"hi".to_vec());
    assert_row_starts_with(&writer, 24, b"> hi ");
}

#[test]
fn backspace_on_empty_buffer_is_a_no_op() {
    let (mut cli, mut kb, mut writer) = fresh();
    feed(&mut cli, &mut kb, &mut writer, &[0x08]);
    assert!(cli.command_line.is_empty());
    assert_row_starts_with(&writer, 24, b"> ");
}

#[test]
fn backspace_after_one_character_empties_the_buffer() {
    let (mut cli, mut kb, mut writer) = fresh();
    feed(&mut cli, &mut kb, &mut writer, b"x");
    assert_eq!(cli.command_line.len(), 1);
    feed(&mut cli, &mut kb, &mut writer, &[0x08]);
    assert!(cli.command_line.is_empty());
    assert_eq!(row_text(&writer, 24), bare_prompt_row());
}

#[test]
fn delete_byte_also_removes_the_last_character() {
    let (mut cli, mut kb, mut writer) = fresh();
    feed(&mut cli, &mut kb, &mut writer, b"ab");
    feed(&mut cli, &mut kb, &mut writer, &[0x7F]);
    assert_eq!(cli.command_line, b"a".to_vec());
}

#[test]
fn appending_beyond_capacity_never_grows_past_it() {
    let (mut cli, mut kb, mut writer) = fresh();
    let long = vec![b'a'; 200];
    feed(&mut cli, &mut kb, &mut writer, &long);
    assert_eq!(cli.command_line.len(), COMMAND_LINE_LENGTH - 1);
    feed(&mut cli, &mut kb, &mut writer, b"zz");
    assert_eq!(cli.command_line.len(), COMMAND_LINE_LENGTH - 1);
}

#[test]
fn echo_dispatches_with_its_argument_and_resets_the_buffer() {
    let (mut cli, mut kb, mut writer) = fresh();
    let act = feed(&mut cli, &mut kb, &mut writer, b"echo hi\n");
    assert_eq!(act, CommandAction::Done);
    assert!(cli.command_line.is_empty());
    // The echoed argument scrolled up one row when echo printed its newline.
    assert_row_starts_with(&writer, 23, b"hi ");
    // The rendered bottom line is the bare prompt again.
    assert_eq!(row_text(&writer, 24), bare_prompt_row());
}

#[test]
fn echo_keeps_inner_spacing_and_trims_the_ends() {
    let (mut cli, mut kb, mut writer) = fresh();
    feed(&mut cli, &mut kb, &mut writer, b"echo  a  b \n");
    assert_row_starts_with(&writer, 23, b"a  b ");
    let text = row_text(&writer, 23);
    assert_eq!(&text[..4], b"a  b");
}

#[test]
fn clear_blanks_every_row_and_resets_the_buffer() {
    let (mut cli, mut kb, mut writer) = fresh();
    feed(&mut cli, &mut kb, &mut writer, b"fill the screen\n");
    let act = feed(&mut cli, &mut kb, &mut writer, b"clear\n");
    assert_eq!(act, CommandAction::Done);
    assert!(cli.command_line.is_empty());
    for row in 0..24 {
        assert_eq!(row_text(&writer, row), vec![b' '; 80], "row {} not blank", row);
    }
    // The prompt is redrawn on the bottom row after the dispatch.
    assert_eq!(row_text(&writer, 24), bare_prompt_row());
}

#[test]
fn unknown_command_prints_the_literal_message_and_hint() {
    let (mut cli, mut kb, mut writer) = fresh();
    let act = feed(&mut cli, &mut kb, &mut writer, b"frobnicate\n");
    assert_eq!(act, CommandAction::Done);
    assert!(cli.command_line.is_empty());
    assert_row_starts_with(&writer, 22, b"Unknown command: \"frobnicate\" ");
    assert_row_starts_with(&writer, 23, b"Type 'help' for a list of available commands ");
}

#[test]
fn help_lists_the_commands() {
    let (mut cli, mut kb, mut writer) = fresh();
    feed(&mut cli, &mut kb, &mut writer, b"help\n");
    assert_row_starts_with(&writer, 16, b"Available commands: ");
    assert_row_starts_with(&writer, 17, b"- help: Display this help message ");
    assert_row_starts_with(&writer, 23, b"- exit: Exit the kernel ");
}

#[test]
fn keymap_command_switches_the_layout() {
    let (mut cli, mut kb, mut writer) = fresh();
    feed(&mut cli, &mut kb, &mut writer, b"keymap fr\n");
    assert_eq!(kb.lang, kernel_core::keyboard::KeymapLanguage::FR);
    feed(&mut cli, &mut kb, &mut writer, b"keymap us\n");
    assert_eq!(kb.lang, kernel_core::keyboard::KeymapLanguage::US);
}

#[test]
fn keymap_without_argument_prints_usage_and_keeps_the_layout() {
    let (mut cli, mut kb, mut writer) = fresh();
    feed(&mut cli, &mut kb, &mut writer, b"keymap\n");
    assert_eq!(kb.lang, kernel_core::keyboard::KeymapLanguage::US);
    assert_row_starts_with(&writer, 23, b"Usage: keymap <us|fr> ");
}

#[test]
fn hexdump_parses_address_and_size() {
    let (mut cli, mut kb, mut writer) = fresh();
    let act = feed(&mut cli, &mut kb, &mut writer, b"hexdump 0x1000 32\n");
    assert_eq!(act, CommandAction::Dump { addr: 0x1000, size: 32 });
}

#[test]
fn hexdump_without_arguments_uses_the_default_address_and_size_80() {
    let (mut cli, mut kb, mut writer) = fresh();
    let act = feed(&mut cli, &mut kb, &mut writer, b"hexdump\n");
    assert_eq!(act, CommandAction::Dump { addr: STACK_TOP, size: 80 });
}

#[test]
fn hexdump_accepts_a_bare_hex_address() {
    let (mut cli, mut kb, mut writer) = fresh();
    let act = feed(&mut cli, &mut kb, &mut writer, b"hexdump deadbeef\n");
    assert_eq!(act, CommandAction::Dump { addr: 0xDEAD_BEEF, size: 80 });
}

#[test]
fn hexdump_falls_back_on_unparsable_arguments() {
    let (mut cli, mut kb, mut writer) = fresh();
    let act = feed(&mut cli, &mut kb, &mut writer, b"hexdump zzz nine\n");
    assert_eq!(act, CommandAction::Dump { addr: STACK_TOP, size: 80 });
}

#[test]
fn hexdump_with_too_many_arguments_prints_usage() {
    let (mut cli, mut kb, mut writer) = fresh();
    let act = feed(&mut cli, &mut kb, &mut writer, b"hexdump 1 2 3\n");
    assert_eq!(act, CommandAction::Done);
    assert_row_starts_with(&writer, 23, b"Usage: hexdump <addr?> <size?> ");
}

#[test]
fn exit_halts_with_a_dump_of_the_stack_window() {
    let (mut cli, mut kb, mut writer) = fresh();
    let act = feed(&mut cli, &mut kb, &mut writer, b"exit\n");
    assert_eq!(act, CommandAction::Halt { addr: STACK_TOP - 0x80, size: 0x80 });
    assert!(cli.command_line.is_empty());
    // No prompt redraw after a halt: the farewell text is the last output.
    assert_row_starts_with(&writer, 23, b"Exiting... ");
}

#[test]
fn empty_line_dispatches_nothing() {
    let (mut cli, mut kb, mut writer) = fresh();
    let act = feed(&mut cli, &mut kb, &mut writer, b"\n");
    assert_eq!(act, CommandAction::Done);
    assert_eq!(row_text(&writer, 24), bare_prompt_row());
}

#[test]
fn get_handler_knows_the_command_table() {
    assert_eq!(get_handler(&b"help".to_vec()), Command::Help);
    assert_eq!(get_handler(&b"echo".to_vec()), Command::Echo);
    assert_eq!(get_handler(&b"clear".to_vec()), Command::Clear);
    assert_eq!(get_handler(&b"hexdump".to_vec()), Command::Hexdump);
    assert_eq!(get_handler(&b"keymap".to_vec()), Command::Keymap);
    assert_eq!(get_handler(&b"exit".to_vec()), Command::Exit);
    assert_eq!(get_handler(&b"frobnicate".to_vec()), Command::Unknown);
    assert_eq!(get_handler(&b"Help".to_vec()), Command::Unknown);
}

#[test]
fn caret_blink_inverts_the_cell_and_toggles_the_phase() {
    let (mut cli, _kb, mut writer) = fresh();
    // Phase off: the cell is rewritten in the normal colors.
    handle_cli_caret_blink(&mut cli, &mut writer);
    assert!(cli.caret_blink);
    let cell = writer.cell_at(24, 2);
    assert_eq!(cell.ascii_character, b' ');
    assert_eq!(cell.color_code.0, 0x0E);
    // Phase on: the cell is rewritten with the colors swapped.
    handle_cli_caret_blink(&mut cli, &mut writer);
    assert!(!cli.caret_blink);
    let cell = writer.cell_at(24, 2);
    assert_eq!(cell.color_code.0, 0xE0);
    // The writer's own colors are restored afterwards.
    assert_eq!(writer.color_code.0, 0x0E);
}

#[test]
fn caret_sits_after_the_buffered_line() {
    let (mut cli, mut kb, mut writer) = fresh();
    feed(&mut cli, &mut kb, &mut writer, b"ab");
    handle_cli_caret_blink(&mut cli, &mut writer);
    assert_eq!(writer.column_position, 5);
    assert_eq!(writer.cell_at(24, 4).ascii_character, b' ');
}
