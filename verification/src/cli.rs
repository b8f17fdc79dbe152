//! The interrupt-fed command-line console: a fixed-capacity line buffer
//! edited byte by byte, a caret blinked by the timer, and dispatch of
//! completed lines to the command table.
//!
//! A backspace removes the last character and is a no-op on an empty
//! buffer; a newline dispatches the buffered line and empties the buffer;
//! any other byte is appended while there is room and silently dropped
//! once the buffer is full.  After an edit the whole prompt line is redrawn
//! with enough trailing blanks to cover a previously longer line.

use vstd::prelude::*;
use vstd::string::StringSliceAdditionalSpecFns;

use crate::commands::clear;
use crate::commands::echo;
use crate::commands::exit;
use crate::commands::help;
use crate::commands::hexdump;
use crate::commands::keymap;
use crate::commands::spec_cleared;
use crate::commands::spec_echo_text;
use crate::commands::spec_exiting_text;
use crate::commands::spec_help_text;
use crate::commands::spec_hexdump_cmd;
use crate::commands::spec_keymap_cmd;
use crate::commands::spec_unknown_text;
use crate::commands::unknown_command;
use crate::keyboard::KeyboardState;
use crate::utils::bytes_eq;
use crate::utils::spec_tokenize;
use crate::utils::spec_tokens;
use crate::utils::tokenize;
use crate::vga_buffer::spec_write_byte;
use crate::vga_buffer::spec_write_bytes;
use crate::vga_buffer::ColorCode;
use crate::vga_buffer::ScreenChar;
use crate::vga_buffer::VideoState;
use crate::vga_buffer::Writer;

verus! {

/// The line buffer capacity: the screen width less the two prompt cells.
pub const COMMAND_LINE_LENGTH: usize = 78;

/// The abstract console state: the buffered line and the caret phase.
#[verifier::ext_equal]
pub struct CliModel {
    pub line: Seq<u8>,
    pub blink: bool,
}

/// The console state: the line being edited and the caret-blink phase.
pub struct CliState {
    pub command_line: Vec<u8>,
    pub caret_blink: bool,
}

impl View for CliState {
    type V = CliModel;

    open spec fn view(&self) -> CliModel {
        CliModel { line: self.command_line@, blink: self.caret_blink }
    }
}

impl CliState {
    /// The buffer always leaves one cell free below its capacity.
    pub open spec fn wf(&self) -> bool {
        self.command_line@.len() < COMMAND_LINE_LENGTH
    }

    /// An empty console: no buffered input, caret phase off.
    pub fn new() -> (c: CliState)
        ensures
            c.wf(),
            c@.line == Seq::<u8>::empty(),
            !c@.blink,
    {
        CliState { command_line: Vec::new(), caret_blink: false }
    }
}

/// A console command, named by its first word on the line.
#[derive(Clone, Copy, PartialEq, Eq, Structural, Debug)]
pub enum Command {
    Help,
    Echo,
    Clear,
    Hexdump,
    Keymap,
    Exit,
    Unknown,
}

/// What a dispatched command asks of its caller: nothing, a memory dump,
/// or a dump followed by a halt of the machine.
#[derive(Clone, Copy, PartialEq, Eq, Structural, Debug)]
pub enum CommandAction {
    Done,
    Dump { addr: u32, size: u32 },
    Halt { addr: u32, size: u32 },
}

/// The command a line's first word names; anything not in the table is
/// `Unknown`.
pub open spec fn spec_get_handler(name: Seq<u8>) -> Command {
    if name == "help".spec_bytes() {
        Command::Help
    } else if name == "echo".spec_bytes() {
        Command::Echo
    } else if name == "clear".spec_bytes() {
        Command::Clear
    } else if name == "hexdump".spec_bytes() {
        Command::Hexdump
    } else if name == "keymap".spec_bytes() {
        Command::Keymap
    } else if name == "exit".spec_bytes() {
        Command::Exit
    } else {
        Command::Unknown
    }
}

/// Looks a command word up in the command table.
pub fn get_handler(command_name: &Vec<u8>) -> (c: Command)
    ensures
        c == spec_get_handler(command_name@),
{
    if bytes_eq(command_name, "help".as_bytes()) {
        Command::Help
    } else if bytes_eq(command_name, "echo".as_bytes()) {
        Command::Echo
    } else if bytes_eq(command_name, "clear".as_bytes()) {
        Command::Clear
    } else if bytes_eq(command_name, "hexdump".as_bytes()) {
        Command::Hexdump
    } else if bytes_eq(command_name, "keymap".as_bytes()) {
        Command::Keymap
    } else if bytes_eq(command_name, "exit".as_bytes()) {
        Command::Exit
    } else {
        Command::Unknown
    }
}

/// What dispatching a line does to the keyboard state and the screen, and
/// the action it returns.  An empty line dispatches nothing.
pub open spec fn spec_dispatch(
    line: Seq<u8>,
    kb: KeyboardState,
    v: VideoState,
    stack_top: u32,
) -> (KeyboardState, VideoState, CommandAction) {
    let toks = spec_tokenize(line);
    if toks.len() == 0 {
        (kb, v, CommandAction::Done)
    } else {
        match spec_get_handler(toks[0]) {
            Command::Help => (kb, spec_write_bytes(v, spec_help_text()), CommandAction::Done),
            Command::Echo => (kb, spec_write_bytes(v, spec_echo_text(line)), CommandAction::Done),
            Command::Clear => (kb, spec_cleared(v), CommandAction::Done),
            Command::Hexdump => {
                let (v2, act) = spec_hexdump_cmd(line, v, stack_top);
                (kb, v2, act)
            },
            Command::Keymap => {
                let (kb2, v2) = spec_keymap_cmd(line, kb, v);
                (kb2, v2, CommandAction::Done)
            },
            Command::Exit => (
                kb,
                spec_write_bytes(v, spec_exiting_text()),
                CommandAction::Halt { addr: (stack_top - 0x80) as u32, size: 0x80 },
            ),
            Command::Unknown => (
                kb,
                spec_write_bytes(v, spec_unknown_text(toks[0])),
                CommandAction::Done,
            ),
        }
    }
}

/// Dispatches the buffered line to its command.  The hexdump default
/// address and the exit dump window both come from `stack_top`.
pub fn call_cli_handler(
    cli: &CliState,
    kb: &mut KeyboardState,
    writer: &mut Writer,
    stack_top: u32,
) -> (act: CommandAction)
    requires
        old(writer)@.wf(),
        stack_top >= 0x80,
    ensures
        final(writer)@.wf(),
        (*final(kb), final(writer)@, act) == spec_dispatch(
            cli@.line,
            *old(kb),
            old(writer)@,
            stack_top,
        ),
{
    let tokens = tokenize(&cli.command_line);
    if tokens.len() == 0 {
        return CommandAction::Done;
    }
    proof {
        assert(spec_tokens(tokens@)[0] == tokens@[0]@);
    }
    let cmd = get_handler(&tokens[0]);
    match cmd {
        Command::Help => {
            help(cli, writer);
            CommandAction::Done
        },
        Command::Echo => {
            echo(cli, writer);
            CommandAction::Done
        },
        Command::Clear => {
            clear(cli, writer);
            CommandAction::Done
        },
        Command::Hexdump => hexdump(cli, writer, stack_top),
        Command::Keymap => {
            keymap(cli, kb, writer);
            CommandAction::Done
        },
        Command::Exit => exit(cli, writer, stack_top),
        Command::Unknown => {
            unknown_command(cli, writer);
            CommandAction::Done
        },
    }
}

/// A run of blank cells' worth of spaces.
pub open spec fn spec_spaces(n: int) -> Seq<u8> {
    if n >= 0 {
        Seq::new(n as nat, |i: int| 0x20u8)
    } else {
        Seq::empty()
    }
}

/// The full prompt line as rendered: the cursor returns to column zero,
/// then the prompt, the buffer, and enough blanks to fill the row.
pub open spec fn spec_render_prompt(v: VideoState, line: Seq<u8>) -> VideoState {
    spec_write_bytes(
        VideoState { col: 0, ..v },
        seq![0x3Eu8, 0x20u8] + line + spec_spaces(COMMAND_LINE_LENGTH - line.len()),
    )
}

/// Redraws the prompt and the buffered line, padding the rest of the row
/// with blanks so nothing of a longer previous line survives.
pub fn write_command_line(cli: &CliState, writer: &mut Writer)
    requires
        old(writer)@.wf(),
        cli.wf(),
    ensures
        final(writer)@.wf(),
        final(writer)@ == spec_render_prompt(old(writer)@, cli@.line),
{
    let ghost v0 = VideoState { col: 0, ..old(writer)@ };
    let ghost prompt: Seq<u8> = seq![0x3Eu8, 0x20u8];
    let ghost full = prompt + cli@.line + spec_spaces(COMMAND_LINE_LENGTH - cli@.line.len());
    writer.column_position = 0;
    writer.write_byte(0x3E);
    writer.write_byte(0x20);
    proof {
        crate::vga_buffer::lemma_write_bytes_snoc(v0, Seq::empty(), 0x3E);
        crate::vga_buffer::lemma_write_bytes_snoc(v0, seq![0x3Eu8], 0x20);
        assert(Seq::<u8>::empty().push(0x3E) =~= seq![0x3Eu8]);
        assert(seq![0x3Eu8].push(0x20) =~= prompt);
        assert(writer@ == spec_write_bytes(v0, prompt));
    }
    writer.write_bytes(&cli.command_line);
    proof {
        crate::vga_buffer::lemma_write_bytes_concat(v0, prompt, cli@.line);
    }
    let ghost head = prompt + cli@.line;
    let mut k = cli.command_line.len();
    while k < COMMAND_LINE_LENGTH
        invariant
            cli@.line.len() <= k <= COMMAND_LINE_LENGTH,
            head == seq![0x3Eu8, 0x20u8] + cli@.line,
            writer@.wf(),
            writer@ == spec_write_bytes(v0, head + spec_spaces(k - cli@.line.len())),
        decreases COMMAND_LINE_LENGTH - k,
    {
        proof {
            let part = head + spec_spaces(k - cli@.line.len());
            crate::vga_buffer::lemma_write_bytes_snoc(v0, part, 0x20);
            assert(part.push(0x20) =~= head + spec_spaces(k + 1 - cli@.line.len()));
        }
        writer.write_byte(0x20);
        k += 1;
    }
    proof {
        assert(head + spec_spaces(COMMAND_LINE_LENGTH - cli@.line.len()) =~= full);
    }
}

/// One editing step of the line buffer: backspace and delete remove the
/// last byte, a newline empties the buffer (its dispatch is handled by the
/// caller), and any other byte is appended while a cell remains free.
pub open spec fn spec_apply_edit(line: Seq<u8>, b: u8) -> Seq<u8> {
    if b == 0x08 || b == 0x7F {
        if line.len() > 0 {
            line.drop_last()
        } else {
            line
        }
    } else if b == 0x0A {
        Seq::empty()
    } else if line.len() < COMMAND_LINE_LENGTH - 1 {
        line.push(b)
    } else {
        line
    }
}

/// The whole console transition for a run of decoded bytes: ordinary bytes
/// edit the buffer; each newline writes a line break, dispatches the
/// buffered line and empties the buffer; a halting dispatch stops the run.
/// The action returned is the last dispatch's, unless a later one asked
/// for something.
pub open spec fn spec_cli_apply(
    line: Seq<u8>,
    kb: KeyboardState,
    v: VideoState,
    changes: Seq<u8>,
    stack_top: u32,
) -> (Seq<u8>, KeyboardState, VideoState, CommandAction)
    decreases changes.len(),
{
    if changes.len() == 0 {
        (line, kb, v, CommandAction::Done)
    } else {
        let b = changes[0];
        if b == 0x0A {
            let v1 = spec_write_byte(v, 0x0A);
            let (kb2, v2, act) = spec_dispatch(line, kb, v1, stack_top);
            if act matches CommandAction::Halt { .. } {
                (Seq::empty(), kb2, v2, act)
            } else {
                let (l3, kb3, v3, act3) = spec_cli_apply(
                    Seq::empty(),
                    kb2,
                    v2,
                    changes.drop_first(),
                    stack_top,
                );
                (l3, kb3, v3, if act3 == CommandAction::Done {
                    act
                } else {
                    act3
                })
            }
        } else {
            spec_cli_apply(spec_apply_edit(line, b), kb, v, changes.drop_first(), stack_top)
        }
    }
}

/// Applies a run of decoded input bytes to the console.  Unless a command
/// halted the machine, the prompt line is redrawn at the end, so the
/// bottom row always shows the prompt and the current buffer.
pub fn handle_cli_change(
    cli: &mut CliState,
    changes: &Vec<u8>,
    kb: &mut KeyboardState,
    writer: &mut Writer,
    stack_top: u32,
) -> (act: CommandAction)
    requires
        old(cli).wf(),
        old(writer)@.wf(),
        stack_top >= 0x80,
    ensures
        final(cli).wf(),
        final(cli)@.blink == old(cli)@.blink,
        final(writer)@.wf(),
        ({
            let (l2, kb2, v2, act2) = spec_cli_apply(
                old(cli)@.line,
                *old(kb),
                old(writer)@,
                changes@,
                stack_top,
            );
            &&& final(cli)@.line == l2
            &&& *final(kb) == kb2
            &&& act == act2
            &&& final(writer)@ == (if act2 matches CommandAction::Halt { .. } {
                v2
            } else {
                spec_render_prompt(v2, l2)
            })
        }),
{
    let n = changes.len();
    let mut i: usize = 0;
    let mut act = CommandAction::Done;
    let mut halted = false;
    proof {
        assert(changes@.skip(0) =~= changes@);
    }
    while i < n && !halted
        invariant
            i <= n,
            n == changes@.len(),
            cli.wf(),
            writer@.wf(),
            stack_top >= 0x80,
            cli@.blink == old(cli)@.blink,
            !halted ==> !(act matches CommandAction::Halt { .. }),
            halted ==> (act matches CommandAction::Halt { .. }),
            ({
                let full = spec_cli_apply(
                    old(cli)@.line,
                    *old(kb),
                    old(writer)@,
                    changes@,
                    stack_top,
                );
                if halted {
                    full == (cli@.line, *kb, writer@, act)
                } else {
                    {
                        let (l2, kb2, v2, act2) = spec_cli_apply(
                            cli@.line,
                            *kb,
                            writer@,
                            changes@.skip(i as int),
                            stack_top,
                        );
                        full == (l2, kb2, v2, (if act2 == CommandAction::Done {
                            act
                        } else {
                            act2
                        }))
                    }
                }
            }),
        decreases n - i,
    {
        let b = changes[i];
        proof {
            assert(changes@.skip(i as int)[0] == changes@[i as int]);
            assert(changes@.skip(i as int).drop_first() =~= changes@.skip(i + 1));
        }
        if b == 0x0A {
            writer.write_byte(0x0A);
            let d = call_cli_handler(cli, kb, writer, stack_top);
            cli.command_line.clear();
            match d {
                CommandAction::Halt { .. } => {
                    act = d;
                    halted = true;
                },
                CommandAction::Done => {},
                _ => {
                    act = d;
                },
            }
        } else if b == 0x08 || b == 0x7F {
            let _popped = cli.command_line.pop();
        } else if cli.command_line.len() < COMMAND_LINE_LENGTH - 1 {
            cli.command_line.push(b);
        }
        i += 1;
    }
    proof {
        if !halted {
            assert(changes@.skip(i as int) =~= Seq::<u8>::empty());
        }
    }
    if !halted {
        write_command_line(cli, writer);
    }
    act
}

/// Backspacing an empty buffer changes nothing, and backspacing a buffer
/// of exactly one character empties it.
pub proof fn lemma_backspace(line: Seq<u8>)
    ensures
        line.len() == 0 ==> spec_apply_edit(line, 0x08) == line,
        line.len() == 1 ==> spec_apply_edit(line, 0x08) == Seq::<u8>::empty(),
{
    if line.len() == 1 {
        assert(line.drop_last() =~= Seq::<u8>::empty());
    }
}

/// One editing step never grows the buffer to its capacity: appending
/// beyond the last free cell is dropped.
pub proof fn lemma_append_bounded(line: Seq<u8>, b: u8)
    requires
        line.len() < COMMAND_LINE_LENGTH,
    ensures
        spec_apply_edit(line, b).len() < COMMAND_LINE_LENGTH,
{
}

/// The color pair with foreground and background exchanged.
pub open spec fn spec_invert_color(c: ColorCode) -> ColorCode {
    ColorCode((((c.0 & 0x0F) * 16 + (c.0 >> 4))) as u8)
}

/// The screen after one caret-blink tick: the cell just past the buffered
/// line on the bottom row is rewritten as a blank, in inverted colors when
/// the phase is on, and the cursor rests after it.  The writer's colors
/// are restored either way.
pub open spec fn spec_caret_blink(v: VideoState, line_len: int, blink: bool) -> VideoState {
    VideoState {
        grid: v.grid.update(
            24,
            v.grid[24].update(
                line_len + 2,
                ScreenChar {
                    ascii_character: 0x20,
                    color_code: if blink {
                        spec_invert_color(v.color)
                    } else {
                        v.color
                    },
                },
            ),
        ),
        col: line_len + 3,
        ..v
    }
}

/// Blinks the caret: writes the cell at the end of the buffered line with
/// colors swapped when the phase is on, restores the colors, and flips the
/// phase.
pub fn handle_cli_caret_blink(cli: &mut CliState, writer: &mut Writer)
    requires
        old(cli).wf(),
        old(writer)@.wf(),
    ensures
        final(cli).wf(),
        final(cli)@.line == old(cli)@.line,
        final(cli)@.blink == !old(cli)@.blink,
        final(writer)@.wf(),
        final(writer)@ == spec_caret_blink(
            old(writer)@,
            old(cli)@.line.len() as int,
            old(cli)@.blink,
        ),
{
    let position = cli.command_line.len() + 2;
    writer.column_position = position;

    let new_foreground = writer.color_code.get_background();
    let new_background = writer.color_code.get_foreground();
    let ghost c0 = old(writer).color_code;
    proof {
        let cc = c0.0;
        assert(cc == (cc >> 4) * 16 + (cc & 0x0F) && cc >> 4 < 16 && cc & 0x0F < 16) by (
        bit_vector);
    }

    if cli.caret_blink {
        writer.set_colors(Some(new_foreground), Some(new_background));
        proof {
            let ci = writer.color_code.0;
            assert(ci == (ci >> 4) * 16 + (ci & 0x0F)) by (bit_vector);
            let inv = spec_invert_color(c0);
            let cc = c0.0;
            assert(((cc & 0x0F) * 16 + (cc >> 4)) as u8 == (cc & 0x0F) * 16 + (cc >> 4))
                by (bit_vector);
            assert(writer.color_code == inv);
        }
    }

    writer.write_byte(0x20);

    if cli.caret_blink {
        writer.set_colors(Some(new_background), Some(new_foreground));
        proof {
            let cr = writer.color_code.0;
            assert(cr == (cr >> 4) * 16 + (cr & 0x0F)) by (bit_vector);
            assert(writer.color_code == c0);
        }
    }

    cli.caret_blink = !cli.caret_blink;
    proof {
        assert(writer@ =~~= spec_caret_blink(
            old(writer)@,
            old(cli)@.line.len() as int,
            old(cli)@.blink,
        ));
    }
}

} // verus!
