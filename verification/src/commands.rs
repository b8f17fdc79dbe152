//! The built-in console commands: each takes read access to the command
//! line and renders its output through the verified writer.
//!
//! Commands have no error channel: a malformed invocation prints a usage
//! line, and the memory-touching commands (`hexdump`, `exit`) return the
//! dump they want as a `CommandAction` for the caller to perform, since
//! reading arbitrary memory lies outside this model.

use vstd::prelude::*;
use vstd::string::StringSliceAdditionalSpecFns;

use crate::cli::CliState;
use crate::cli::CommandAction;
use crate::keyboard::KeyboardState;
use crate::keyboard::KeymapLanguage;
use crate::utils::bytes_eq;
use crate::utils::spec_parse_dec_u32;
use crate::utils::spec_parse_hex_u32;
use crate::utils::spec_strip_0x;
use crate::utils::spec_tokenize;
use crate::utils::spec_tokens;
use crate::utils::spec_trim;
use crate::utils::spec_trim_start;
use crate::utils::strip_0x;
use crate::utils::parse_dec_u32;
use crate::utils::parse_hex_u32;
use crate::utils::subvec;
use crate::utils::tokenize;
use crate::utils::trim;
use crate::utils::trim_start_index;
use crate::vga_buffer::lemma_write_bytes_concat;
use crate::vga_buffer::spec_blank_row;
use crate::vga_buffer::spec_write_bytes;
use crate::vga_buffer::VideoState;
use crate::vga_buffer::Writer;
use crate::vga_buffer::BUFFER_HEIGHT;

verus! {

/// The help text, one line per command.
pub open spec fn spec_help_text() -> Seq<u8> {
    "Available commands:\n- help: Display this help message\n- echo <string>: Echo the string back to the console\n- keymap <us|fr>: Change the keymapping\n- hexdump <addr?> <size?>: Hexdump the memory at the given address for a given number of bytes\n- clear: Clear the console\n- exit: Exit the kernel\n".spec_bytes()
}

/// Prints the list of available commands.
pub fn help(_cli: &CliState, writer: &mut Writer)
    requires
        old(writer)@.wf(),
    ensures
        final(writer)@.wf(),
        final(writer)@ == spec_write_bytes(old(writer)@, spec_help_text()),
{
    writer.write_string(
        "Available commands:\n- help: Display this help message\n- echo <string>: Echo the string back to the console\n- keymap <us|fr>: Change the keymapping\n- hexdump <addr?> <size?>: Hexdump the memory at the given address for a given number of bytes\n- clear: Clear the console\n- exit: Exit the kernel\n",
    );
}

/// The argument text `echo` prints: the line after its leading whitespace
/// and the four bytes of the command word, trimmed at both ends.
pub open spec fn spec_echo_arg(line: Seq<u8>) -> Seq<u8> {
    let rest = spec_trim_start(line);
    if rest.len() >= 4 {
        spec_trim(rest.skip(4))
    } else {
        Seq::empty()
    }
}

/// The full text `echo` emits: its argument and a newline.
pub open spec fn spec_echo_text(line: Seq<u8>) -> Seq<u8> {
    spec_echo_arg(line) + seq![0x0Au8]
}

/// Echoes the rest of the command line back to the console.
pub fn echo(cli: &CliState, writer: &mut Writer)
    requires
        old(writer)@.wf(),
    ensures
        final(writer)@.wf(),
        final(writer)@ == spec_write_bytes(old(writer)@, spec_echo_text(cli@.line)),
{
    let n = cli.command_line.len();
    let start = trim_start_index(&cli.command_line);
    let arg: Vec<u8> = if n - start >= 4 {
        let rest = subvec(&cli.command_line, start + 4, n);
        proof {
            assert(rest@ =~= spec_trim_start(cli@.line).skip(4));
        }
        trim(&rest)
    } else {
        Vec::new()
    };
    let ghost before = writer@;
    writer.write_bytes(&arg);
    writer.write_byte(0x0A);
    proof {
        crate::vga_buffer::lemma_write_bytes_snoc(before, arg@, 0x0A);
        assert(arg@.push(0x0A) =~= spec_echo_text(cli@.line));
    }
}

/// The screen with every row blanked in the current colors.
pub open spec fn spec_cleared(v: VideoState) -> VideoState {
    VideoState { grid: Seq::new(25, |r: int| spec_blank_row(v.color)), ..v }
}

/// Blanks all twenty-five screen rows.
pub fn clear(_cli: &CliState, writer: &mut Writer)
    requires
        old(writer)@.wf(),
    ensures
        final(writer)@.wf(),
        final(writer)@ == spec_cleared(old(writer)@),
{
    let mut i: usize = 0;
    while i < BUFFER_HEIGHT
        invariant
            i <= 25,
            writer@.wf(),
            writer@.col == old(writer)@.col,
            writer@.row == old(writer)@.row,
            writer@.color == old(writer)@.color,
            forall|r: int| 0 <= r < i ==> writer@.grid[r] == spec_blank_row(old(writer)@.color),
            forall|r: int| i <= r < 25 ==> writer@.grid[r] == old(writer)@.grid[r],
        decreases 25 - i,
    {
        writer.clear_row(i);
        i += 1;
    }
    proof {
        assert(writer@ =~~= spec_cleared(old(writer)@));
    }
}

/// The usage line of the `keymap` command.
pub open spec fn spec_keymap_usage() -> Seq<u8> {
    "Usage: keymap <us|fr>\n".spec_bytes()
}

/// What the `keymap` command does: with exactly two words and a known
/// layout name it switches the layout; anything else prints the usage.
pub open spec fn spec_keymap_cmd(line: Seq<u8>, kb: KeyboardState, v: VideoState) -> (
    KeyboardState,
    VideoState,
) {
    let toks = spec_tokenize(line);
    if toks.len() != 2 {
        (kb, spec_write_bytes(v, spec_keymap_usage()))
    } else if toks[1] == "us".spec_bytes() {
        (KeyboardState { lang: KeymapLanguage::US, ..kb }, v)
    } else if toks[1] == "fr".spec_bytes() {
        (KeyboardState { lang: KeymapLanguage::FR, ..kb }, v)
    } else {
        (kb, spec_write_bytes(v, spec_keymap_usage()))
    }
}

/// Switches the active keyboard layout.
pub fn keymap(cli: &CliState, kb: &mut KeyboardState, writer: &mut Writer)
    requires
        old(writer)@.wf(),
    ensures
        final(writer)@.wf(),
        (*final(kb), final(writer)@) == spec_keymap_cmd(cli@.line, *old(kb), old(writer)@),
{
    let tokens = tokenize(&cli.command_line);
    if tokens.len() != 2 {
        writer.write_string("Usage: keymap <us|fr>\n");
        return ;
    }
    proof {
        assert(spec_tokens(tokens@)[1] == tokens@[1]@);
    }
    if bytes_eq(&tokens[1], "us".as_bytes()) {
        kb.lang = KeymapLanguage::US;
    } else if bytes_eq(&tokens[1], "fr".as_bytes()) {
        kb.lang = KeymapLanguage::FR;
    } else {
        writer.write_string("Usage: keymap <us|fr>\n");
    }
}

/// The usage line of the `hexdump` command.
pub open spec fn spec_hexdump_usage() -> Seq<u8> {
    "Usage: hexdump <addr?> <size?>\n".spec_bytes()
}

/// What the `hexdump` command does: with at most two arguments it asks for
/// a dump of the parsed address (hexadecimal, `0x` prefix allowed, the
/// caller's default on a parse failure) and the parsed decimal byte count
/// (80 on a parse failure); more arguments print the usage.
pub open spec fn spec_hexdump_cmd(line: Seq<u8>, v: VideoState, default_addr: u32) -> (
    VideoState,
    CommandAction,
) {
    let toks = spec_tokenize(line);
    if toks.len() > 3 {
        (spec_write_bytes(v, spec_hexdump_usage()), CommandAction::Done)
    } else {
        let addr = if toks.len() >= 2 {
            match spec_parse_hex_u32(spec_strip_0x(toks[1])) {
                Some(a) => a,
                None => default_addr,
            }
        } else {
            default_addr
        };
        let size = if toks.len() >= 3 {
            match spec_parse_dec_u32(toks[2]) {
                Some(s) => s,
                None => 80,
            }
        } else {
            80
        };
        (v, CommandAction::Dump { addr, size })
    }
}

/// Parses the `hexdump` arguments and asks the caller for the dump.
pub fn hexdump(cli: &CliState, writer: &mut Writer, default_addr: u32) -> (act: CommandAction)
    requires
        old(writer)@.wf(),
    ensures
        final(writer)@.wf(),
        (final(writer)@, act) == spec_hexdump_cmd(cli@.line, old(writer)@, default_addr),
{
    let tokens = tokenize(&cli.command_line);
    if tokens.len() > 3 {
        writer.write_string("Usage: hexdump <addr?> <size?>\n");
        return CommandAction::Done;
    }
    let addr: u32 = if tokens.len() >= 2 {
        proof {
            assert(spec_tokens(tokens@)[1] == tokens@[1]@);
        }
        let stripped = strip_0x(&tokens[1]);
        match parse_hex_u32(&stripped) {
            Some(a) => a,
            None => default_addr,
        }
    } else {
        default_addr
    };
    let size: u32 = if tokens.len() >= 3 {
        proof {
            assert(spec_tokens(tokens@)[2] == tokens@[2]@);
        }
        match parse_dec_u32(&tokens[2]) {
            Some(s) => s,
            None => 80,
        }
    } else {
        80
    };
    CommandAction::Dump { addr, size }
}

/// The text `exit` prints before the machine halts.
pub open spec fn spec_exiting_text() -> Seq<u8> {
    "Exiting...\n".spec_bytes()
}

/// Announces the exit and asks the caller to dump the 0x80-byte window
/// below the stack top and halt.
pub fn exit(_cli: &CliState, writer: &mut Writer, stack_top: u32) -> (act: CommandAction)
    requires
        old(writer)@.wf(),
        stack_top >= 0x80,
    ensures
        final(writer)@.wf(),
        final(writer)@ == spec_write_bytes(old(writer)@, spec_exiting_text()),
        act == (CommandAction::Halt { addr: (stack_top - 0x80) as u32, size: 0x80 }),
{
    writer.write_string("Exiting...\n");
    CommandAction::Halt { addr: stack_top - 0x80, size: 0x80 }
}

/// The message an unrecognized command produces: the literal complaint
/// with the offending word, then the hint to run `help`.
pub open spec fn spec_unknown_text(name: Seq<u8>) -> Seq<u8> {
    "Unknown command: \"".spec_bytes() + name + "\"\nType 'help' for a list of available commands\n".spec_bytes()
}

/// Reports an unrecognized command word.
pub fn unknown_command(cli: &CliState, writer: &mut Writer)
    requires
        old(writer)@.wf(),
    ensures
        final(writer)@.wf(),
        final(writer)@ == spec_write_bytes(
            old(writer)@,
            spec_unknown_text(
                ({
                    let toks = spec_tokenize(cli@.line);
                    if toks.len() > 0 {
                        toks[0]
                    } else {
                        Seq::empty()
                    }
                }),
            ),
        ),
{
    let mut tokens = tokenize(&cli.command_line);
    let name: Vec<u8> = if tokens.len() > 0 {
        proof {
            assert(spec_tokens(tokens@)[0] == tokens@[0]@);
        }
        tokens.swap_remove(0)
    } else {
        Vec::new()
    };
    let ghost v0 = writer@;
    let ghost part1 = "Unknown command: \"".spec_bytes();
    let ghost part3 = "\"\nType 'help' for a list of available commands\n".spec_bytes();
    writer.write_string("Unknown command: \"");
    writer.write_bytes(&name);
    writer.write_string("\"\nType 'help' for a list of available commands\n");
    proof {
        lemma_write_bytes_concat(v0, part1, name@);
        lemma_write_bytes_concat(v0, part1 + name@, part3);
        assert((part1 + name@) + part3 =~= spec_unknown_text(name@));
    }
}

} // verus!
