//! The character-cell screen and the writer that renders to it.
//!
//! The 25-by-80 cell grid that the video hardware scans out is modelled as
//! owned data, and the writer's behaviour — writing a cell, wrapping and
//! scrolling on a newline, clearing a row, switching colors — is specified
//! as a pure function on a `VideoState` view and proved of the executable
//! code.  Flushing the grid to the memory-mapped hardware buffer is the
//! caller's concern, outside this model.

use vstd::prelude::*;
use vstd::string::StringSliceAdditionalSpecFns;

verus! {

/// The sixteen VGA colors, in hardware numbering order.
#[allow(dead_code)]
#[derive(Clone, Copy, PartialEq, Eq, Structural, Debug)]
pub enum Color {
    Black,
    Blue,
    Green,
    Cyan,
    Red,
    Magenta,
    Brown,
    LightGray,
    DarkGray,
    LightBlue,
    LightGreen,
    LightCyan,
    LightRed,
    Pink,
    Yellow,
    White,
}

/// The 4-bit hardware number of a color.
pub open spec fn color_num(c: Color) -> u8 {
    match c {
        Color::Black => 0,
        Color::Blue => 1,
        Color::Green => 2,
        Color::Cyan => 3,
        Color::Red => 4,
        Color::Magenta => 5,
        Color::Brown => 6,
        Color::LightGray => 7,
        Color::DarkGray => 8,
        Color::LightBlue => 9,
        Color::LightGreen => 10,
        Color::LightCyan => 11,
        Color::LightRed => 12,
        Color::Pink => 13,
        Color::Yellow => 14,
        Color::White => 15,
    }
}

impl Color {
    /// The 4-bit hardware number of this color.
    pub fn as_u8(self) -> (n: u8)
        ensures
            n == color_num(self),
            n < 16,
    {
        match self {
            Color::Black => 0,
            Color::Blue => 1,
            Color::Green => 2,
            Color::Cyan => 3,
            Color::Red => 4,
            Color::Magenta => 5,
            Color::Brown => 6,
            Color::LightGray => 7,
            Color::DarkGray => 8,
            Color::LightBlue => 9,
            Color::LightGreen => 10,
            Color::LightCyan => 11,
            Color::LightRed => 12,
            Color::Pink => 13,
            Color::Yellow => 14,
            Color::White => 15,
        }
    }

    /// The color with the given hardware number.
    pub fn from_u8(n: u8) -> (c: Color)
        requires
            n < 16,
        ensures
            color_num(c) == n,
    {
        match n {
            0 => Color::Black,
            1 => Color::Blue,
            2 => Color::Green,
            3 => Color::Cyan,
            4 => Color::Red,
            5 => Color::Magenta,
            6 => Color::Brown,
            7 => Color::LightGray,
            8 => Color::DarkGray,
            9 => Color::LightBlue,
            10 => Color::LightGreen,
            11 => Color::LightCyan,
            12 => Color::LightRed,
            13 => Color::Pink,
            14 => Color::Yellow,
            _ => Color::White,
        }
    }
}

/// A foreground/background pair packed as the hardware attribute byte:
/// the background color in the high nibble, the foreground in the low.
#[derive(Clone, Copy, PartialEq, Eq, Structural, Debug)]
pub struct ColorCode(pub u8);

/// The attribute byte for the given pair.
pub open spec fn spec_color_code(foreground: Color, background: Color) -> ColorCode {
    ColorCode((color_num(background) * 16 + color_num(foreground)) as u8)
}

impl ColorCode {
    /// The low nibble: the foreground color number.
    pub open spec fn spec_foreground(self) -> u8 {
        self.0 & 0x0F
    }

    /// The high nibble: the background color number.
    pub open spec fn spec_background(self) -> u8 {
        self.0 >> 4
    }

    pub fn new(foreground: Color, background: Color) -> (c: ColorCode)
        ensures
            c == spec_color_code(foreground, background),
    {
        let f = foreground.as_u8();
        let b = background.as_u8();
        proof {
            assert(f < 16 && b < 16 ==> (b << 4 | f) == b * 16 + f) by (bit_vector);
        }
        ColorCode(b << 4 | f)
    }

    pub fn get_foreground(self) -> (c: Color)
        ensures
            color_num(c) == self.spec_foreground(),
    {
        proof {
            let n = self.0;
            assert(n & 0x0F < 16) by (bit_vector);
        }
        Color::from_u8(self.0 & 0x0F)
    }

    pub fn get_background(self) -> (c: Color)
        ensures
            color_num(c) == self.spec_background(),
    {
        proof {
            let n = self.0;
            assert(n >> 4 < 16) by (bit_vector);
        }
        Color::from_u8(self.0 >> 4)
    }
}

/// Packing a pair and reading it back yields the pair: the two nibbles of
/// the attribute byte encode the two colors exactly.
pub proof fn lemma_color_code_roundtrip(foreground: Color, background: Color)
    ensures
        spec_color_code(foreground, background).spec_foreground() == color_num(foreground),
        spec_color_code(foreground, background).spec_background() == color_num(background),
{
    let f = color_num(foreground);
    let b = color_num(background);
    assert(f < 16 && b < 16 ==> ((b * 16 + f) as u8) & 0x0F == f) by (bit_vector);
    assert(f < 16 && b < 16 ==> ((b * 16 + f) as u8) >> 4 == b) by (bit_vector);
}

/// One screen cell: a character byte and its attribute byte.
#[derive(Clone, Copy, PartialEq, Eq, Structural, Debug)]
pub struct ScreenChar {
    pub ascii_character: u8,
    pub color_code: ColorCode,
}

/// The number of rows on the screen.
pub const BUFFER_HEIGHT: usize = 25;

/// The number of character cells in a row.
pub const BUFFER_WIDTH: usize = 80;

/// The cell grid the video hardware scans out.
pub struct Buffer {
    pub chars: Vec<Vec<ScreenChar>>,
}

impl Buffer {
    /// The grid as a sequence of rows of cells.
    pub open spec fn grid(&self) -> Seq<Seq<ScreenChar>> {
        Seq::new(self.chars@.len(), |i: int| self.chars@[i]@)
    }
}

/// The abstract state of the writer: the grid, the cursor column, the
/// (unused but carried) row position, and the current color pair.
#[verifier::ext_equal]
pub struct VideoState {
    pub grid: Seq<Seq<ScreenChar>>,
    pub col: int,
    pub row: int,
    pub color: ColorCode,
}

impl VideoState {
    /// A well-formed screen: 25 rows of 80 cells.
    pub open spec fn wf(self) -> bool {
        &&& self.grid.len() == 25
        &&& forall|r: int| 0 <= r < 25 ==> (#[trigger] self.grid[r]).len() == 80
        &&& self.col >= 0
        &&& self.row >= 0
    }
}

/// A blank cell in the given colors.
pub open spec fn spec_blank(color: ColorCode) -> ScreenChar {
    ScreenChar { ascii_character: 0x20, color_code: color }
}

/// A row of blank cells.
pub open spec fn spec_blank_row(color: ColorCode) -> Seq<ScreenChar> {
    Seq::new(80, |j: int| spec_blank(color))
}

/// The screen after a newline: every row moves up one, the tail of the
/// writing row (beyond the cursor) is blanked as it becomes row 23, the
/// bottom row is cleared, and the cursor returns to column 0.
pub open spec fn spec_new_line(v: VideoState) -> VideoState {
    VideoState {
        grid: Seq::new(
            25,
            |r: int|
                if r < 23 {
                    v.grid[r + 1]
                } else if r == 23 {
                    Seq::new(
                        80,
                        |j: int|
                            if j >= v.col {
                                spec_blank(v.color)
                            } else {
                                v.grid[24][j]
                            },
                    )
                } else {
                    spec_blank_row(v.color)
                },
        ),
        col: 0,
        ..v
    }
}

/// The screen after writing one byte: a newline scrolls; any other byte
/// lands on the bottom row at the cursor (scrolling first if the row is
/// full) in the current colors, and the cursor advances.
pub open spec fn spec_write_byte(v: VideoState, b: u8) -> VideoState {
    if b == 0x0A {
        spec_new_line(v)
    } else {
        let v1 = if v.col >= 80 {
            spec_new_line(v)
        } else {
            v
        };
        VideoState {
            grid: v1.grid.update(
                24,
                v1.grid[24].update(
                    v1.col,
                    ScreenChar { ascii_character: b, color_code: v1.color },
                ),
            ),
            col: v1.col + 1,
            ..v1
        }
    }
}

/// How `write_string` filters a byte before writing it: printable ASCII
/// and newline pass, anything else becomes 0xFE.
pub open spec fn spec_sanitize(b: u8) -> u8 {
    if (0x20 <= b <= 0x7E) || b == 0x0A {
        b
    } else {
        0xFE
    }
}

/// The screen after writing a whole byte sequence through the sanitizing
/// filter, left to right.
pub open spec fn spec_write_bytes(v: VideoState, s: Seq<u8>) -> VideoState
    decreases s.len(),
{
    if s.len() == 0 {
        v
    } else {
        spec_write_bytes(spec_write_byte(v, spec_sanitize(s[0])), s.drop_first())
    }
}

/// The screen after clearing one row to blanks in the current colors.
pub open spec fn spec_clear_row(v: VideoState, row: int) -> VideoState {
    VideoState { grid: v.grid.update(row, spec_blank_row(v.color)), ..v }
}

/// Writing one more byte after a sequence is the same as writing the
/// sequence extended by that byte.
pub proof fn lemma_write_bytes_snoc(v: VideoState, s: Seq<u8>, b: u8)
    ensures
        spec_write_bytes(v, s.push(b)) == spec_write_byte(
            spec_write_bytes(v, s),
            spec_sanitize(b),
        ),
    decreases s.len(),
{
    reveal_with_fuel(spec_write_bytes, 3);
    assert(s.push(b)[0] == if s.len() == 0 { b } else { s[0] });
    if s.len() == 0 {
        assert(s.push(b).drop_first() =~= Seq::<u8>::empty());
    } else {
        assert(s.push(b).drop_first() =~= s.drop_first().push(b));
        lemma_write_bytes_snoc(spec_write_byte(v, spec_sanitize(s[0])), s.drop_first(), b);
    }
}

/// Writing a concatenation writes the two parts one after the other.
pub proof fn lemma_write_bytes_concat(v: VideoState, s1: Seq<u8>, s2: Seq<u8>)
    ensures
        spec_write_bytes(v, s1 + s2) == spec_write_bytes(spec_write_bytes(v, s1), s2),
    decreases s1.len(),
{
    if s1.len() == 0 {
        assert(s1 + s2 =~= s2);
    } else {
        assert((s1 + s2).drop_first() =~= s1.drop_first() + s2);
        lemma_write_bytes_concat(spec_write_byte(v, spec_sanitize(s1[0])), s1.drop_first(), s2);
    }
}

/// The writer: cursor position, current colors, and the owned cell grid.
pub struct Writer {
    pub column_position: usize,
    pub row_position: usize,
    pub color_code: ColorCode,
    pub buffer: Buffer,
}

impl View for Writer {
    type V = VideoState;

    open spec fn view(&self) -> VideoState {
        VideoState {
            grid: self.buffer.grid(),
            col: self.column_position as int,
            row: self.row_position as int,
            color: self.color_code,
        }
    }
}

/// A freshly built row of blanks.
fn blank_row(color: ColorCode) -> (row: Vec<ScreenChar>)
    ensures
        row@ =~= spec_blank_row(color),
{
    let mut row: Vec<ScreenChar> = Vec::new();
    let mut j: usize = 0;
    while j < BUFFER_WIDTH
        invariant
            j <= 80,
            row@.len() == j,
            forall|i: int| 0 <= i < j ==> row@[i] == spec_blank(color),
        decreases 80 - j,
    {
        row.push(ScreenChar { ascii_character: 0x20, color_code: color });
        j += 1;
    }
    row
}

impl Writer {
    /// A writer over a blank screen, in the boot colors: yellow on black,
    /// cursor at the top left.
    pub fn new() -> (w: Writer)
        ensures
            w@.wf(),
            w@.col == 0,
            w@.row == 0,
            w@.color == spec_color_code(Color::Yellow, Color::Black),
            w@.grid =~= Seq::new(25, |r: int| spec_blank_row(w@.color)),
    {
        let color_code = ColorCode::new(Color::Yellow, Color::Black);
        let mut chars: Vec<Vec<ScreenChar>> = Vec::new();
        let mut r: usize = 0;
        while r < BUFFER_HEIGHT
            invariant
                r <= 25,
                chars@.len() == r,
                forall|i: int| 0 <= i < r ==> (#[trigger] chars@[i])@ =~= spec_blank_row(
                    color_code,
                ),
            decreases 25 - r,
        {
            chars.push(blank_row(color_code));
            r += 1;
        }
        let w = Writer { column_position: 0, row_position: 0, color_code, buffer: Buffer { chars } };
        proof {
            assert(w@.grid =~~= Seq::new(25, |i: int| spec_blank_row(color_code)));
        }
        w
    }

    /// Replaces the current colors: a `None` keeps the present foreground
    /// or background.
    pub fn set_colors(&mut self, foreground: Option<Color>, background: Option<Color>)
        ensures
            final(self)@.grid == old(self)@.grid,
            final(self)@.col == old(self)@.col,
            final(self)@.row == old(self)@.row,
            final(self).color_code.spec_foreground() == (match foreground {
                Some(c) => color_num(c),
                None => old(self).color_code.spec_foreground(),
            }),
            final(self).color_code.spec_background() == (match background {
                Some(c) => color_num(c),
                None => old(self).color_code.spec_background(),
            }),
    {
        let f = match foreground {
            Some(c) => c,
            None => self.color_code.get_foreground(),
        };
        let b = match background {
            Some(c) => c,
            None => self.color_code.get_background(),
        };
        self.color_code = ColorCode::new(f, b);
        proof {
            lemma_color_code_roundtrip(f, b);
        }
    }

    /// Scrolls: every row moves up, the freed bottom row is blanked.
    fn new_line(&mut self)
        requires
            old(self)@.wf(),
        ensures
            final(self)@.wf(),
            final(self)@ == spec_new_line(old(self)@),
    {
        let color = self.color_code;
        proof {
            assert forall|r: int| 0 <= r < 25 implies (#[trigger] old(self).buffer.chars@[r])@
                == old(self)@.grid[r] && old(self)@.grid[r].len() == 80 by {}
        }
        let _first_row = self.buffer.chars.remove(0);
        self.buffer.chars.push(blank_row(color));
        let col0 = self.column_position;
        let mut j = col0;
        while j < BUFFER_WIDTH
            invariant
                old(self)@.wf(),
                col0 <= j,
                j <= 80 || j == col0,
                col0 == old(self)@.col,
                self.column_position == col0,
                self.row_position == old(self).row_position,
                self.color_code == old(self).color_code,
                self.buffer.chars@.len() == 25,
                forall|r: int| 0 <= r < 23 ==> (#[trigger] self.buffer.chars@[r])@ == old(
                    self,
                )@.grid[r + 1],
                self.buffer.chars@[24]@ =~= spec_blank_row(color),
                self.buffer.chars@[23]@.len() == 80,
                forall|i: int| 0 <= i < 80 ==> (#[trigger] self.buffer.chars@[23]@[i]) == (
                    if col0 <= i < j {
                        spec_blank(color)
                    } else {
                        old(self)@.grid[24][i]
                    }),
            decreases 80 - j,
        {
            self.buffer.chars[23][j] = ScreenChar { ascii_character: 0x20, color_code: color };
            j += 1;
        }
        self.column_position = 0;
        proof {
            assert(self@ =~~= spec_new_line(old(self)@));
        }
    }

    /// Writes one byte at the cursor, scrolling first when the row is full
    /// or the byte is a newline.
    pub fn write_byte(&mut self, byte: u8)
        requires
            old(self)@.wf(),
        ensures
            final(self)@.wf(),
            final(self)@ == spec_write_byte(old(self)@, byte),
    {
        if byte == 0x0A {
            self.new_line();
        } else {
            if self.column_position >= BUFFER_WIDTH {
                self.new_line();
            }
            let col = self.column_position;
            let color_code = self.color_code;
            proof {
                assert(self@.grid[24] == self.buffer.chars@[24]@);
            }
            self.buffer.chars[BUFFER_HEIGHT - 1][col] = ScreenChar {
                ascii_character: byte,
                color_code,
            };
            self.column_position = col + 1;
            proof {
                assert(self@ =~~= spec_write_byte(old(self)@, byte));
            }
        }
    }

    /// Writes a string byte by byte, replacing anything outside printable
    /// ASCII (other than newline) with 0xFE.
    pub fn write_string(&mut self, s: &str)
        requires
            old(self)@.wf(),
        ensures
            final(self)@.wf(),
            final(self)@ == spec_write_bytes(old(self)@, s.spec_bytes()),
    {
        let bytes = s.as_bytes();
        let n = bytes.len();
        let mut i: usize = 0;
        while i < n
            invariant
                i <= n,
                n == s.spec_bytes().len(),
                bytes@ == s.spec_bytes(),
                self@.wf(),
                self@ == spec_write_bytes(old(self)@, s.spec_bytes().take(i as int)),
            decreases n - i,
        {
            let b = bytes[i];
            proof {
                lemma_write_bytes_snoc(old(self)@, s.spec_bytes().take(i as int), b);
                assert(s.spec_bytes().take(i as int).push(b) =~= s.spec_bytes().take(i + 1));
            }
            if (0x20 <= b && b <= 0x7E) || b == 0x0A {
                self.write_byte(b);
            } else {
                self.write_byte(0xFE);
            }
            i += 1;
        }
        proof {
            assert(s.spec_bytes().take(n as int) =~= s.spec_bytes());
        }
    }

    /// Blanks one row in the current colors.
    pub fn clear_row(&mut self, row: usize)
        requires
            old(self)@.wf(),
            row < 25,
        ensures
            final(self)@.wf(),
            final(self)@ == spec_clear_row(old(self)@, row as int),
    {
        let color = self.color_code;
        proof {
            assert forall|r: int| 0 <= r < 25 implies (#[trigger] old(self).buffer.chars@[r])@
                == old(self)@.grid[r] && old(self)@.grid[r].len() == 80 by {}
        }
        let mut col: usize = 0;
        while col < BUFFER_WIDTH
            invariant
                old(self)@.wf(),
                row < 25,
                col <= 80,
                self.column_position == old(self).column_position,
                self.row_position == old(self).row_position,
                self.color_code == old(self).color_code,
                self.buffer.chars@.len() == 25,
                forall|r: int| 0 <= r < 25 && r != row ==> (#[trigger] self.buffer.chars@[r])@
                    == old(self)@.grid[r],
                self.buffer.chars@[row as int]@.len() == 80,
                forall|i: int| 0 <= i < 80 ==> (#[trigger] self.buffer.chars@[row as int]@[i]) == (
                    if i < col {
                        spec_blank(color)
                    } else {
                        old(self)@.grid[row as int][i]
                    }),
            decreases 80 - col,
        {
            self.buffer.chars[row][col] = ScreenChar { ascii_character: 0x20, color_code: color };
            col += 1;
        }
        proof {
            assert(self@ =~~= spec_clear_row(old(self)@, row as int));
        }
    }

    /// The character byte of one cell, for inspection.
    pub fn char_at(&self, row: usize, col: usize) -> (b: u8)
        requires
            self@.wf(),
            row < 25,
            col < 80,
        ensures
            b == self@.grid[row as int][col as int].ascii_character,
    {
        proof {
            assert(self@.grid[row as int] == self.buffer.chars@[row as int]@);
        }
        self.buffer.chars[row][col].ascii_character
    }

    /// The whole cell at one position, for inspection.
    pub fn cell_at(&self, row: usize, col: usize) -> (c: ScreenChar)
        requires
            self@.wf(),
            row < 25,
            col < 80,
        ensures
            c == self@.grid[row as int][col as int],
    {
        proof {
            assert(self@.grid[row as int] == self.buffer.chars@[row as int]@);
        }
        self.buffer.chars[row][col]
    }
}


impl Writer {
    /// Writes a byte sequence through the same sanitizing filter as
    /// `write_string`.
    pub fn write_bytes(&mut self, bytes: &Vec<u8>)
        requires
            old(self)@.wf(),
        ensures
            final(self)@.wf(),
            final(self)@ == spec_write_bytes(old(self)@, bytes@),
    {
        let n = bytes.len();
        let mut i: usize = 0;
        while i < n
            invariant
                i <= n,
                n == bytes@.len(),
                self@.wf(),
                self@ == spec_write_bytes(old(self)@, bytes@.take(i as int)),
            decreases n - i,
        {
            let b = bytes[i];
            proof {
                lemma_write_bytes_snoc(old(self)@, bytes@.take(i as int), b);
                assert(bytes@.take(i as int).push(b) =~= bytes@.take(i + 1));
            }
            if (0x20 <= b && b <= 0x7E) || b == 0x0A {
                self.write_byte(b);
            } else {
                self.write_byte(0xFE);
            }
            i += 1;
        }
        proof {
            assert(bytes@.take(n as int) =~= bytes@);
        }
    }
}

/// The hexadecimal digit character for a value below sixteen.
pub open spec fn spec_hex_digit(n: int) -> u8 {
    if n < 10 {
        (0x30 + n) as u8
    } else {
        (0x57 + n) as u8
    }
}

/// The two hexadecimal digit characters of a byte, high digit first.
pub open spec fn spec_hex_u8(b: u8) -> Seq<u8> {
    seq![spec_hex_digit(b as int / 16), spec_hex_digit(b as int % 16)]
}

/// The eight hexadecimal digit characters of a 32-bit value, high first.
pub open spec fn spec_hex_u32(x: u32) -> Seq<u8> {
    seq![
        spec_hex_digit(x as int / 0x1000_0000 % 16),
        spec_hex_digit(x as int / 0x100_0000 % 16),
        spec_hex_digit(x as int / 0x10_0000 % 16),
        spec_hex_digit(x as int / 0x1_0000 % 16),
        spec_hex_digit(x as int / 0x1000 % 16),
        spec_hex_digit(x as int / 0x100 % 16),
        spec_hex_digit(x as int / 0x10 % 16),
        spec_hex_digit(x as int % 16),
    ]
}

/// The 16 three-character groups of a dump line's hex column, from group
/// `j` on: two digits and a space for each byte present, three spaces for
/// each group past the end of the chunk.
pub open spec fn spec_hex_area(chunk: Seq<u8>, j: int) -> Seq<u8>
    decreases 16 - j,
{
    if j < 0 || j >= 16 {
        Seq::empty()
    } else if j < chunk.len() {
        spec_hex_u8(chunk[j]) + seq![0x20u8] + spec_hex_area(chunk, j + 1)
    } else {
        seq![0x20u8, 0x20u8, 0x20u8] + spec_hex_area(chunk, j + 1)
    }
}

/// The printable-characters column of a dump line: each byte of the chunk
/// as itself when printable, as a dot otherwise.
pub open spec fn spec_ascii_area(chunk: Seq<u8>) -> Seq<u8> {
    chunk.map(|i: int, b: u8| if 0x20 <= b <= 0x7E { b } else { 0x2Eu8 })
}

/// One dump line: the address in `0x`-prefixed hexadecimal, a colon, the
/// hex column, the printable column, a newline.
pub open spec fn spec_dump_line(addr: u32, chunk: Seq<u8>) -> Seq<u8> {
    seq![0x30u8, 0x78u8] + spec_hex_u32(addr) + seq![0x3Au8, 0x20u8] + spec_hex_area(chunk, 0)
        + spec_ascii_area(chunk) + seq![0x0Au8]
}

/// The whole text a dump emits: one line per 16-byte chunk, the running
/// address climbing by 16, and a final blank line.
pub open spec fn spec_hexdump_text(addr: int, data: Seq<u8>) -> Seq<u8>
    decreases data.len(),
{
    if data.len() == 0 {
        seq![0x0Au8]
    } else if data.len() < 16 {
        spec_dump_line(addr as u32, data) + spec_hexdump_text(addr + 16, Seq::empty())
    } else {
        spec_dump_line(addr as u32, data.take(16)) + spec_hexdump_text(addr + 16, data.skip(16))
    }
}

/// The hexadecimal digit character for a nibble value.
fn hex_digit(n: u8) -> (c: u8)
    requires
        n < 16,
    ensures
        c == spec_hex_digit(n as int),
{
    if n < 10 {
        0x30 + n
    } else {
        0x57 + n
    }
}

/// Appends the two hex digits of a byte.
fn push_hex_u8(text: &mut Vec<u8>, b: u8)
    ensures
        final(text)@ == old(text)@ + spec_hex_u8(b),
{
    text.push(hex_digit(b / 16));
    text.push(hex_digit(b % 16));
    proof {
        assert(text@ =~= old(text)@ + spec_hex_u8(b));
    }
}

/// Appends the eight hex digits of a 32-bit value.
fn push_hex_u32(text: &mut Vec<u8>, x: u32)
    ensures
        final(text)@ == old(text)@ + spec_hex_u32(x),
{
    text.push(hex_digit(((x / 0x1000_0000) % 16) as u8));
    text.push(hex_digit(((x / 0x100_0000) % 16) as u8));
    text.push(hex_digit(((x / 0x10_0000) % 16) as u8));
    text.push(hex_digit(((x / 0x1_0000) % 16) as u8));
    text.push(hex_digit(((x / 0x1000) % 16) as u8));
    text.push(hex_digit(((x / 0x100) % 16) as u8));
    text.push(hex_digit(((x / 0x10) % 16) as u8));
    text.push(hex_digit((x % 16) as u8));
    proof {
        assert(text@ =~= old(text)@ + spec_hex_u32(x));
    }
}

/// Appends one dump line for the chunk `data[i .. i + n]` at address `addr`.
fn push_dump_line(text: &mut Vec<u8>, addr: u32, data: &Vec<u8>, i: usize, n: usize)
    requires
        i + n <= data@.len(),
        n <= 16,
    ensures
        final(text)@ == old(text)@ + spec_dump_line(addr, data@.subrange(i as int, i + n)),
{
    let ghost chunk = data@.subrange(i as int, i + n);
    proof {
        vstd::std_specs::vec::axiom_spec_len(data);
    }
    text.push(0x30);
    text.push(0x78);
    push_hex_u32(text, addr);
    text.push(0x3A);
    text.push(0x20);
    let ghost after_addr = text@;
    proof {
        assert(after_addr + spec_hex_area(chunk, 0) =~= text@ + spec_hex_area(chunk, 0));
    }

    let mut j: usize = 0;
    while j < 16
        invariant
            j <= 16,
            i + n <= data@.len(),
            data@.len() <= usize::MAX,
            n <= 16,
            chunk == data@.subrange(i as int, i + n),
            after_addr + spec_hex_area(chunk, 0) == text@ + spec_hex_area(chunk, j as int),
        decreases 16 - j,
    {
        let ghost text_before = text@;
        if j < n {
            proof {
                assert(chunk[j as int] == data@[i + j]);
            }
            push_hex_u8(text, data[i + j]);
            text.push(0x20);
            proof {
                assert(text@ =~= text_before + (spec_hex_u8(chunk[j as int]) + seq![0x20u8]));
            }
        } else {
            text.push(0x20);
            text.push(0x20);
            text.push(0x20);
            proof {
                assert(text@ =~= text_before + seq![0x20u8, 0x20u8, 0x20u8]);
            }
        }
        proof {
            let g: Seq<u8> = if j < n {
                spec_hex_u8(chunk[j as int]) + seq![0x20u8]
            } else {
                seq![0x20u8, 0x20u8, 0x20u8]
            };
            assert(spec_hex_area(chunk, j as int) == g + spec_hex_area(chunk, j + 1));
            assert(text_before + (g + spec_hex_area(chunk, j + 1)) =~= (text_before + g)
                + spec_hex_area(chunk, j + 1));
        }
        j += 1;
    }
    proof {
        assert(text@ =~= after_addr + spec_hex_area(chunk, 0));
    }
    let ghost after_hex = text@;

    let mut k: usize = 0;
    while k < n
        invariant
            k <= n,
            i + n <= data@.len(),
            data@.len() <= usize::MAX,
            n <= 16,
            chunk == data@.subrange(i as int, i + n),
            text@ == after_hex + spec_ascii_area(chunk).take(k as int),
        decreases n - k,
    {
        proof {
            assert(chunk[k as int] == data@[i + k]);
            assert(spec_ascii_area(chunk).take(k + 1) =~= spec_ascii_area(chunk).take(k as int)
                + seq![spec_ascii_area(chunk)[k as int]]);
        }
        let b = data[i + k];
        if 0x20 <= b && b <= 0x7E {
            text.push(b);
        } else {
            text.push(0x2E);
        }
        proof {
            assert(text@ =~= after_hex + spec_ascii_area(chunk).take(k + 1));
        }
        k += 1;
    }
    text.push(0x0A);
    proof {
        assert(spec_ascii_area(chunk).take(n as int) =~= spec_ascii_area(chunk));
        assert(text@ =~= old(text)@ + spec_dump_line(addr, chunk));
    }
}

/// The text a dump of `data` at `addr` emits, as one byte vector.
#[verifier::rlimit(50)]
pub fn hexdump_text(addr: u32, data: &Vec<u8>) -> (text: Vec<u8>)
    requires
        addr + data@.len() <= 0xFFFF_FFFF,
    ensures
        text@ == spec_hexdump_text(addr as int, data@),
{
    let size = data.len();
    let mut text: Vec<u8> = Vec::new();
    proof {
        assert(data@.skip(0) =~= data@);
        assert(text@ + spec_hexdump_text(addr as int, data@) =~= spec_hexdump_text(
            addr as int,
            data@,
        ));
    }
    let mut i: usize = 0;
    while i < size
        invariant
            i <= size,
            size == data@.len(),
            addr + size <= 0xFFFF_FFFF,
            spec_hexdump_text(addr as int, data@) == text@ + spec_hexdump_text(
                addr + i,
                data@.skip(i as int),
            ),
        decreases size - i,
    {
        let n = if size - i >= 16 {
            16
        } else {
            size - i
        };
        let ghost text_before = text@;
        let ghost rest = data@.skip(i as int);
        let ghost chunk = data@.subrange(i as int, i + n);
        proof {
            if rest.len() >= 16 {
                assert(chunk =~= rest.take(16));
                assert(data@.skip(i + 16) =~= rest.skip(16));
            } else {
                assert(chunk =~= rest);
            }
        }
        push_dump_line(&mut text, addr + i as u32, data, i, n);
        proof {
            let line = spec_dump_line((addr + i) as u32, chunk);
            let tail = spec_hexdump_text(addr + i + 16, data@.skip(i + n));
            if rest.len() < 16 {
                assert(data@.skip(i + n) =~= Seq::<u8>::empty());
                assert(spec_hexdump_text(addr + i + 16, Seq::<u8>::empty()) == seq![0x0Au8]);
                assert(spec_hexdump_text(addr + i + n, Seq::<u8>::empty()) == seq![0x0Au8]);
            }
            assert(spec_hexdump_text(addr + i, rest) == line + tail);
            assert(text_before + (line + tail) =~= (text_before + line) + tail);
            assert(spec_hexdump_text(addr + (i + n), data@.skip(i + n)) == tail);
        }
        i += n;
    }
    text.push(0x0A);
    proof {
        assert(data@.skip(i as int) =~= Seq::<u8>::empty());
        assert(text@ =~= spec_hexdump_text(addr as int, data@));
    }
    text
}

/// Renders a dump of `data`, read from address `addr`, to the screen:
/// sixteen bytes per line with their printable characters, then a blank
/// line.
pub fn hexdump(writer: &mut Writer, addr: u32, data: &Vec<u8>)
    requires
        old(writer)@.wf(),
        addr + data@.len() <= 0xFFFF_FFFF,
    ensures
        final(writer)@.wf(),
        final(writer)@ == spec_write_bytes(old(writer)@, spec_hexdump_text(addr as int, data@)),
{
    let text = hexdump_text(addr, data);
    writer.write_bytes(&text);
}

} // verus!
