//! The console writer: a fixed 25x80 grid of character cells, a cursor
//! column, and a current color attribute, with line wrap and scroll-up.

use vstd::prelude::*;
use crate::volatile_cell::{vol_contents, vol_new, vol_read, vol_write};

verus! {

/// Number of text rows in the hardware grid.
pub const BUFFER_HEIGHT: usize = 25;

/// Number of text columns in the hardware grid.
pub const BUFFER_WIDTH: usize = 80;

/// The newline code point: triggers a scroll and a column reset, writes no cell.
pub const NEWLINE_BYTE: u8 = 0x0A;

/// First printable ASCII code point (the space character).
pub const SPACE_BYTE: u8 = 0x20;

/// Last printable ASCII code point.
pub const LAST_PRINTABLE_BYTE: u8 = 0x7E;

/// The hardware's "unprintable" glyph, substituted for any byte outside the
/// printable range when writing a string.
pub const PLACEHOLDER_BYTE: u8 = 0xFE;

/// One of the 16 hardware color identifiers. The hardware code of each is its
/// position in the declaration, starting from 0 for `Black`.
#[allow(dead_code)]
#[derive(Debug, Clone, Copy, PartialEq, Eq, Structural)]
pub enum Color {
    Black,
    Blue,
    Green,
    Cyan,
    Red,
    Magenta,
    Brown,
    LightGray,
    DarkGray,
    LightBlue,
    LightGreen,
    LightCyan,
    LightRed,
    Pink,
    Yellow,
    White,
}

impl Color {
    /// The 4-bit hardware code of this color.
    pub open spec fn spec_code(self) -> u8 {
        match self {
            Color::Black => 0,
            Color::Blue => 1,
            Color::Green => 2,
            Color::Cyan => 3,
            Color::Red => 4,
            Color::Magenta => 5,
            Color::Brown => 6,
            Color::LightGray => 7,
            Color::DarkGray => 8,
            Color::LightBlue => 9,
            Color::LightGreen => 10,
            Color::LightCyan => 11,
            Color::LightRed => 12,
            Color::Pink => 13,
            Color::Yellow => 14,
            Color::White => 15,
        }
    }

    /// The 4-bit hardware code of this color.
    #[verifier::when_used_as_spec(spec_code)]
    pub fn code(self) -> (r: u8)
        ensures
            r == self.spec_code(),
    {
        match self {
            Color::Black => 0,
            Color::Blue => 1,
            Color::Green => 2,
            Color::Cyan => 3,
            Color::Red => 4,
            Color::Magenta => 5,
            Color::Brown => 6,
            Color::LightGray => 7,
            Color::DarkGray => 8,
            Color::LightBlue => 9,
            Color::LightGreen => 10,
            Color::LightCyan => 11,
            Color::LightRed => 12,
            Color::Pink => 13,
            Color::Yellow => 14,
            Color::White => 15,
        }
    }
}

/// A packed attribute byte: a background color code in the high 4 bits and a
/// foreground color code in the low 4 bits.
#[derive(Debug, Clone, Copy, PartialEq, Eq, Structural)]
pub struct ColorCode(pub u8);

impl ColorCode {
    /// Packs a foreground and a background color into one attribute byte.
    pub fn new(foreground: Color, background: Color) -> (r: ColorCode)
        ensures
            r.0 == (background.spec_code() << 4) | foreground.spec_code(),
            r.0 == background.spec_code() * 16 + foreground.spec_code(),
    {
        let fg: u8 = foreground.code();
        let bg: u8 = background.code();
        proof {
            assert(fg < 16 && bg < 16);
            assert(fg < 16 && bg < 16 ==> ((bg << 4) | fg) == bg * 16 + fg) by (bit_vector);
        }
        ColorCode((bg << 4) | fg)
    }
}

/// One hardware-visible cell: the ASCII code point to display and the
/// attribute to display it with. The hardware reads the pair as two
/// consecutive bytes, character first, attribute second.
#[derive(Debug, Clone, Copy, PartialEq, Eq, Structural)]
pub struct ScreenChar {
    pub ascii_character: u8,
    pub color_char: ColorCode,
}

/// The flat index of the cell at `(row, col)` in the row-major grid.
pub open spec fn cell_index(row: int, col: int) -> int {
    row * BUFFER_WIDTH + col
}

/// The cell of a grid at `(row, col)`.
pub open spec fn cell_of(g: Seq<ScreenChar>, row: int, col: int) -> ScreenChar {
    g[cell_index(row, col)]
}

/// A space character carrying the given attribute: what a cleared cell holds.
pub open spec fn blank_char(attr: ColorCode) -> ScreenChar {
    ScreenChar { ascii_character: SPACE_BYTE, color_char: attr }
}

/// The fixed-size grid of volatile cells, row-major, as the hardware lays it
/// out: `BUFFER_HEIGHT * BUFFER_WIDTH` consecutive cells. Its view is the
/// sequence of cell values currently stored.
pub struct Buffer {
    chars: Vec<volatile::Volatile<ScreenChar>>,
}

impl View for Buffer {
    type V = Seq<ScreenChar>;

    closed spec fn view(&self) -> Seq<ScreenChar> {
        Seq::new(self.chars@.len(), |i: int| vol_contents(self.chars@[i]))
    }
}

impl Buffer {
    /// The grid has exactly `BUFFER_HEIGHT * BUFFER_WIDTH` cells.
    pub open spec fn wf(&self) -> bool {
        self@.len() == BUFFER_HEIGHT * BUFFER_WIDTH
    }

    /// Allocates a grid with every cell holding `fill`.
    pub fn new(fill: ScreenChar) -> (b: Buffer)
        ensures
            b.wf(),
            forall|i: int| 0 <= i < b@.len() ==> b@[i] == fill,
    {
        let mut chars: Vec<volatile::Volatile<ScreenChar>> = Vec::new();
        let n: usize = BUFFER_HEIGHT * BUFFER_WIDTH;
        let mut i: usize = 0;
        while i < n
            invariant
                i <= n,
                n == BUFFER_HEIGHT * BUFFER_WIDTH,
                chars@.len() == i,
                forall|j: int| 0 <= j < i ==> vol_contents(chars@[j]) == fill,
            decreases n - i,
        {
            chars.push(vol_new(fill));
            i = i + 1;
        }
        Buffer { chars }
    }

    /// Reads the cell at `(row, col)` with one volatile read.
    pub fn read_cell(&self, row: usize, col: usize) -> (c: ScreenChar)
        requires
            self.wf(),
            row < BUFFER_HEIGHT,
            col < BUFFER_WIDTH,
        ensures
            c == self@[cell_index(row as int, col as int)],
    {
        let idx: usize = row * BUFFER_WIDTH + col;
        vol_read(&self.chars[idx])
    }

    /// Overwrites the cell at `(row, col)` with one volatile write; no other
    /// cell changes.
    pub fn write_cell(&mut self, row: usize, col: usize, c: ScreenChar)
        requires
            old(self).wf(),
            row < BUFFER_HEIGHT,
            col < BUFFER_WIDTH,
        ensures
            final(self).wf(),
            final(self)@ == old(self)@.update(cell_index(row as int, col as int), c),
    {
        let idx: usize = row * BUFFER_WIDTH + col;
        vol_write(&mut self.chars[idx], c);
        proof {
            assert(self@ =~= old(self)@.update(cell_index(row as int, col as int), c));
        }
    }
}

/// The abstract state of the console writer: the grid contents, the cursor
/// column on the bottom row, and the current attribute.
#[verifier::ext_equal]
pub ghost struct WriterView {
    pub grid: Seq<ScreenChar>,
    pub column: int,
    pub attr: ColorCode,
}

/// A well-formed writer state: a full-size grid and a column within
/// `0 ..= BUFFER_WIDTH` (`column == BUFFER_WIDTH` is the pending-wrap state).
pub open spec fn view_wf(v: WriterView) -> bool {
    &&& v.grid.len() == BUFFER_HEIGHT * BUFFER_WIDTH
    &&& 0 <= v.column <= BUFFER_WIDTH
}

/// The grid after one scroll: every row moves up by one (row 0's contents are
/// discarded) and the bottom row becomes blank cells carrying `attr`.
pub open spec fn scrolled(grid: Seq<ScreenChar>, attr: ColorCode) -> Seq<ScreenChar> {
    Seq::new(
        grid.len(),
        |i: int|
            if i < (BUFFER_HEIGHT - 1) * BUFFER_WIDTH {
                grid[i + BUFFER_WIDTH]
            } else {
                blank_char(attr)
            },
    )
}

/// The writer state after one byte is written: newline scrolls and resets the
/// column writing no cell; any other byte first wraps if the line is full,
/// then lands at the cursor on the bottom row and advances the column.
pub open spec fn step(v: WriterView, b: u8) -> WriterView {
    if b == NEWLINE_BYTE {
        WriterView { grid: scrolled(v.grid, v.attr), column: 0, attr: v.attr }
    } else {
        let grid0 = if v.column >= BUFFER_WIDTH {
            scrolled(v.grid, v.attr)
        } else {
            v.grid
        };
        let col0 = if v.column >= BUFFER_WIDTH {
            0
        } else {
            v.column
        };
        WriterView {
            grid: grid0.update(
                cell_index(BUFFER_HEIGHT - 1, col0),
                ScreenChar { ascii_character: b, color_char: v.attr },
            ),
            column: col0 + 1,
            attr: v.attr,
        }
    }
}

/// True of the bytes the hardware font can render directly.
pub open spec fn is_printable(b: u8) -> bool {
    SPACE_BYTE <= b && b <= LAST_PRINTABLE_BYTE
}

/// The byte that writing a string forwards for `b`: printable bytes and
/// newline pass unchanged, everything else becomes the placeholder glyph.
pub open spec fn glyph_of(b: u8) -> u8 {
    if is_printable(b) || b == NEWLINE_BYTE {
        b
    } else {
        PLACEHOLDER_BYTE
    }
}

/// True of a cell the hardware font table can render: its character byte is
/// printable or is the placeholder glyph.
pub open spec fn renderable(c: ScreenChar) -> bool {
    is_printable(c.ascii_character) || c.ascii_character == PLACEHOLDER_BYTE
}

/// Every cell of the grid is renderable.
pub open spec fn all_renderable(g: Seq<ScreenChar>) -> bool {
    forall|i: int| 0 <= i < g.len() ==> renderable(#[trigger] g[i])
}

/// The writer state after a whole byte sequence is written through the
/// string path, each byte first passed through `glyph_of`.
pub open spec fn run(v: WriterView, s: Seq<u8>) -> WriterView
    decreases s.len(),
{
    if s.len() == 0 {
        v
    } else {
        step(run(v, s.drop_last()), glyph_of(s.last()))
    }
}

/// The console writer: exclusive owner of the grid, a cursor column on the
/// bottom row, and the attribute applied to every cell it writes.
pub struct Writer {
    column_position: usize,
    color_code: ColorCode,
    buffer: Buffer,
}

impl View for Writer {
    type V = WriterView;

    closed spec fn view(&self) -> WriterView {
        WriterView {
            grid: self.buffer@,
            column: self.column_position as int,
            attr: self.color_code,
        }
    }
}

impl Writer {
    /// The writer's state is well formed.
    pub open spec fn wf(&self) -> bool {
        view_wf(self@)
    }

    /// Builds a writer over a freshly blank grid, with the cursor at column 0
    /// and the attribute packed from the given color pair.
    pub fn new(foreground: Color, background: Color) -> (w: Writer)
        ensures
            w.wf(),
            w@.column == 0,
            w@.attr.0 == background.spec_code() * 16 + foreground.spec_code(),
            w@.grid.len() == BUFFER_HEIGHT * BUFFER_WIDTH,
            forall|i: int| 0 <= i < w@.grid.len() ==> w@.grid[i] == blank_char(w@.attr),
    {
        let color_code = ColorCode::new(foreground, background);
        let fill = ScreenChar { ascii_character: SPACE_BYTE, color_char: color_code };
        Writer { column_position: 0, color_code, buffer: Buffer::new(fill) }
    }

    /// The current cursor column.
    pub fn column(&self) -> (c: usize)
        ensures
            c as int == self@.column,
    {
        self.column_position
    }

    /// The attribute applied to newly written cells.
    pub fn attribute(&self) -> (a: ColorCode)
        ensures
            a == self@.attr,
    {
        self.color_code
    }

    /// The cell currently stored at `(row, col)`, read with one volatile read.
    pub fn cell_at(&self, row: usize, col: usize) -> (c: ScreenChar)
        requires
            self.wf(),
            row < BUFFER_HEIGHT,
            col < BUFFER_WIDTH,
        ensures
            c == self@.grid[cell_index(row as int, col as int)],
    {
        self.buffer.read_cell(row, col)
    }

    /// Clears one row to blank cells carrying the current attribute; every
    /// other cell, the column and the attribute stay as they were.
    pub fn clear_row(&mut self, row: usize)
        requires
            old(self).wf(),
            row < BUFFER_HEIGHT,
        ensures
            final(self).wf(),
            final(self)@.column == old(self)@.column,
            final(self)@.attr == old(self)@.attr,
            forall|i: int|
                cell_index(row as int, 0) <= i < cell_index(row as int + 1, 0)
                    ==> final(self)@.grid[i] == blank_char(old(self)@.attr),
            forall|i: int|
                0 <= i < old(self)@.grid.len()
                    && !(cell_index(row as int, 0) <= i < cell_index(row as int + 1, 0))
                    ==> final(self)@.grid[i] == old(self)@.grid[i],
    {
        let cur = ScreenChar { ascii_character: SPACE_BYTE, color_char: self.color_code };
        let mut col: usize = 0;
        while col < BUFFER_WIDTH
            invariant
                col <= BUFFER_WIDTH,
                row < BUFFER_HEIGHT,
                old(self).wf(),
                self.wf(),
                self.column_position == old(self).column_position,
                self.color_code == old(self).color_code,
                cur == blank_char(old(self)@.attr),
                forall|i: int|
                    cell_index(row as int, 0) <= i < cell_index(row as int, 0) + col
                        ==> self@.grid[i] == blank_char(old(self)@.attr),
                forall|i: int|
                    0 <= i < old(self)@.grid.len()
                        && !(cell_index(row as int, 0) <= i < cell_index(row as int, 0) + col)
                        ==> self@.grid[i] == old(self)@.grid[i],
            decreases BUFFER_WIDTH - col,
        {
            self.buffer.write_cell(row, col, cur);
            col = col + 1;
        }
    }

    /// Scrolls the grid up by one row, clears the bottom row to blanks with
    /// the current attribute, and resets the cursor to column 0.
    pub fn new_line(&mut self)
        requires
            old(self).wf(),
        ensures
            final(self).wf(),
            final(self)@.grid == scrolled(old(self)@.grid, old(self)@.attr),
            final(self)@.column == 0,
            final(self)@.attr == old(self)@.attr,
    {
        let mut row: usize = 1;
        while row < BUFFER_HEIGHT
            invariant
                1 <= row <= BUFFER_HEIGHT,
                old(self).wf(),
                self.wf(),
                self.color_code == old(self).color_code,
                forall|i: int|
                    0 <= i < (row - 1) * BUFFER_WIDTH
                        ==> self@.grid[i] == old(self)@.grid[i + BUFFER_WIDTH],
                forall|i: int|
                    (row - 1) * BUFFER_WIDTH <= i < old(self)@.grid.len()
                        ==> self@.grid[i] == old(self)@.grid[i],
            decreases BUFFER_HEIGHT - row,
        {
            let mut col: usize = 0;
            while col < BUFFER_WIDTH
                invariant
                    1 <= row < BUFFER_HEIGHT,
                    col <= BUFFER_WIDTH,
                    old(self).wf(),
                    self.wf(),
                    self.color_code == old(self).color_code,
                    forall|i: int|
                        0 <= i < (row - 1) * BUFFER_WIDTH + col
                            ==> self@.grid[i] == old(self)@.grid[i + BUFFER_WIDTH],
                    forall|i: int|
                        (row - 1) * BUFFER_WIDTH + col <= i < old(self)@.grid.len()
                            ==> self@.grid[i] == old(self)@.grid[i],
                decreases BUFFER_WIDTH - col,
            {
                let cur = self.buffer.read_cell(row, col);
                self.buffer.write_cell(row - 1, col, cur);
                col = col + 1;
            }
            row = row + 1;
        }
        self.clear_row(BUFFER_HEIGHT - 1);
        self.column_position = 0;
        proof {
            assert(self@.grid =~= scrolled(old(self)@.grid, old(self)@.attr));
        }
    }

    /// Writes one byte. A newline scrolls and resets the column without
    /// writing a cell; any other byte value is placed as a cell at the cursor
    /// on the bottom row — after a scroll, if the line was already full —
    /// with the current attribute, and the column advances by one.
    pub fn write_byte(&mut self, byte: u8)
        requires
            old(self).wf(),
        ensures
            final(self).wf(),
            final(self)@ == step(old(self)@, byte),
    {
        if byte == NEWLINE_BYTE {
            self.new_line();
            proof {
                assert(self@ =~= step(old(self)@, byte));
            }
        } else {
            if self.column_position >= BUFFER_WIDTH {
                self.new_line();
            }
            let row: usize = BUFFER_HEIGHT - 1;
            let col: usize = self.column_position;
            let color_code = self.color_code;
            self.buffer.write_cell(
                row,
                col,
                ScreenChar { ascii_character: byte, color_char: color_code },
            );
            self.column_position = self.column_position + 1;
            proof {
                assert(self@ =~= step(old(self)@, byte));
            }
        }
    }

    /// Writes a sequence of bytes left to right, forwarding printable bytes
    /// and newlines to `write_byte` unchanged and substituting the
    /// placeholder glyph for every other byte.
    pub fn write_string(&mut self, s: &[u8])
        requires
            old(self).wf(),
        ensures
            final(self).wf(),
            final(self)@ == run(old(self)@, s@),
    {
        let mut i: usize = 0;
        while i < s.len()
            invariant
                i <= s@.len(),
                old(self).wf(),
                self.wf(),
                self@ == run(old(self)@, s@.take(i as int)),
            decreases s@.len() - i,
        {
            let byte = s[i];
            if (byte >= SPACE_BYTE && byte <= LAST_PRINTABLE_BYTE) || byte == NEWLINE_BYTE {
                self.write_byte(byte);
            } else {
                self.write_byte(PLACEHOLDER_BYTE);
            }
            proof {
                assert(s@.take(i + 1).drop_last() =~= s@.take(i as int));
                assert(s@.take(i + 1).last() == s@[i as int]);
            }
            i = i + 1;
        }
        proof {
            assert(s@.take(s@.len() as int) =~= s@);
        }
    }
}

} // verus!
