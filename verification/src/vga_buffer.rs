//! Text-mode output driver logic: a writer over a fixed 25x80 character
//! buffer that appends bytes on the bottom row, scrolls on a line feed or
//! when a row fills, and replaces unprintable bytes with a marker glyph.
//!
//! The buffer is modelled as owned memory of plain cells; the seam that maps
//! it onto the memory-mapped video region belongs to the unverified shell.
use crate::volatile::Volatile;
use vstd::prelude::*;
use vstd::string::StringSliceAdditionalSpecFns;

verus! {

pub const BUFFER_HEIGHT: usize = 25;

pub const BUFFER_WIDTH: usize = 80;

/// The sixteen colors of the text-mode palette.
#[derive(Debug, Clone, Copy, PartialEq, Eq, Structural)]
pub enum Color {
    Black,
    Blue,
    Green,
    Cyan,
    Red,
    Magenta,
    Brown,
    LightGray,
    DarkGray,
    LightBlue,
    LightGreen,
    LightCyan,
    LightRed,
    Pink,
    Yellow,
    White,
}

/// The palette number the hardware assigns to each color.
pub open spec fn color_number(c: Color) -> u8 {
    match c {
        Color::Black => 0,
        Color::Blue => 1,
        Color::Green => 2,
        Color::Cyan => 3,
        Color::Red => 4,
        Color::Magenta => 5,
        Color::Brown => 6,
        Color::LightGray => 7,
        Color::DarkGray => 8,
        Color::LightBlue => 9,
        Color::LightGreen => 10,
        Color::LightCyan => 11,
        Color::LightRed => 12,
        Color::Pink => 13,
        Color::Yellow => 14,
        Color::White => 15,
    }
}

impl Color {
    /// The palette number of this color, as the hardware encodes it.
    pub fn as_u8(self) -> (r: u8)
        ensures
            r == color_number(self),
    {
        match self {
            Color::Black => 0,
            Color::Blue => 1,
            Color::Green => 2,
            Color::Cyan => 3,
            Color::Red => 4,
            Color::Magenta => 5,
            Color::Brown => 6,
            Color::LightGray => 7,
            Color::DarkGray => 8,
            Color::LightBlue => 9,
            Color::LightGreen => 10,
            Color::LightCyan => 11,
            Color::LightRed => 12,
            Color::Pink => 13,
            Color::Yellow => 14,
            Color::White => 15,
        }
    }
}

/// One attribute byte: background color in the high nibble, foreground in
/// the low nibble.
#[derive(Debug, Clone, Copy, PartialEq, Eq, Structural)]
pub struct ColorCode(pub u8);

impl ColorCode {
    /// Packs a foreground and a background color into one attribute byte.
    pub fn new(foreground: Color, background: Color) -> (r: ColorCode)
        ensures
            r.0 == color_number(background) * 16 + color_number(foreground),
    {
        let fg = foreground.as_u8();
        let bg = background.as_u8();
        proof {
            assert((bg << 4) | fg == bg * 16 + fg) by (bit_vector)
                requires
                    fg < 16 && bg < 16,
            ;
        }
        ColorCode((bg << 4) | fg)
    }
}

/// One cell of the screen: a code-page glyph and its attribute byte.
#[derive(Debug, Clone, Copy, PartialEq, Eq, Structural)]
pub struct ScreenChar {
    pub char: u8,
    pub color_code: ColorCode,
}

/// The 25x80 cell matrix the writer draws into.
pub struct Buffer {
    pub chars: Vec<Vec<Volatile<ScreenChar>>>,
}

/// The buffer contents as a sequence of rows of plain cells.
pub open spec fn buffer_view(b: Buffer) -> Seq<Seq<ScreenChar>> {
    Seq::new(
        b.chars@.len(),
        |i: int| Seq::new(b.chars@[i]@.len(), |j: int| b.chars@[i]@[j].0),
    )
}

/// The abstract state of a writer: the cell matrix, the column where the
/// next byte lands, and the active attribute byte.
#[verifier::ext_equal]
pub ghost struct WriterView {
    pub rows: Seq<Seq<ScreenChar>>,
    pub col: int,
    pub color: ColorCode,
}

/// A well-formed writer state: full 25x80 matrix, cursor within the row.
pub open spec fn view_wf(v: WriterView) -> bool {
    &&& v.rows.len() == BUFFER_HEIGHT
    &&& forall|i: int| 0 <= i < BUFFER_HEIGHT ==> (#[trigger] v.rows[i]).len() == BUFFER_WIDTH
    &&& 0 <= v.col <= BUFFER_WIDTH
}

/// The blank cell a cleared position holds: a space in the given colors.
pub open spec fn blank_char(color: ColorCode) -> ScreenChar {
    ScreenChar { char: 0x20, color_code: color }
}

/// A whole row of blank cells.
pub open spec fn blank_row(color: ColorCode) -> Seq<ScreenChar> {
    Seq::new(BUFFER_WIDTH as nat, |j: int| blank_char(color))
}

/// The matrix after scrolling: every row moves up one, and the bottom row
/// is cleared in the given colors.
pub open spec fn scrolled(rows: Seq<Seq<ScreenChar>>, color: ColorCode) -> Seq<Seq<ScreenChar>> {
    Seq::new(
        BUFFER_HEIGHT as nat,
        |i: int| if i < BUFFER_HEIGHT - 1 { rows[i + 1] } else { blank_row(color) },
    )
}

/// The writer state after accepting one byte: a line feed scrolls; any
/// other byte lands on the bottom row at the cursor (scrolling first if the
/// row is full) and advances the cursor.
pub open spec fn write_byte_spec(v: WriterView, byte: u8) -> WriterView {
    if byte == 0x0a {
        WriterView { rows: scrolled(v.rows, v.color), col: 0, color: v.color }
    } else {
        let s = if v.col >= BUFFER_WIDTH {
            WriterView { rows: scrolled(v.rows, v.color), col: 0, color: v.color }
        } else {
            v
        };
        WriterView {
            rows: s.rows.update(
                BUFFER_HEIGHT - 1,
                s.rows[BUFFER_HEIGHT - 1].update(s.col, ScreenChar { char: byte, color_code: v.color }),
            ),
            col: s.col + 1,
            color: v.color,
        }
    }
}

/// A byte the screen can show as itself: printable ASCII or the line feed.
pub open spec fn printable(byte: u8) -> bool {
    0x20 <= byte <= 0x7e || byte == 0x0a
}

/// What a byte of input turns into on screen: itself when printable, the
/// marker glyph otherwise.
pub open spec fn normalized(byte: u8) -> u8 {
    if printable(byte) {
        byte
    } else {
        0xfe
    }
}

/// The writer state after accepting a whole sequence of input bytes, each
/// normalized and then written in order.
pub open spec fn write_bytes_spec(v: WriterView, bytes: Seq<u8>) -> WriterView
    decreases bytes.len(),
{
    if bytes.len() == 0 {
        v
    } else {
        write_byte_spec(write_bytes_spec(v, bytes.drop_last()), normalized(bytes.last()))
    }
}

/// Writes bytes into the bottom row of the cell matrix, scrolling it as
/// rows fill.
pub struct Writer {
    pub col_pos: usize,
    pub color_code: ColorCode,
    pub buffer: Buffer,
}

impl View for Writer {
    type V = WriterView;

    open spec fn view(&self) -> WriterView {
        WriterView {
            rows: buffer_view(self.buffer),
            col: self.col_pos as int,
            color: self.color_code,
        }
    }
}

impl Writer {
    /// A writer over an all-blank matrix, drawing in the given colors.
    pub fn new(color_code: ColorCode) -> (w: Writer)
        ensures
            view_wf(w@),
            w@.col == 0,
            w@.color == color_code,
            w@.rows =~~= Seq::new(BUFFER_HEIGHT as nat, |i: int| blank_row(color_code)),
    {
        let mut chars: Vec<Vec<Volatile<ScreenChar>>> = Vec::new();
        for i in 0..BUFFER_HEIGHT
            invariant
                chars@.len() == i,
                forall|r: int| 0 <= r < i ==> (#[trigger] chars@[r])@.len() == BUFFER_WIDTH,
                forall|r: int, c: int|
                    0 <= r < i && 0 <= c < BUFFER_WIDTH ==> (#[trigger] chars@[r]@[c]).0 == blank_char(color_code),
        {
            let mut row: Vec<Volatile<ScreenChar>> = Vec::new();
            for j in 0..BUFFER_WIDTH
                invariant
                    row@.len() == j,
                    forall|c: int| 0 <= c < j ==> (#[trigger] row@[c]).0 == blank_char(color_code),
            {
                row.push(Volatile::new(ScreenChar { char: 0x20, color_code }));
            }
            chars.push(row);
        }
        let w = Writer { col_pos: 0, color_code, buffer: Buffer { chars } };
        proof {
            assert(w@.rows =~~= Seq::new(BUFFER_HEIGHT as nat, |i: int| blank_row(color_code)));
        }
        w
    }

    /// The cell at a given position.
    pub fn read(&self, row: usize, col: usize) -> (r: ScreenChar)
        requires
            view_wf(self@),
            row < BUFFER_HEIGHT,
            col < BUFFER_WIDTH,
        ensures
            r == self@.rows[row as int][col as int],
    {
        proof {
            assert(self@.rows.len() == self.buffer.chars@.len());
            assert(self@.rows[row as int].len() == self.buffer.chars@[row as int]@.len());
        }
        self.buffer.chars[row][col].read()
    }

    /// Scrolls the matrix one row up: every row moves to the one above it,
    /// the bottom row is cleared, and the cursor returns to the left edge.
    pub fn new_line(&mut self)
        requires
            view_wf(old(self)@),
        ensures
            view_wf(final(self)@),
            final(self)@.rows =~~= scrolled(old(self)@.rows, old(self)@.color),
            final(self)@.col == 0,
            final(self)@.color == old(self)@.color,
    {
        for row in 1..BUFFER_HEIGHT
            invariant
                view_wf(old(self)@),
                self.col_pos == old(self).col_pos,
                self.color_code == old(self).color_code,
                self@.rows.len() == BUFFER_HEIGHT,
                forall|i: int| 0 <= i < BUFFER_HEIGHT ==> (#[trigger] self@.rows[i]).len() == BUFFER_WIDTH,
                forall|i: int| 0 <= i < row - 1 ==> self@.rows[i] == old(self)@.rows[i + 1],
                forall|i: int| row - 1 <= i < BUFFER_HEIGHT ==> self@.rows[i] == old(self)@.rows[i],
        {
            for col in 0..BUFFER_WIDTH
                invariant
                    view_wf(old(self)@),
                    1 <= row < BUFFER_HEIGHT,
                    self.col_pos == old(self).col_pos,
                    self.color_code == old(self).color_code,
                    self@.rows.len() == BUFFER_HEIGHT,
                    forall|i: int| 0 <= i < BUFFER_HEIGHT ==> (#[trigger] self@.rows[i]).len() == BUFFER_WIDTH,
                    forall|i: int| 0 <= i < row - 1 ==> self@.rows[i] == old(self)@.rows[i + 1],
                    forall|i: int| row <= i < BUFFER_HEIGHT ==> self@.rows[i] == old(self)@.rows[i],
                    forall|c: int| 0 <= c < col ==> (#[trigger] self@.rows[row - 1][c]) == old(self)@.rows[row as int][c],
                    forall|c: int| col <= c < BUFFER_WIDTH ==> (#[trigger] self@.rows[row - 1][c]) == old(self)@.rows[row - 1][c],
            {
                proof {
                    assert(self.buffer.chars@.len() == BUFFER_HEIGHT);
                    assert(self@.rows[row as int].len() == self.buffer.chars@[row as int]@.len());
                    assert(self@.rows[row - 1].len() == self.buffer.chars@[row - 1]@.len());
                }
                let character = self.buffer.chars[row][col].read();
                let ghost prev = self@;
                self.buffer.chars[row - 1][col].write(character);
                proof {
                    assert(forall|i: int|
                        0 <= i < BUFFER_HEIGHT && i != row - 1 ==> #[trigger] self@.rows[i] =~= prev.rows[i]);
                    assert(self@.rows[row - 1] =~= prev.rows[row - 1].update(
                        col as int,
                        old(self)@.rows[row as int][col as int],
                    ));
                }
            }
            proof {
                assert(self@.rows[row - 1] =~= old(self)@.rows[row as int]);
            }
        }
        self.clear_row(BUFFER_HEIGHT - 1);
        self.col_pos = 0;
        proof {
            assert(self@.rows =~~= scrolled(old(self)@.rows, old(self)@.color));
        }
    }

    /// Accepts one byte: a line feed scrolls; any other byte lands on the
    /// bottom row at the cursor, scrolling first if the row is full.
    pub fn write_byte(&mut self, byte: u8)
        requires
            view_wf(old(self)@),
        ensures
            view_wf(final(self)@),
            final(self)@ == write_byte_spec(old(self)@, byte),
    {
        if byte == 0x0a {
            self.new_line();
            proof {
                assert(self@ =~~= write_byte_spec(old(self)@, byte));
            }
        } else {
            if self.col_pos >= BUFFER_WIDTH {
                self.new_line();
            }
            let ghost mid = self@;
            let row = BUFFER_HEIGHT - 1;
            let col = self.col_pos;
            let color_code = self.color_code;
            proof {
                assert(self.buffer.chars@.len() == BUFFER_HEIGHT);
                assert(self@.rows[row as int].len() == self.buffer.chars@[row as int]@.len());
            }
            self.buffer.chars[row][col].write(ScreenChar { char: byte, color_code });
            self.col_pos = self.col_pos + 1;
            proof {
                assert(forall|i: int|
                    0 <= i < BUFFER_HEIGHT && i != row ==> #[trigger] self@.rows[i] =~= mid.rows[i]);
                assert(self@.rows[row as int] =~= mid.rows[row as int].update(
                    mid.col,
                    ScreenChar { char: byte, color_code: mid.color },
                ));
                assert(self@ =~~= write_byte_spec(old(self)@, byte));
            }
        }
    }

    /// Writes every byte of a string: printable ASCII and line feeds go
    /// through as they are, anything else becomes the marker glyph.
    pub fn write_string(&mut self, s: &str)
        requires
            view_wf(old(self)@),
        ensures
            view_wf(final(self)@),
            final(self)@ == write_bytes_spec(old(self)@, s.spec_bytes()),
    {
        let bytes = s.as_bytes();
        for i in 0..bytes.len()
            invariant
                view_wf(old(self)@),
                view_wf(self@),
                bytes@ == s.spec_bytes(),
                self@ == write_bytes_spec(old(self)@, bytes@.take(i as int)),
        {
            let byte = bytes[i];
            let ghost done = bytes@.take(i as int);
            proof {
                assert(bytes@.take(i + 1).drop_last() =~= done);
                assert(bytes@.take(i + 1).last() == byte);
            }
            if (0x20 <= byte && byte <= 0x7e) || byte == 0x0a {
                self.write_byte(byte);
            } else {
                self.write_byte(0xfe);
            }
        }
        proof {
            assert(bytes@.take(bytes@.len() as int) =~= bytes@);
        }
    }

    /// Clears one row to blanks in the writer's colors.
    pub fn clear_row(&mut self, row: usize)
        requires
            view_wf(old(self)@),
            row < BUFFER_HEIGHT,
        ensures
            view_wf(final(self)@),
            final(self)@.rows =~~= old(self)@.rows.update(row as int, blank_row(old(self)@.color)),
            final(self)@.col == old(self)@.col,
            final(self)@.color == old(self)@.color,
    {
        let blank = ScreenChar { char: 0x20, color_code: self.color_code };
        for col in 0..BUFFER_WIDTH
            invariant
                view_wf(old(self)@),
                row < BUFFER_HEIGHT,
                blank == blank_char(old(self)@.color),
                self.col_pos == old(self).col_pos,
                self.color_code == old(self).color_code,
                self@.rows.len() == BUFFER_HEIGHT,
                forall|i: int| 0 <= i < BUFFER_HEIGHT && i != row ==> self@.rows[i] == old(self)@.rows[i],
                self@.rows[row as int].len() == BUFFER_WIDTH,
                forall|c: int| 0 <= c < col ==> self@.rows[row as int][c] == blank_char(old(self)@.color),
                forall|c: int| col <= c < BUFFER_WIDTH ==> self@.rows[row as int][c] == old(self)@.rows[row as int][c],
        {
            let ghost prev = self@;
            self.buffer.chars[row][col].write(blank);
            proof {
                assert(forall|i: int|
                    0 <= i < BUFFER_HEIGHT && i != row ==> #[trigger] self@.rows[i] =~= prev.rows[i]);
                assert(self@.rows[row as int] =~= prev.rows[row as int].update(col as int, blank_char(prev.color)));
            }
        }
        proof {
            assert(self@.rows =~~= old(self)@.rows.update(row as int, blank_row(old(self)@.color)));
        }
    }
}

} // verus!
