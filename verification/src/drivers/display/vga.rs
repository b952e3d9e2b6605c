//! VGA text-mode console.
//!
//! The screen is a grid of `BUFFER_Y` rows by `BUFFER_X` columns of 16-bit
//! cells held in memory that the display adapter reads. Text is always
//! written on the bottom row; a line feed, or a character past the last
//! column, scrolls the whole grid up by one row.

use vstd::prelude::*;
use volatile::Volatile;
use vstd::string::StringSliceAdditionalSpecFns;

verus! {

/// The sixteen colours of the VGA text palette, in palette order.
#[derive(Debug, Clone, Copy, PartialEq, Eq, Structural)]
pub enum Colour {
    Black,
    Blue,
    Green,
    Cyan,
    Red,
    Magenta,
    Brown,
    LightGray,
    DarkGray,
    LightBlue,
    LightGreen,
    LightCyan,
    LightRed,
    Pink,
    Yellow,
    White,
}

impl Colour {
    /// Palette index of the colour, `0..=15`.
    pub open spec fn index(self) -> int {
        match self {
            Colour::Black => 0,
            Colour::Blue => 1,
            Colour::Green => 2,
            Colour::Cyan => 3,
            Colour::Red => 4,
            Colour::Magenta => 5,
            Colour::Brown => 6,
            Colour::LightGray => 7,
            Colour::DarkGray => 8,
            Colour::LightBlue => 9,
            Colour::LightGreen => 10,
            Colour::LightCyan => 11,
            Colour::LightRed => 12,
            Colour::Pink => 13,
            Colour::Yellow => 14,
            Colour::White => 15,
        }
    }

    /// Palette index of the colour as the hardware encodes it.
    pub fn code(self) -> (c: u8)
        ensures
            c as int == self.index(),
    {
        self as u8
    }
}

/// A foreground and a background colour packed into one attribute byte:
/// the background in the high nibble, the foreground in the low nibble.
#[derive(Debug, Clone, Copy, PartialEq, Eq, Structural)]
pub struct ColourCode(pub u8);

impl ColourCode {
    /// The attribute byte for a foreground on a background.
    pub fn new(fg: Colour, bg: Colour) -> (code: Self)
        ensures
            code.0 as int == bg.index() * 16 + fg.index(),
    {
        let b: u8 = bg.code();
        let f: u8 = fg.code();
        assert(b < 16 && f < 16 ==> ((b << 4) | f) == b * 16 + f) by (bit_vector);
        Self(b << 4 | f)
    }
}

/// One character cell: the glyph and the attribute it is drawn with.
#[derive(Debug, Clone, Copy, PartialEq, Eq, Structural)]
pub struct ScreenChar {
    pub ascii_character: u8,
    pub colour_code: ColourCode,
}

impl ScreenChar {
    /// The 16-bit word the adapter reads for this cell: the glyph in the low
    /// byte, the attribute in the high byte.
    pub open spec fn word(self) -> int {
        self.colour_code.0 as int * 256 + self.ascii_character as int
    }

    /// The cell that a 16-bit word of display memory shows.
    pub open spec fn of_word(word: u16) -> ScreenChar {
        ScreenChar {
            ascii_character: (word as int % 256) as u8,
            colour_code: ColourCode((word as int / 256) as u8),
        }
    }

    /// The word of display memory that shows this cell.
    pub fn encode(self) -> (word: u16)
        ensures
            word as int == self.word(),
            ScreenChar::of_word(word) == self,
    {
        let glyph: u8 = self.ascii_character;
        let attribute: u8 = self.colour_code.0;
        let word: u16 = (attribute as u16) << 8 | (glyph as u16);
        assert(((attribute as u16) << 8 | (glyph as u16)) == attribute * 256 + glyph)
            by (bit_vector);
        word
    }

    /// The cell that a word of display memory shows.
    pub fn decode(word: u16) -> (cell: ScreenChar)
        ensures
            cell == ScreenChar::of_word(word),
            cell.word() == word as int,
    {
        let glyph: u8 = (word & 0xff) as u8;
        let attribute: u8 = (word >> 8) as u8;
        assert((word & 0xff) == word % 256) by (bit_vector);
        assert((word >> 8) == word / 256) by (bit_vector);
        ScreenChar { ascii_character: glyph, colour_code: ColourCode(attribute) }
    }
}

/// Number of text rows on the screen.
pub const BUFFER_Y: usize = 25;

/// Number of text columns on the screen.
pub const BUFFER_X: usize = 80;

/// Glyph written in place of a byte that is not printable ASCII.
pub const UNPRINTABLE: u8 = 0xfe;

/// The line feed, which starts a new line.
pub const LINE_FEED: u8 = 0x0a;

/// The space, which blank cells show.
pub const SPACE: u8 = 0x20;

/// `volatile::Volatile`, a cell whose loads and stores the compiler may not
/// elide. Known by the value it holds alone: see `cell_word`.
#[verifier::external_type_specification]
#[verifier::external_body]
#[verifier::reject_recursive_types(T)]
pub struct ExVolatile<T: Copy>(Volatile<T>);

/// Display memory: one volatile 16-bit word per character cell, row by row.
pub type Buffer = [[Volatile<u16>; BUFFER_X]; BUFFER_Y];

/// The word held by a cell of display memory.
pub uninterp spec fn cell_word(cell: Volatile<u16>) -> u16;

/// `volatile::Volatile::read`: a volatile load of the word the cell holds.
/// The cell is treated as memory, so the load gives the word stored last.
#[verifier::external_body]
fn cell_read(cell: &Volatile<u16>) -> (word: u16)
    ensures
        word == cell_word(*cell),
{
    cell.read()
}

/// `volatile::Volatile::write`: a volatile store; afterwards the cell holds
/// the given word.
#[verifier::external_body]
fn cell_write(cell: &mut Volatile<u16>, word: u16)
    ensures
        cell_word(*final(cell)) == word,
    no_unwind
{
    cell.write(word)
}

/// What the console shows and where the next character goes.
pub struct Screen {
    /// `BUFFER_Y` rows of `BUFFER_X` cells, top row first.
    pub rows: Seq<Seq<ScreenChar>>,
    /// Column of the bottom row that the next character is written to.
    pub column: int,
    /// Attribute that characters are written with.
    pub colour: ColourCode,
}

/// The byte the console shows for a byte of text: printable ASCII and the
/// line feed stand for themselves, every other byte for `UNPRINTABLE`.
pub open spec fn printable(byte: u8) -> u8 {
    if (0x20 <= byte <= 0x7e) || byte == LINE_FEED {
        byte
    } else {
        UNPRINTABLE
    }
}

impl Screen {
    /// Whether the screen has its shape: `BUFFER_Y` rows of `BUFFER_X` cells,
    /// and a cursor on the bottom row or just past its end.
    pub open spec fn wf(self) -> bool {
        &&& self.rows.len() == BUFFER_Y
        &&& forall|r: int| 0 <= r < BUFFER_Y ==> (#[trigger] self.rows[r]).len() == BUFFER_X
        &&& 0 <= self.column <= BUFFER_X
    }

    /// A space in the current colour.
    pub open spec fn blank(self) -> ScreenChar {
        ScreenChar { ascii_character: SPACE, colour_code: self.colour }
    }

    /// A row of blanks.
    pub open spec fn blank_row(self) -> Seq<ScreenChar> {
        Seq::new(BUFFER_X as nat, |c: int| self.blank())
    }

    /// The screen with one row blanked.
    pub open spec fn clear_row(self, row: int) -> Screen {
        Screen { rows: self.rows.update(row, self.blank_row()), ..self }
    }

    /// The screen scrolled up by one row: the top row is lost, the bottom row
    /// is blank and the next character goes to its first column.
    pub open spec fn new_line(self) -> Screen {
        Screen {
            rows: self.rows.subrange(1, BUFFER_Y as int).push(self.blank_row()),
            column: 0,
            colour: self.colour,
        }
    }

    /// The screen after one byte is written: a line feed scrolls; any other
    /// byte is placed at the cursor on the bottom row, after scrolling first
    /// if the row is full.
    pub open spec fn write_byte(self, byte: u8) -> Screen {
        if byte == LINE_FEED {
            self.new_line()
        } else {
            let s = if self.column >= BUFFER_X { self.new_line() } else { self };
            let cell = ScreenChar { ascii_character: byte, colour_code: s.colour };
            let last = BUFFER_Y - 1;
            Screen {
                rows: s.rows.update(last, s.rows[last].update(s.column, cell)),
                column: s.column + 1,
                colour: s.colour,
            }
        }
    }

    /// The screen after the bytes are written one after the other.
    pub open spec fn write_bytes(self, bytes: Seq<u8>) -> Screen
        decreases bytes.len(),
    {
        if bytes.len() == 0 {
            self
        } else {
            self.write_bytes(bytes.drop_last()).write_byte(bytes.last())
        }
    }

    /// The screen after a text is written, byte by byte, with every byte
    /// that is not printable replaced.
    pub open spec fn write_text(self, bytes: Seq<u8>) -> Screen {
        self.write_bytes(bytes.map_values(|b: u8| printable(b)))
    }
}

/// Writing keeps the screen's shape: whatever is written, the screen has
/// `BUFFER_Y` rows of `BUFFER_X` cells and the cursor is on the bottom row or
/// just past its end.
pub proof fn lemma_write_keeps_shape(s: Screen, bytes: Seq<u8>)
    requires
        s.wf(),
    ensures
        s.write_bytes(bytes).wf(),
        s.write_text(bytes).wf(),
    decreases bytes.len(),
{
    let shown = bytes.map_values(|b: u8| printable(b));
    if bytes.len() > 0 {
        lemma_write_keeps_shape(s, bytes.drop_last());
        assert(shown.drop_last() =~= bytes.drop_last().map_values(|b: u8| printable(b)));
    }
}

/// The console: a cursor on the bottom row, the colour in use and the
/// display memory it writes to.
pub struct Writer {
    column_pos: usize,
    colour_code: ColourCode,
    buffer: &'static mut Buffer,
}

impl View for Writer {
    type V = Screen;

    closed spec fn view(&self) -> Screen {
        Screen {
            rows: Seq::new(
                BUFFER_Y as nat,
                |r: int| Seq::new(
                    BUFFER_X as nat,
                    |c: int| ScreenChar::of_word(cell_word(self.buffer[r][c])),
                ),
            ),
            column: self.column_pos as int,
            colour: self.colour_code,
        }
    }
}

impl Writer {
    #[verifier::type_invariant]
    spec fn inv(self) -> bool {
        self.column_pos <= BUFFER_X
    }

    /// A console over the given display memory, writing in `colour_code`
    /// from the first column. What the memory holds stays on the screen.
    pub fn new(colour_code: ColourCode, buffer: &'static mut Buffer) -> (w: Writer)
        ensures
            w@.wf(),
            w@.column == 0,
            w@.colour == colour_code,
            forall|r: int, c: int|
                0 <= r < BUFFER_Y && 0 <= c < BUFFER_X ==> #[trigger] w@.rows[r][c]
                    == ScreenChar::of_word(cell_word(old(buffer)[r][c])),
    {
        Writer { column_pos: 0, colour_code, buffer }
    }

    /// The cell shown at `row`, `col`, or `None` outside the screen.
    pub fn char_at(&self, row: usize, col: usize) -> (cell: Option<ScreenChar>)
        ensures
            cell == if row < BUFFER_Y && col < BUFFER_X {
                Some(self@.rows[row as int][col as int])
            } else {
                None
            },
    {
        if row < BUFFER_Y && col < BUFFER_X {
            Some(ScreenChar::decode(cell_read(&self.buffer[row][col])))
        } else {
            None
        }
    }

    /// Column that the next character is written to.
    pub fn column(&self) -> (col: usize)
        ensures
            col == self@.column,
            self@.wf(),
    {
        proof {
            use_type_invariant(self);
        }
        self.column_pos
    }

    /// Blanks one row in the current colour. A row outside the screen is
    /// refused and nothing changes.
    pub fn clear_row(&mut self, row: usize) -> (r: Result<(), ()>)
        ensures
            r is Ok <==> row < BUFFER_Y,
            r is Ok ==> final(self)@ == old(self)@.clear_row(row as int),
            r is Err ==> final(self)@ == old(self)@,
    {
        if row >= BUFFER_Y {
            return Err(());
        }
        proof {
            use_type_invariant(&*self);
        }
        let ghost before = self@;
        let blank = ScreenChar { ascii_character: SPACE, colour_code: self.colour_code };
        let word = blank.encode();
        for col in 0..BUFFER_X
            invariant
                row < BUFFER_Y,
                before.wf(),
                self.column_pos <= BUFFER_X,
                ScreenChar::of_word(word) == before.blank(),
                self@.column == before.column,
                self@.colour == before.colour,
                forall|r: int, c: int|
                    0 <= r < BUFFER_Y && 0 <= c < BUFFER_X ==> #[trigger] self@.rows[r][c] == if r
                        == row && c < col {
                        before.blank()
                    } else {
                        before.rows[r][c]
                    },
        {
            let ghost prev = self@;
            cell_write(&mut self.buffer[row][col], word);
            assert forall|r: int, c: int| 0 <= r < BUFFER_Y && 0 <= c < BUFFER_X implies #[trigger] self@.rows[r][c]
                == if r == row && c == col {
                before.blank()
            } else {
                prev.rows[r][c]
            } by {}
        }
        assert(self@.rows =~~= before.clear_row(row as int).rows);
        Ok(())
    }

    /// Scrolls the screen up by one row and puts the cursor at the start of
    /// the blank bottom row.
    pub fn new_line(&mut self)
        ensures
            final(self)@ == old(self)@.new_line(),
    {
        proof {
            use_type_invariant(&*self);
        }
        let ghost before = self@;
        for row in 1..BUFFER_Y
            invariant
                before.wf(),
                self.column_pos <= BUFFER_X,
                self@.column == before.column,
                self@.colour == before.colour,
                forall|r: int, c: int|
                    0 <= r < BUFFER_Y && 0 <= c < BUFFER_X ==> #[trigger] self@.rows[r][c] == if r
                        < row - 1 {
                        before.rows[r + 1][c]
                    } else {
                        before.rows[r][c]
                    },
        {
            for col in 0..BUFFER_X
                invariant
                    1 <= row < BUFFER_Y,
                    before.wf(),
                    self.column_pos <= BUFFER_X,
                    self@.column == before.column,
                    self@.colour == before.colour,
                    forall|r: int, c: int|
                        0 <= r < BUFFER_Y && 0 <= c < BUFFER_X ==> #[trigger] self@.rows[r][c]
                            == if r < row - 1 || (r == row - 1 && c < col) {
                            before.rows[r + 1][c]
                        } else {
                            before.rows[r][c]
                        },
            {
                let ghost prev = self@;
                let character = cell_read(&self.buffer[row][col]);
                cell_write(&mut self.buffer[row - 1][col], character);
                assert forall|r: int, c: int| 0 <= r < BUFFER_Y && 0 <= c < BUFFER_X implies #[trigger] self@.rows[r][c]
                    == if r == row - 1 && c == col {
                    prev.rows[row as int][c]
                } else {
                    prev.rows[r][c]
                } by {}
            }
        }
        let cleared = self.clear_row(BUFFER_Y - 1);
        assert(cleared is Ok);
        self.column_pos = 0;
        assert(self@.rows =~~= before.new_line().rows);
    }

    /// Writes one byte: a line feed starts a new line, any other byte goes
    /// to the cursor on the bottom row, on a new line if the row is full.
    pub fn write_byte(&mut self, byte: u8)
        ensures
            final(self)@ == old(self)@.write_byte(byte),
    {
        if byte == LINE_FEED {
            self.new_line();
        } else {
            proof {
                use_type_invariant(&*self);
            }
            if self.column_pos >= BUFFER_X {
                self.new_line();
            }
            let row = BUFFER_Y - 1;
            let col = self.column_pos;
            let colour_code = self.colour_code;
            let cell = ScreenChar { ascii_character: byte, colour_code };
            cell_write(&mut self.buffer[row][col], cell.encode());
            self.column_pos += 1;
            assert(self@.rows =~~= old(self)@.write_byte(byte).rows);
        }
    }

    /// Writes a text byte by byte. Printable ASCII and line feeds are
    /// written as they are, every other byte as `UNPRINTABLE`.
    pub fn write_string(&mut self, s: &str)
        ensures
            final(self)@ == old(self)@.write_text(s.spec_bytes()),
    {
        let bytes = s.as_bytes();
        let ghost before = self@;
        let ghost shown = bytes@.map_values(|b: u8| printable(b));
        for i in 0..bytes.len()
            invariant
                bytes@ == s.spec_bytes(),
                shown == bytes@.map_values(|b: u8| printable(b)),
                self@ == before.write_bytes(shown.subrange(0, i as int)),
        {
            let b = bytes[i];
            assert(shown.subrange(0, i + 1).drop_last() =~= shown.subrange(0, i as int));
            if (0x20 <= b && b <= 0x7e) || b == LINE_FEED {
                self.write_byte(b);
            } else {
                self.write_byte(UNPRINTABLE);
            }
        }
        assert(shown.subrange(0, bytes.len() as int) =~= shown);
    }
}

/// `core::fmt::Error`, which a formatting sink returns when it fails. It
/// carries nothing.
#[verifier::external_type_specification]
#[verifier::external_body]
pub struct ExFmtError(core::fmt::Error);

/// The console as a sink for formatted text. Writing cannot fail.
impl core::fmt::Write for Writer {
    /// Writes a piece of formatted text, as `write_string` does.
    fn write_str(&mut self, s: &str) -> (r: Result<(), core::fmt::Error>)
        ensures
            r is Ok,
            final(self)@ == old(self)@.write_text(s.spec_bytes()),
    {
        self.write_string(s);
        Ok(())
    }
}

} // verus!
