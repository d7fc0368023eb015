//! The text screen: 25 rows of 80 characters, written from left to right
//! in one row, with the rows above it moving up at the end of each line.

use vstd::prelude::*;
use vstd::slice::*;
use vstd::string::StringSliceAdditionalSpecFns;

verus! {

/// Number of rows of the screen.
pub const VGA_HEIGHT: usize = 25;

/// Number of characters of a row.
pub const VGA_WIDTH: usize = 80;

/// Where the screen lies in physical memory.
pub const VGA_ADDRESS: usize = 0xb8000;

/// The byte that ends a line.
pub const LINE_FEED: u8 = 0x0a;

/// The byte of a space.
pub const SPACE: u8 = 0x20;

/// The sixteen colors of the screen.
#[allow(dead_code)]
#[derive(Debug, Clone, Copy, PartialEq, Eq, Structural)]
pub enum Color {
    Black,
    Blue,
    Green,
    Cyan,
    Red,
    Magenta,
    Brown,
    LightGray,
    DarkGray,
    LightBlue,
    LightGreen,
    LightCyan,
    LightRed,
    Pink,
    Yellow,
    White,
}

impl Color {
    /// The number of the color, in four bits.
    pub open spec fn number(self) -> u8 {
        match self {
            Color::Black => 0,
            Color::Blue => 1,
            Color::Green => 2,
            Color::Cyan => 3,
            Color::Red => 4,
            Color::Magenta => 5,
            Color::Brown => 6,
            Color::LightGray => 7,
            Color::DarkGray => 8,
            Color::LightBlue => 9,
            Color::LightGreen => 10,
            Color::LightCyan => 11,
            Color::LightRed => 12,
            Color::Pink => 13,
            Color::Yellow => 14,
            Color::White => 15,
        }
    }

    /// Computes `number`.
    pub fn code(self) -> (code: u8)
        ensures
            code == self.number(),
            code < 16,
    {
        match self {
            Color::Black => 0,
            Color::Blue => 1,
            Color::Green => 2,
            Color::Cyan => 3,
            Color::Red => 4,
            Color::Magenta => 5,
            Color::Brown => 6,
            Color::LightGray => 7,
            Color::DarkGray => 8,
            Color::LightBlue => 9,
            Color::LightGreen => 10,
            Color::LightCyan => 11,
            Color::LightRed => 12,
            Color::Pink => 13,
            Color::Yellow => 14,
            Color::White => 15,
        }
    }
}

/// The colors of a character: the background in the upper four bits, the
/// foreground in the lower four.
#[derive(Debug, Clone, Copy, PartialEq, Eq, Structural)]
pub struct ColorCode(pub u8);

impl ColorCode {
    /// The code of `foreground` on `background`.
    pub fn new(foreground: Color, background: Color) -> (code: ColorCode)
        ensures
            code.0 == background.number() * 16 + foreground.number(),
    {
        let back = background.code();
        let fore = foreground.code();
        assert((back << 4) | fore == back * 16 + fore) by (bit_vector)
            requires
                back < 16,
                fore < 16,
        ;
        ColorCode((back << 4) | fore)
    }
}

/// A character of the screen.
#[derive(Debug, Clone, Copy, PartialEq, Eq, Structural)]
pub struct ScreenCharacter {
    pub ascii_character: u8,
    pub color_code: ColorCode,
}

/// A space in the colors `color_code`.
pub open spec fn blank(color_code: ColorCode) -> ScreenCharacter {
    ScreenCharacter { ascii_character: SPACE, color_code }
}

/// The screen as the writer sees it: the rows from top to bottom, the row
/// `y` that is written to, the column `x` of the next character, and the
/// colors in use.
pub struct Screen {
    pub x: int,
    pub y: int,
    pub color_code: ColorCode,
    pub rows: Seq<Seq<ScreenCharacter>>,
}

impl Screen {
    /// The screen has 25 rows of 80 characters, and the next character
    /// goes into one of them or just behind the end of the row.
    pub open spec fn wf(self) -> bool {
        &&& 0 <= self.x <= VGA_WIDTH
        &&& 0 <= self.y < VGA_HEIGHT
        &&& self.rows.len() == VGA_HEIGHT
        &&& forall|row: int| 0 <= row < VGA_HEIGHT ==> (#[trigger] self.rows[row]).len()
            == VGA_WIDTH
    }

    /// The screen after a line has ended: every row but the first has moved
    /// up by one, the row that is written to is blank, and the next
    /// character goes to its start.
    pub open spec fn new_line(self) -> Screen {
        Screen {
            x: 0,
            rows: Seq::new(
                VGA_HEIGHT as nat,
                |row: int|
                    if row == self.y {
                        Seq::new(VGA_WIDTH as nat, |col: int| blank(self.color_code))
                    } else if row + 1 < VGA_HEIGHT {
                        self.rows[row + 1]
                    } else {
                        self.rows[row]
                    },
            ),
            ..self
        }
    }

    /// The screen after `byte` was written: a line feed ends the line; any
    /// other byte is put at the place of the next character, on a new line
    /// if the row is full.
    pub open spec fn write_byte(self, byte: u8) -> Screen {
        if byte == LINE_FEED {
            self.new_line()
        } else {
            let room = if self.x >= VGA_WIDTH {
                self.new_line()
            } else {
                self
            };
            Screen {
                x: room.x + 1,
                rows: room.rows.update(
                    room.y,
                    room.rows[room.y].update(
                        room.x,
                        ScreenCharacter { ascii_character: byte, color_code: room.color_code },
                    ),
                ),
                ..room
            }
        }
    }

    /// The screen after the first `count` of `bytes` were written.
    pub open spec fn write_some(self, bytes: Seq<u8>, count: nat) -> Screen
        decreases count,
    {
        if count == 0 {
            self
        } else {
            self.write_some(bytes, (count - 1) as nat).write_byte(bytes[count - 1])
        }
    }

    /// The screen after all of `bytes` were written.
    pub open spec fn write_bytes(self, bytes: Seq<u8>) -> Screen {
        self.write_some(bytes, bytes.len())
    }
}

/// Writes characters to the screen, of which it keeps a copy.
pub struct ScreenWriter {
    x: usize,
    y: usize,
    color_code: ColorCode,
    buffer: [[ScreenCharacter; 80]; 25],
}

impl View for ScreenWriter {
    type V = Screen;

    closed spec fn view(&self) -> Screen {
        Screen {
            x: self.x as int,
            y: self.y as int,
            color_code: self.color_code,
            rows: Seq::new(VGA_HEIGHT as nat, |row: int| self.buffer@[row]@),
        }
    }
}

impl ScreenWriter {
    #[verifier::type_invariant]
    spec fn in_screen(self) -> bool {
        self.x <= VGA_WIDTH && self.y < VGA_HEIGHT
    }

    /// A writer in the colors `color_code` for a blank screen, which
    /// writes to the last row.
    pub fn new(color_code: ColorCode) -> (writer: ScreenWriter)
        ensures
            writer@.wf(),
            writer@.x == 0,
            writer@.y == VGA_HEIGHT - 1,
            writer@.color_code == color_code,
            forall|row: int, col: int|
                0 <= row < VGA_HEIGHT && 0 <= col < VGA_WIDTH ==> writer@.rows[row][col] == blank(
                    color_code,
                ),
    {
        let space = ScreenCharacter { ascii_character: SPACE, color_code };
        ScreenWriter { x: 0, y: VGA_HEIGHT - 1, color_code, buffer: [[space;80];25] }
    }

    /// Column and row of the next character.
    pub fn cursor(&self) -> (cursor: (usize, usize))
        ensures
            cursor.0 == self@.x,
            cursor.1 == self@.y,
            self@.wf(),
    {
        proof {
            use_type_invariant(self);
        }
        (self.x, self.y)
    }

    /// The character at column `col` of row `row`.
    pub fn character(&self, row: usize, col: usize) -> (character: ScreenCharacter)
        requires
            row < VGA_HEIGHT,
            col < VGA_WIDTH,
        ensures
            character == self@.rows[row as int][col as int],
    {
        self.buffer[row][col]
    }

    /// Writes one byte.
    pub fn write_byte(&mut self, byte: u8)
        ensures
            final(self)@ == old(self)@.write_byte(byte),
            final(self)@.wf(),
    {
        proof {
            use_type_invariant(&*self);
        }
        if byte == LINE_FEED {
            self.new_line();
        } else {
            if self.x >= VGA_WIDTH {
                self.new_line();
            }
            proof {
                use_type_invariant(&*self);
            }
            let row = self.y;
            let col = self.x;
            let color_code = self.color_code;
            let ghost before = self@;
            let mut line = self.buffer[row];
            line[col] = ScreenCharacter { ascii_character: byte, color_code: color_code };
            self.buffer[row] = line;
            self.x += 1;
            assert(self@.rows =~= before.rows.update(
                before.y,
                before.rows[before.y].update(
                    before.x,
                    ScreenCharacter { ascii_character: byte, color_code: before.color_code },
                ),
            ));
        }
    }

    /// Writes one character: its code's lowest eight bits, as a byte.
    pub fn write_char(&mut self, character: char)
        ensures
            final(self)@ == old(self)@.write_byte(character as u8),
    {
        self.write_byte(character as u8);
    }

    /// Moves every row but the first up by one, blanks the row that is
    /// written to, and goes to its start.
    pub fn new_line(&mut self)
        ensures
            final(self)@ == old(self)@.new_line(),
            final(self)@.wf(),
    {
        proof {
            use_type_invariant(&*self);
        }
        let mut row: usize = 1;
        while row < VGA_HEIGHT
            invariant
                1 <= row <= VGA_HEIGHT,
                self.x == old(self).x,
                self.y == old(self).y,
                self.y < VGA_HEIGHT,
                self.x <= VGA_WIDTH,
                self.color_code == old(self).color_code,
                forall|r: int| 0 <= r < row - 1 ==> self.buffer@[r] == old(self).buffer@[r + 1],
                forall|r: int| row - 1 <= r < VGA_HEIGHT ==> self.buffer@[r]
                    == old(self).buffer@[r],
            decreases VGA_HEIGHT - row,
        {
            let line = self.buffer[row];
            self.buffer[row - 1] = line;
            row += 1;
        }
        let row_ix = self.y;
        self.clear_row(row_ix);
        self.x = 0;
        assert(self@.rows =~= old(self)@.new_line().rows);
    }

    /// Fills row `row` with spaces.
    pub fn clear_row(&mut self, row: usize)
        requires
            row < VGA_HEIGHT,
        ensures
            final(self)@ == (Screen {
                rows: old(self)@.rows.update(
                    row as int,
                    Seq::new(VGA_WIDTH as nat, |col: int| blank(old(self)@.color_code)),
                ),
                ..old(self)@
            }),
    {
        proof {
            use_type_invariant(&*self);
        }
        let space = ScreenCharacter { ascii_character: SPACE, color_code: self.color_code };
        let line = [space;80];
        assert(line@ =~= Seq::new(VGA_WIDTH as nat, |col: int| blank(self.color_code)));
        self.buffer[row] = line;
        assert(self@.rows =~= old(self)@.rows.update(
            row as int,
            Seq::new(VGA_WIDTH as nat, |col: int| blank(old(self)@.color_code)),
        ));
    }

    /// Writes the bytes of `string`, in order.
    pub fn write_str(&mut self, string: &str)
        ensures
            final(self)@ == old(self)@.write_bytes(string.spec_bytes()),
    {
        let bytes = string.as_bytes();
        let mut i: usize = 0;
        while i < bytes.len()
            invariant
                i <= bytes@.len(),
                bytes@ == string.spec_bytes(),
                self@ == old(self)@.write_some(bytes@, i as nat),
            decreases bytes@.len() - i,
        {
            self.write_byte(bytes[i]);
            i += 1;
        }
    }
}

/// Writes `text` to the screen of `writer`.
pub fn print(writer: &mut ScreenWriter, text: &str)
    ensures
        final(writer)@ == old(writer)@.write_bytes(text.spec_bytes()),
{
    writer.write_str(text);
}

/// Writes as many line feeds as the screen has rows, which blanks the row
/// that is written to and moves the rows above it off the screen.
pub fn clear_screen(writer: &mut ScreenWriter)
    ensures
        final(writer)@ == old(writer)@.write_bytes(Seq::new(VGA_HEIGHT as nat, |i: int| LINE_FEED)),
{
    let mut i: usize = 0;
    let ghost feeds = Seq::new(VGA_HEIGHT as nat, |i: int| LINE_FEED);
    while i < VGA_HEIGHT
        invariant
            i <= VGA_HEIGHT,
            feeds == Seq::new(VGA_HEIGHT as nat, |i: int| LINE_FEED),
            writer@ == old(writer)@.write_some(feeds, i as nat),
        decreases VGA_HEIGHT - i,
    {
        writer.write_byte(LINE_FEED);
        i += 1;
    }
}

} // verus!
