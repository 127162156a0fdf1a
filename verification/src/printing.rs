//! Text on the VGA text screen: 25 rows of 80 cells, each a letter and a
//! colour.
//!
//! A [`Printer`] owns the contents of the screen and the place of the
//! cursor. Writing changes the contents; showing them is the caller's work,
//! which copies the cells to video memory.

use vstd::prelude::*;

verus! {

/// The number of rows on the screen.
pub const NUM_ROWS: usize = 25;

/// The number of cells in a row.
pub const NUM_COLUMNS: usize = 80;

/// The number of cells on the screen.
pub const LEN: usize = 2000;

/// The colour that text is written in: white on black.
pub const TEXT_COLOUR: u8 = 0x0F;

/// The line feed, which moves the cursor to the start of the next row.
pub const LINE_FEED: u8 = 0x0A;

/// The carriage return, which moves the cursor to the start of its row.
pub const CARRIAGE_RETURN: u8 = 0x0D;

/// One cell of the screen.
#[derive(Clone, Copy, Debug, PartialEq, Eq)]
pub struct VgaTextChar {
    /// The character, in code page 437.
    pub letter: u8,
    /// Foreground colour in the low nibble, background in the high.
    pub colour: u8,
}

/// What a printer holds: the cells of the screen, row by row, and the index
/// of the cell at the cursor.
pub ghost struct Screen {
    pub idx: int,
    pub cells: Seq<VgaTextChar>,
}

/// An empty cell.
pub open spec fn blank() -> VgaTextChar {
    VgaTextChar { letter: 0, colour: 0 }
}

impl Screen {
    /// The screen with every row moved up by one, the top row gone, the
    /// bottom row empty and the cursor at the start of the bottom row.
    pub open spec fn bumped(self) -> Screen {
        Screen {
            idx: 1920,
            cells: Seq::new(
                2000,
                |i: int|
                    if i < 1920 {
                        self.cells[i + 80]
                    } else {
                        blank()
                    },
            ),
        }
    }

    /// The screen with every cell empty and the cursor in the top left
    /// corner.
    pub open spec fn cleared() -> Screen {
        Screen { idx: 0, cells: Seq::new(2000, |i: int| blank()) }
    }

    /// The screen after `byte` is written, before it is checked whether the
    /// cursor has left the screen. A line feed moves the cursor to the start
    /// of the next row and a carriage return to the start of its own; any
    /// other byte is put into the cell at the cursor, in [`TEXT_COLOUR`],
    /// and the cursor moves on by one cell.
    pub open spec fn put(self, byte: u8) -> Screen {
        if byte == LINE_FEED {
            Screen { idx: self.idx + 80 - self.idx % 80, ..self }
        } else if byte == CARRIAGE_RETURN {
            Screen { idx: self.idx - self.idx % 80, ..self }
        } else {
            Screen {
                idx: self.idx + 1,
                cells: self.cells.update(
                    self.idx,
                    VgaTextChar { letter: byte, colour: TEXT_COLOUR },
                ),
            }
        }
    }

    /// The screen after `byte` is written: as [`Self::put`] says, and moved
    /// up by one row if the cursor has left the screen.
    pub open spec fn write_byte(self, byte: u8) -> Screen {
        if self.put(byte).idx >= 2000 {
            self.put(byte).bumped()
        } else {
            self.put(byte)
        }
    }

    /// The screen after the first `count` bytes of `text` are written, one
    /// after the other.
    pub open spec fn write(self, text: Seq<u8>, count: int) -> Screen
        decreases count,
    {
        if count <= 0 {
            self
        } else {
            self.write(text, count - 1).write_byte(text[count - 1])
        }
    }
}

/// The contents of the screen and the place of the cursor.
#[derive(Clone, Copy, Debug, PartialEq, Eq)]
pub struct Printer {
    idx: usize,
    screen: [VgaTextChar; 2000],
}

impl View for Printer {
    type V = Screen;

    closed spec fn view(&self) -> Screen {
        Screen { idx: self.idx as int, cells: self.screen@ }
    }
}

impl Printer {
    #[verifier::type_invariant]
    spec fn inv(self) -> bool {
        self.idx < 2000
    }

    /// A printer with an empty screen and the cursor in the top left corner.
    pub fn new() -> (r: Printer)
        ensures
            r@ == Screen::cleared(),
    {
        let r = Printer { idx: 0, screen: [VgaTextChar { letter: 0, colour: 0 };2000] };
        assert(r@.cells =~= Screen::cleared().cells);
        r
    }

    /// The index of the cell at the cursor, which is on the screen.
    pub fn idx(&self) -> (r: usize)
        ensures
            r == self@.idx,
            r < 2000,
            self@.cells.len() == 2000,
    {
        proof {
            use_type_invariant(self);
        }
        self.idx
    }

    /// The cell at `index`, counted row by row from the top left corner.
    pub fn cell(&self, index: usize) -> (r: VgaTextChar)
        requires
            index < 2000,
        ensures
            r == self@.cells[index as int],
    {
        self.screen[index]
    }

    /// Writes one byte at the cursor.
    pub fn write_byte(&mut self, byte: u8)
        ensures
            final(self)@ == old(self)@.write_byte(byte),
    {
        proof {
            use_type_invariant(&*self);
        }
        let mut idx: usize = self.idx;
        if byte == LINE_FEED {
            idx = idx + (NUM_COLUMNS - idx % NUM_COLUMNS);
        } else if byte == CARRIAGE_RETURN {
            idx = idx - idx % NUM_COLUMNS;
        } else {
            self.screen[idx] = VgaTextChar { letter: byte, colour: TEXT_COLOUR };
            idx = idx + 1;
        }
        if idx >= LEN {
            self.idx = 0;
            self.bump_screen();
        } else {
            self.idx = idx;
        }
        proof {
            assert(self@.cells =~= old(self)@.write_byte(byte).cells);
        }
    }

    /// Writes the bytes of `text`, one after the other.
    pub fn write_str(&mut self, text: &[u8])
        ensures
            final(self)@ == old(self)@.write(text@, text@.len() as int),
    {
        let mut i: usize = 0;
        while i < text.len()
            invariant
                i <= text@.len(),
                self@ == old(self)@.write(text@, i as int),
            decreases text@.len() - i,
        {
            self.write_byte(text[i]);
            i += 1;
        }
    }

    /// Empties the screen and moves the cursor to the top left corner.
    pub fn clear(&mut self)
        ensures
            final(self)@ == Screen::cleared(),
    {
        proof {
            use_type_invariant(&*self);
        }
        let mut i: usize = 0;
        while i < LEN
            invariant
                i <= 2000,
                self.idx < 2000,
                forall|j: int| 0 <= j < i ==> self.screen[j] == blank(),
            decreases 2000 - i,
        {
            self.screen[i] = VgaTextChar { letter: 0, colour: 0 };
            i += 1;
        }
        self.idx = 0;
        proof {
            assert(self@.cells =~= Screen::cleared().cells);
        }
    }

    /// Moves every row up by one, which drops the top row, empties the
    /// bottom row and puts the cursor at its start.
    pub fn bump_screen(&mut self)
        ensures
            final(self)@ == old(self)@.bumped(),
    {
        proof {
            use_type_invariant(&*self);
        }
        let mut i: usize = 0;
        while i < LEN - NUM_COLUMNS
            invariant
                i <= 1920,
                self.idx < 2000,
                forall|j: int| 0 <= j < i ==> self.screen[j] == old(self).screen[j + 80],
                forall|j: int| i <= j < 2000 ==> self.screen[j] == old(self).screen[j],
            decreases 1920 - i,
        {
            self.screen[i] = self.screen[i + NUM_COLUMNS];
            i += 1;
        }
        while i < LEN
            invariant
                1920 <= i <= 2000,
                self.idx < 2000,
                forall|j: int| 0 <= j < 1920 ==> self.screen[j] == old(self).screen[j + 80],
                forall|j: int| 1920 <= j < i ==> self.screen[j] == blank(),
            decreases 2000 - i,
        {
            self.screen[i] = VgaTextChar { letter: 0, colour: 0 };
            i += 1;
        }
        self.idx = (NUM_ROWS - 1) * NUM_COLUMNS;
        proof {
            assert(self@.cells =~= old(self)@.bumped().cells);
        }
    }
}

/// The bytes that are handed to the BIOS, one call each, to print the first
/// `count` bytes of `text`: every byte as it is, and a carriage return after
/// every line feed, since the BIOS keeps the column on a line feed.
pub open spec fn teletype_bytes(text: Seq<u8>, count: int) -> Seq<u8>
    decreases count,
{
    if count <= 0 {
        Seq::empty()
    } else if text[count - 1] == LINE_FEED {
        teletype_bytes(text, count - 1).push(LINE_FEED).push(CARRIAGE_RETURN)
    } else {
        teletype_bytes(text, count - 1).push(text[count - 1])
    }
}

/// Lists the bytes to hand to the BIOS teletype call, in order, to print
/// `text`.
pub fn print(text: &[u8]) -> (r: Vec<u8>)
    ensures
        r@ == teletype_bytes(text@, text@.len() as int),
{
    let mut out: Vec<u8> = Vec::new();
    let mut i: usize = 0;
    while i < text.len()
        invariant
            i <= text@.len(),
            out@ == teletype_bytes(text@, i as int),
        decreases text@.len() - i,
    {
        let byte: u8 = text[i];
        out.push(byte);
        if byte == LINE_FEED {
            out.push(CARRIAGE_RETURN);
        }
        i += 1;
    }
    out
}

} // verus!
