//! The VGA text screen as a plain buffer of bytes: for each of its 25 rows
//! of 80 cells, the letter of a cell and then its style. The buffer is
//! longer than the screen, so that a letter written at the screen's last
//! byte has room for its style.

use vstd::prelude::*;

verus! {

/// The number of rows on the screen.
pub const ROW_MAX: usize = 25;

/// The number of bytes in a row: two for each of its 80 cells.
pub const COL_MAX: usize = 160;

/// The number of bytes on the screen.
pub const MAX: usize = 4000;

/// The number of bytes in the buffer, of which the screen is the first
/// [`MAX`].
pub const BUFFER_LEN: usize = 16000;

/// The letter that marks a screen that was wiped because it was full.
pub const WIPED_MARK: u8 = 0x5A;

/// What a buffer holds: the bytes of the screen, the index of the byte at
/// the cursor, and the style that letters are written in.
pub ghost struct TextScreen {
    pub idx: int,
    pub style: u8,
    pub bytes: Seq<u8>,
}

impl TextScreen {
    /// The screen after a screenful: every byte of the buffer is zero but
    /// the first, which is [`WIPED_MARK`], and the cursor is at the first
    /// byte.
    pub open spec fn wiped(self) -> TextScreen {
        TextScreen {
            idx: 0,
            bytes: Seq::new(
                16000,
                |i: int|
                    if i == 0 {
                        WIPED_MARK
                    } else {
                        0u8
                    },
            ),
            ..self
        }
    }

    /// The screen after `byte` is written, before it is checked whether the
    /// cursor has left the screen. A line feed moves the cursor to the start
    /// of the next row; any other byte is put at the cursor with the style
    /// after it, and the cursor moves on by two bytes. At the last byte of
    /// the screen the style goes to the byte behind the screen.
    pub open spec fn put(self, byte: u8) -> TextScreen {
        if byte == 0x0A {
            TextScreen { idx: self.idx + 160 - self.idx % 160, ..self }
        } else {
            TextScreen {
                idx: self.idx + 2,
                bytes: self.bytes.update(self.idx, byte).update(self.idx + 1, self.style),
                ..self
            }
        }
    }

    /// The screen after `byte` is written: as [`Self::put`] says, and wiped
    /// if the cursor has left the screen.
    pub open spec fn write_byte(self, byte: u8) -> TextScreen {
        if self.put(byte).idx >= 4000 {
            self.put(byte).wiped()
        } else {
            self.put(byte)
        }
    }

    /// The screen after the first `count` bytes of `text` are written, one
    /// after the other.
    pub open spec fn write(self, text: Seq<u8>, count: int) -> TextScreen
        decreases count,
    {
        if count <= 0 {
            self
        } else {
            self.write(text, count - 1).write_byte(text[count - 1])
        }
    }
}

/// The bytes of the buffer, the place of the cursor and the style of new
/// letters.
#[derive(Clone, Copy, Debug, PartialEq, Eq)]
pub struct VgaTextBuffer {
    idx: usize,
    style: u8,
    bytes: [u8; 16000],
}

impl View for VgaTextBuffer {
    type V = TextScreen;

    closed spec fn view(&self) -> TextScreen {
        TextScreen { idx: self.idx as int, style: self.style, bytes: self.bytes@ }
    }
}

impl VgaTextBuffer {
    #[verifier::type_invariant]
    spec fn inv(self) -> bool {
        self.idx < 4000
    }

    /// An empty buffer with the cursor at its first byte.
    pub fn new(style: u8) -> (r: VgaTextBuffer)
        ensures
            r@.idx == 0,
            r@.style == style,
            r@.bytes == Seq::new(16000, |i: int| 0u8),
    {
        let r = VgaTextBuffer { idx: 0, style, bytes: [0u8;16000] };
        assert(r@.bytes =~= Seq::new(16000, |i: int| 0u8));
        r
    }

    /// The index of the byte at the cursor, which is on the screen.
    pub fn idx(&self) -> (r: usize)
        ensures
            r == self@.idx,
            r < 4000,
            self@.bytes.len() == 16000,
    {
        proof {
            use_type_invariant(self);
        }
        self.idx
    }

    /// The byte at `index` of the buffer.
    pub fn byte(&self, index: usize) -> (r: u8)
        requires
            index < BUFFER_LEN,
        ensures
            r == self@.bytes[index as int],
    {
        self.bytes[index]
    }

    /// Moves the cursor to the byte at `idx`, if that is on the screen;
    /// leaves it where it is if not.
    pub fn move_to(&mut self, idx: usize)
        ensures
            final(self)@ == (TextScreen {
                idx: if idx < MAX {
                    idx as int
                } else {
                    old(self)@.idx
                },
                ..old(self)@
            }),
    {
        proof {
            use_type_invariant(&*self);
        }
        if idx < MAX {
            self.idx = idx;
        }
    }

    /// Writes one byte at the cursor.
    pub fn write_byte(&mut self, byte: u8)
        ensures
            final(self)@ == old(self)@.write_byte(byte),
    {
        proof {
            use_type_invariant(&*self);
        }
        let mut idx: usize = self.idx;
        if byte == 0x0A {
            idx = idx + (COL_MAX - idx % COL_MAX);
        } else {
            self.bytes[idx] = byte;
            self.bytes[idx + 1] = self.style;
            idx = idx + 2;
        }
        if idx >= MAX {
            let mut i: usize = 0;
            while i < BUFFER_LEN
                invariant
                    i <= 16000,
                    self.idx < 4000,
                    self.style == old(self).style,
                    forall|j: int| 0 <= j < i ==> self.bytes[j] == 0,
                decreases 16000 - i,
            {
                self.bytes[i] = 0;
                i += 1;
            }
            self.idx = 0;
            self.bytes[0] = WIPED_MARK;
        } else {
            self.idx = idx;
        }
        proof {
            assert(self@.bytes =~= old(self)@.write_byte(byte).bytes);
        }
    }

    /// Writes the bytes of `text`, one after the other.
    pub fn write(&mut self, text: &[u8])
        ensures
            final(self)@ == old(self)@.write(text@, text@.len() as int),
    {
        let mut i: usize = 0;
        while i < text.len()
            invariant
                i <= text@.len(),
                self@ == old(self)@.write(text@, i as int),
            decreases text@.len() - i,
        {
            self.write_byte(text[i]);
            i += 1;
        }
    }
}

} // verus!
