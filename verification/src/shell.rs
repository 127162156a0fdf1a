//! The commands of the console: finding the line that was typed on the
//! screen and telling which command it is.
//!
//! A command is what stands on the cursor's row before the cursor, without
//! the white space around it. Adding numbers is left to the caller, who is
//! told where in the line the numbers start.

use vstd::prelude::*;
use crate::vga::{VgaTextBuffer, COL_MAX, MAX};

verus! {

/// A line of the console, as a command.
#[derive(Clone, Copy, Debug, PartialEq, Eq)]
pub enum Command {
    /// `help`: list the commands.
    Help,
    /// `echo ` and more: print what follows, which starts at index `from`
    /// of the line.
    Echo { from: usize },
    /// `echo` alone: print an empty line.
    EchoNothing,
    /// `ping`: answer `pong`.
    Ping,
    /// `pong`: answer `ping`.
    Pong,
    /// A line of more than five bytes that starts with `add`: add up the
    /// numbers, separated by single spaces, that start at index `from` of the
    /// line.
    Add { from: usize },
    /// `add` alone: there is nothing to add.
    AddNothing,
    /// Anything else.
    Unknown,
}

/// The bytes of `help`.
pub open spec fn help_word() -> Seq<u8> {
    seq![0x68u8, 0x65u8, 0x6Cu8, 0x70u8]
}

/// The bytes of `echo`.
pub open spec fn echo_word() -> Seq<u8> {
    seq![0x65u8, 0x63u8, 0x68u8, 0x6Fu8]
}

/// The bytes of `ping`.
pub open spec fn ping_word() -> Seq<u8> {
    seq![0x70u8, 0x69u8, 0x6Eu8, 0x67u8]
}

/// The bytes of `pong`.
pub open spec fn pong_word() -> Seq<u8> {
    seq![0x70u8, 0x6Fu8, 0x6Eu8, 0x67u8]
}

/// The bytes of `add`.
pub open spec fn add_word() -> Seq<u8> {
    seq![0x61u8, 0x64u8, 0x64u8]
}

/// The command that a line is, the line being free of white space at both
/// ends. The cases are tried in this order: `help`; a line that starts with
/// `echo` and a space; `echo`; `ping`; `pong`; a line of more than five bytes
/// that starts with `add`; `add`; anything else.
pub open spec fn spec_parse(line: Seq<u8>) -> Command {
    if line == help_word() {
        Command::Help
    } else if line.len() > 4 && line.subrange(0, 5) == echo_word().push(0x20u8) {
        Command::Echo { from: 5 }
    } else if line == echo_word() {
        Command::EchoNothing
    } else if line == ping_word() {
        Command::Ping
    } else if line == pong_word() {
        Command::Pong
    } else if line.len() > 5 && line.subrange(0, 3) == add_word() {
        Command::Add { from: 4 }
    } else if line == add_word() {
        Command::AddNothing
    } else {
        Command::Unknown
    }
}

fn starts_with(line: &[u8], word: &[u8]) -> (r: bool)
    ensures
        r == (line@.len() >= word@.len() && line@.subrange(0, word@.len() as int) == word@),
{
    if line.len() < word.len() {
        return false;
    }
    let mut i: usize = 0;
    while i < word.len()
        invariant
            i <= word@.len() <= line@.len(),
            forall|j: int| 0 <= j < i ==> line@[j] == word@[j],
        decreases word@.len() - i,
    {
        if line[i] != word[i] {
            assert(line@.subrange(0, word@.len() as int)[i as int] != word@[i as int]);
            return false;
        }
        i += 1;
    }
    assert(line@.subrange(0, word@.len() as int) =~= word@);
    true
}

fn is_word(line: &[u8], word: &[u8]) -> (r: bool)
    ensures
        r == (line@ == word@),
{
    if line.len() != word.len() {
        return false;
    }
    let r = starts_with(line, word);
    assert(line@.subrange(0, line@.len() as int) =~= line@);
    r
}

/// Tells which command a line is, the line being free of white space at
/// both ends.
pub fn parse(line: &[u8]) -> (r: Command)
    ensures
        r == spec_parse(line@),
{
    let help: [u8; 4] = [0x68, 0x65, 0x6C, 0x70];
    let echo: [u8; 4] = [0x65, 0x63, 0x68, 0x6F];
    let echo_space: [u8; 5] = [0x65, 0x63, 0x68, 0x6F, 0x20];
    let ping: [u8; 4] = [0x70, 0x69, 0x6E, 0x67];
    let pong: [u8; 4] = [0x70, 0x6F, 0x6E, 0x67];
    let add: [u8; 3] = [0x61, 0x64, 0x64];
    proof {
        assert(help@ =~= help_word());
        assert(echo@ =~= echo_word());
        assert(echo_space@ =~= echo_word().push(0x20u8));
        assert(ping@ =~= ping_word());
        assert(pong@ =~= pong_word());
        assert(add@ =~= add_word());
    }
    if is_word(line, help.as_slice()) {
        Command::Help
    } else if line.len() > 4 && starts_with(line, echo_space.as_slice()) {
        Command::Echo { from: 5 }
    } else if is_word(line, echo.as_slice()) {
        Command::EchoNothing
    } else if is_word(line, ping.as_slice()) {
        Command::Ping
    } else if is_word(line, pong.as_slice()) {
        Command::Pong
    } else if line.len() > 5 && starts_with(line, add.as_slice()) {
        Command::Add { from: 4 }
    } else if is_word(line, add.as_slice()) {
        Command::AddNothing
    } else {
        Command::Unknown
    }
}

/// White space: the space and the five control characters from tab to
/// carriage return.
pub open spec fn is_space(byte: u8) -> bool {
    byte == 0x20 || (0x09 <= byte <= 0x0D)
}

/// `from` and `to` bound what is left of `text` when the white space at
/// both ends is taken away: `from` is the index of the first byte that is
/// not white space and `to` is one past the index of the last; both are the
/// length of `text` if it holds nothing else.
pub open spec fn trims(text: Seq<u8>, from: int, to: int) -> bool {
    &&& 0 <= from <= to <= text.len()
    &&& forall|i: int| 0 <= i < from ==> is_space(#[trigger] text[i])
    &&& forall|i: int| to <= i < text.len() ==> is_space(#[trigger] text[i])
    &&& from < to ==> !is_space(text[from]) && !is_space(text[to - 1])
    &&& from == to ==> from == text.len()
}

/// Finds where `text` starts and ends once the white space at both ends is
/// taken away.
pub fn trim(text: &[u8]) -> (r: (usize, usize))
    ensures
        trims(text@, r.0 as int, r.1 as int),
{
    let mut from: usize = 0;
    while from < text.len() && (text[from] == 0x20 || (0x09 <= text[from] && text[from] <= 0x0D))
        invariant
            from <= text@.len(),
            forall|i: int| 0 <= i < from ==> is_space(#[trigger] text@[i]),
        decreases text@.len() - from,
    {
        from += 1;
    }
    let mut to: usize = text.len();
    while to > from && (text[to - 1] == 0x20 || (0x09 <= text[to - 1] && text[to - 1] <= 0x0D))
        invariant
            from <= to <= text@.len(),
            forall|i: int| to <= i < text@.len() ==> is_space(#[trigger] text@[i]),
        decreases to - from,
    {
        to -= 1;
    }
    (from, to)
}

/// Where on the screen the line stands that ends at byte `command_end`: the
/// index of its first cell and the number of its cells. The line is what
/// stands on the row of `command_end` before it.
pub open spec fn spec_command_cells(command_end: int) -> (int, int) {
    (command_end / 2 - (command_end % 160) / 2, (command_end % 160) / 2)
}

/// Finds the cells of the line that ends at byte `command_end` of the
/// screen.
pub fn command_cells(command_end: usize) -> (r: (usize, usize))
    ensures
        (r.0 as int, r.1 as int) == spec_command_cells(command_end as int),
        r.0 + r.1 == command_end / 2,
        r.1 < 80,
{
    let length: usize = (command_end % COL_MAX) / 2;
    let end: usize = command_end / 2;
    (end - length, length)
}

/// Reads from the screen the letters of the line that ends at byte
/// `command_end`, which lies on the screen.
pub fn read_command(screen: &VgaTextBuffer, command_end: usize) -> (r: Vec<u8>)
    requires
        command_end < MAX,
    ensures
        r@.len() == spec_command_cells(command_end as int).1,
        forall|i: int|
            0 <= i < r@.len() ==> r@[i] == screen@.bytes[2 * (spec_command_cells(
                command_end as int,
            ).0 + i)],
{
    let (start, length) = command_cells(command_end);
    let mut line: Vec<u8> = Vec::new();
    let mut i: usize = 0;
    while i < length
        invariant
            i <= length,
            start + length == command_end / 2,
            command_end < 4000,
            line@.len() == i,
            forall|j: int| 0 <= j < i ==> line@[j] == screen@.bytes[2 * (start + j)],
        decreases length - i,
    {
        line.push(screen.byte((i * 2) + (start * 2)));
        i += 1;
    }
    line
}

/// Reads the line that ends at byte `command_end` of the screen, takes the
/// white space at its ends away and tells which command it is. With the
/// command come the letters of the line and the bounds of what is left of
/// them, which the `from` of a command counts from.
pub fn run_command(screen: &VgaTextBuffer, command_end: usize) -> (r: (Command, Vec<u8>, usize, usize))
    requires
        command_end < MAX,
    ensures
        trims(r.1@, r.2 as int, r.3 as int),
        r.0 == spec_parse(r.1@.subrange(r.2 as int, r.3 as int)),
        r.1@.len() == spec_command_cells(command_end as int).1,
        forall|i: int|
            0 <= i < r.1@.len() ==> r.1@[i] == screen@.bytes[2 * (spec_command_cells(
                command_end as int,
            ).0 + i)],
{
    let line = read_command(screen, command_end);
    let (from, to) = trim(line.as_slice());
    let mut trimmed: Vec<u8> = Vec::new();
    let mut i: usize = from;
    while i < to
        invariant
            from <= i <= to <= line@.len(),
            trimmed@ == line@.subrange(from as int, i as int),
        decreases to - i,
    {
        trimmed.push(line[i]);
        i += 1;
    }
    let command = parse(trimmed.as_slice());
    (command, line, from, to)
}

} // verus!
