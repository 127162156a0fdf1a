//! From the bytes that a PS/2 keyboard sends to what the console does with
//! a key.
//!
//! The decoding of scancodes into keys is done by the `pc_keyboard` crate;
//! this module holds the decoder, feeds it, and decides what follows from a
//! decoded key.

use vstd::prelude::*;
use pc_keyboard::layouts::Us104Key;
use pc_keyboard::{DecodedKey, HandleControl, KeyCode, KeyEvent, Keyboard, ScancodeSet1};

verus! {

/// The decoder of `pc_keyboard`, for scancode set 1 and the US layout. Its
/// state, which is what has been fed to it so far, is its own.
#[verifier::external_body]
pub struct KeyDecoder {
    inner: Keyboard<Us104Key, ScancodeSet1>,
}

#[verifier::external_type_specification]
#[verifier::external_body]
pub struct ExKeyEvent(KeyEvent);

#[verifier::external_type_specification]
#[verifier::external_body]
pub struct ExKeyCode(KeyCode);

#[verifier::external_type_specification]
#[verifier::external_body]
pub struct ExScancodeError(pc_keyboard::Error);

/// A key as the decoder reports it.
pub enum Key {
    /// A key that stands for no character.
    RawKey(KeyCode),
    /// A key that stands for a character.
    Unicode(char),
}

/// Makes a decoder for scancode set 1 and the US layout, which leaves the
/// control keys alone: `pc_keyboard::Keyboard::new`.
#[verifier::external_body]
fn new_keyboard() -> KeyDecoder {
    KeyDecoder { inner: Keyboard::new(ScancodeSet1::new(), Us104Key, HandleControl::Ignore) }
}

impl KeyDecoder {
    /// A decoder that has been fed nothing yet.
    pub fn new() -> KeyDecoder {
        new_keyboard()
    }
}

/// Feeds one byte from the keyboard to the decoder:
/// `pc_keyboard::Keyboard::add_byte`. A byte may complete a key event, be
/// part of one that is not complete yet, or be rejected; which of these
/// depends on the bytes fed before.
#[verifier::external_body]
fn add_byte(keyboard: &mut KeyDecoder, byte: u8) -> Result<Option<KeyEvent>, pc_keyboard::Error> {
    keyboard.inner.add_byte(byte)
}

/// Turns a key event into a key, by the state of the modifier keys:
/// `pc_keyboard::Keyboard::process_keyevent`. What comes back depends on the
/// events processed before.
#[verifier::external_body]
fn process_keyevent(keyboard: &mut KeyDecoder, event: KeyEvent) -> Option<
    Key,
> {
    match keyboard.inner.process_keyevent(event) {
        Some(DecodedKey::RawKey(code)) => Some(Key::RawKey(code)),
        Some(DecodedKey::Unicode(character)) => Some(Key::Unicode(character)),
        None => None,
    }
}

/// What the console does with a key.
#[derive(Clone, Copy, Debug, PartialEq, Eq)]
pub enum KeyAction {
    /// Nothing.
    Ignore,
    /// Print the character.
    Print(char),
    /// Print a line feed, then run the command that ends at index
    /// `command_end` of the screen.
    RunCommand { command_end: usize },
}

/// What follows from a key when the cursor is at `cursor`: a line feed runs
/// the command that ends at the cursor, any other character is printed, and
/// a key that stands for no character does nothing.
pub open spec fn spec_handle(key: Key, cursor: usize) -> KeyAction {
    match key {
        Key::Unicode(character) => if character == '\n' {
            KeyAction::RunCommand { command_end: cursor }
        } else {
            KeyAction::Print(character)
        },
        Key::RawKey(_) => KeyAction::Ignore,
    }
}

/// Decides what the console does with `key` when the cursor is at `cursor`.
pub fn handle(key: Key, cursor: usize) -> (r: KeyAction)
    ensures
        r == spec_handle(key, cursor),
{
    match key {
        Key::Unicode(character) => {
            if character == '\n' {
                KeyAction::RunCommand { command_end: cursor }
            } else {
                KeyAction::Print(character)
            }
        },
        Key::RawKey(_) => KeyAction::Ignore,
    }
}

/// The key event that feeding a byte has completed, given what the decoder
/// answered: the event if it answered with one, and none if the byte
/// completed no event or was rejected.
pub open spec fn spec_completed_event(
    answer: Result<Option<KeyEvent>, pc_keyboard::Error>,
) -> Option<KeyEvent> {
    match answer {
        Ok(Some(event)) => Some(event),
        _ => None,
    }
}

/// Takes the key event, if there is one, out of what the decoder answered
/// to a byte.
pub fn completed_event(answer: Result<Option<KeyEvent>, pc_keyboard::Error>) -> (r: Option<
    KeyEvent,
>)
    ensures
        r == spec_completed_event(answer),
{
    match answer {
        Ok(Some(event)) => Some(event),
        _ => None,
    }
}

/// What follows from what the decoder made of a key event when the cursor is
/// at `cursor`: a key is handled as [`spec_handle`] says, and no key does
/// nothing.
pub open spec fn spec_action_for(decoded: Option<Key>, cursor: usize) -> KeyAction {
    match decoded {
        Some(key) => spec_handle(key, cursor),
        None => KeyAction::Ignore,
    }
}

/// Decides what the console does with what the decoder made of a key event,
/// when the cursor is at `cursor`.
pub fn action_for(decoded: Option<Key>, cursor: usize) -> (r: KeyAction)
    ensures
        r == spec_action_for(decoded, cursor),
{
    match decoded {
        Some(key) => handle(key, cursor),
        None => KeyAction::Ignore,
    }
}

/// Handles one byte from the keyboard when the cursor is at `cursor`: the
/// byte is fed to the decoder, and if that completes a key, the key is
/// handled; a byte that completes none, or that the decoder rejects, does
/// nothing.
///
/// Which key a byte completes is the decoder's affair and depends on the
/// bytes that it was fed before. Whatever it is, the action is the one that
/// [`completed_event`] and [`action_for`] give for the decoder's answers.
pub fn keyboard_handler(
    keyboard: &mut KeyDecoder,
    scancode: u8,
    cursor: usize,
) -> (r: KeyAction)
    ensures
        r == KeyAction::Ignore || exists|key: Key| r == spec_handle(key, cursor),
{
    match completed_event(add_byte(keyboard, scancode)) {
        Some(event) => {
            let decoded = process_keyevent(keyboard, event);
            let action = action_for(decoded, cursor);
            assert(decoded is Some ==> action == spec_handle(decoded->Some_0, cursor));
            action
        },
        None => KeyAction::Ignore,
    }
}

} // verus!
