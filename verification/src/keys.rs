//! Keys as the line editor sees them.

use vstd::prelude::*;

verus! {

/// One event from the keyboard.
#[derive(Clone, Copy, Debug, PartialEq, Eq, Structural)]
pub enum Key {
    /// A character that is appended to the line.
    Char(char),
    /// The line terminator.
    Enter,
    /// The completion trigger.
    Tab,
    /// Backspace or delete.
    Erase,
    /// The input stream has ended.
    EndOfInput,
}

/// The key that a raw byte from the terminal stands for. Newline ends the
/// line, tab asks for completion, backspace (0x08) and delete (0x7f) both
/// erase, and every other byte is the character with that code point.
pub open spec fn key_of_byte(byte: u8) -> Key {
    if byte == 0x0a {
        Key::Enter
    } else if byte == 0x09 {
        Key::Tab
    } else if byte == 0x08 || byte == 0x7f {
        Key::Erase
    } else {
        Key::Char(byte as char)
    }
}

impl Key {
    /// Classifies a raw byte read from the terminal.
    pub fn from_byte(byte: u8) -> (key: Key)
        ensures
            key == key_of_byte(byte),
    {
        if byte == 0x0a {
            Key::Enter
        } else if byte == 0x09 {
            Key::Tab
        } else if byte == 0x08 || byte == 0x7f {
            Key::Erase
        } else {
            Key::Char(byte as char)
        }
    }

    /// Whether this key ends the reading of the current line.
    pub open spec fn ends_line(self) -> bool {
        self is Enter || self is EndOfInput
    }
}

} // verus!
