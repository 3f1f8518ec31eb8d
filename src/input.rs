//! Decoding of key bytes into editor actions.

use vstd::prelude::*;
use crate::ansi::ESC;

verus! {

/// A key that moves the cursor.
#[derive(Copy, Clone, Debug, PartialEq, Eq)]
pub enum NavigationKey {
    Left,
    Right,
    Up,
    Down,
    Home,
    End,
    PageUp,
    PageDown,
}

/// What a single key byte asks of the editor.
#[derive(Copy, Clone, Debug, PartialEq, Eq)]
pub enum Action {
    Quit,
    Refresh,
    /// The start of an escape sequence: the bytes that follow name the key.
    Escape,
    Save,
    Delete,
    Enter,
    Input(char),
}

/// A key named by an escape sequence.
#[derive(Copy, Clone, Debug, PartialEq, Eq)]
pub enum EscapeKey {
    Navigate(NavigationKey),
    Delete,
}

/// An escape sequence that names no key this editor knows.
#[derive(Copy, Clone, Debug, PartialEq, Eq)]
pub struct InvalidEscapeSequence;

/// The byte that a key pressed together with Ctrl sends: its low five bits.
pub fn ctrl_key(c: char) -> (r: u8)
    ensures
        r == (c as u32) % 32,
{
    let v: u32 = c as u32;
    assert(v & 0x1f == v % 32) by (bit_vector);
    (v & 0x1f) as u8
}

/// The byte that the backspace key sends.
pub const BYTE_DEL: u8 = 0x7f;

/// The byte that the enter key sends in raw mode.
pub const BYTE_CR: u8 = 0x0d;

/// The action of a key byte: Ctrl-Q quits, Ctrl-X redraws, Ctrl-S saves, ESC
/// starts an escape sequence, DEL deletes, CR breaks the line, and any other
/// byte stands for itself.
pub open spec fn action_of(c: u8) -> Action {
    if c == 0x11 {
        Action::Quit
    } else if c == 0x18 {
        Action::Refresh
    } else if c == 0x13 {
        Action::Save
    } else if c == ESC {
        Action::Escape
    } else if c == BYTE_DEL {
        Action::Delete
    } else if c == BYTE_CR {
        Action::Enter
    } else {
        Action::Input(c as char)
    }
}

impl From<u8> for Action {
    fn from(c: u8) -> Action {
        if c == ctrl_key('q') {
            Action::Quit
        } else if c == ctrl_key('x') {
            Action::Refresh
        } else if c == ctrl_key('s') {
            Action::Save
        } else if c == ESC {
            Action::Escape
        } else if c == BYTE_DEL {
            Action::Delete
        } else if c == BYTE_CR {
            Action::Enter
        } else {
            Action::Input(c as char)
        }
    }
}

impl vstd::std_specs::convert::FromSpecImpl<u8> for Action {
    open spec fn obeys_from_spec() -> bool {
        true
    }

    open spec fn from_spec(v: u8) -> Action {
        action_of(v)
    }
}

/// The key named by the bytes that follow ESC: `[` and then `A`, `B`, `C`,
/// `D` for Up, Down, Right, Left, `H` and `F` for Home and End, `5` and `6`
/// for PageUp and PageDown, `3` for Delete.
pub open spec fn escape_key_of(seq: Seq<u8>) -> Option<EscapeKey> {
    if seq.len() < 2 || seq[0] != 0x5b {
        None
    } else if seq[1] == 0x41 {
        Some(EscapeKey::Navigate(NavigationKey::Up))
    } else if seq[1] == 0x42 {
        Some(EscapeKey::Navigate(NavigationKey::Down))
    } else if seq[1] == 0x43 {
        Some(EscapeKey::Navigate(NavigationKey::Right))
    } else if seq[1] == 0x44 {
        Some(EscapeKey::Navigate(NavigationKey::Left))
    } else if seq[1] == 0x48 {
        Some(EscapeKey::Navigate(NavigationKey::Home))
    } else if seq[1] == 0x46 {
        Some(EscapeKey::Navigate(NavigationKey::End))
    } else if seq[1] == 0x35 {
        Some(EscapeKey::Navigate(NavigationKey::PageUp))
    } else if seq[1] == 0x36 {
        Some(EscapeKey::Navigate(NavigationKey::PageDown))
    } else if seq[1] == 0x33 {
        Some(EscapeKey::Delete)
    } else {
        None
    }
}

/// Decodes the bytes read after ESC into the key they name.
pub fn handle_escape_seq(seq: &[u8]) -> (r: Result<EscapeKey, InvalidEscapeSequence>)
    ensures
        r matches Ok(k) ==> escape_key_of(seq@) == Some(k),
        r is Err <==> escape_key_of(seq@) is None,
{
    if seq.len() < 2 || seq[0] != 0x5b {
        return Err(InvalidEscapeSequence);
    }
    let key = match seq[1] {
        0x41 => EscapeKey::Navigate(NavigationKey::Up),
        0x42 => EscapeKey::Navigate(NavigationKey::Down),
        0x43 => EscapeKey::Navigate(NavigationKey::Right),
        0x44 => EscapeKey::Navigate(NavigationKey::Left),
        0x48 => EscapeKey::Navigate(NavigationKey::Home),
        0x46 => EscapeKey::Navigate(NavigationKey::End),
        0x35 => EscapeKey::Navigate(NavigationKey::PageUp),
        0x36 => EscapeKey::Navigate(NavigationKey::PageDown),
        0x33 => EscapeKey::Delete,
        _ => {
            return Err(InvalidEscapeSequence);
        },
    };
    Ok(key)
}

} // verus!
