//! The editor's response to each key: how the state changes, and what the
//! program around it must do next (redraw, read an escape sequence, write
//! the file, quit).

use vstd::prelude::*;
use vstd::utf8::encode_utf8;
use crate::editor::{Editor, EditorView, SystemMessage};
use crate::input::{Action, EscapeKey, InvalidEscapeSequence};
use crate::screen::frame;
use crate::text::{join_lines, text_of};

verus! {

/// What the program must do after the editor has taken a key.
#[derive(Copy, Clone, Debug, PartialEq, Eq)]
pub enum Command {
    /// Draw the frame.
    Redraw,
    /// Clear the screen, then draw the frame.
    Refresh,
    /// Read the rest of an escape sequence and hand it to `handle_escape`.
    ReadEscape,
    /// Write `contents` to the file, report with `finish_save`, then draw.
    Save,
    /// Clear the screen and stop.
    Quit,
}

pub const SAVED_MESSAGE: &'static str = "File saved successfully!";

pub const SAVE_FAILED_MESSAGE: &'static str = "Error saving file!";

pub const UNCHANGED_MESSAGE: &'static str = "No Changes Made!";

/// A control character: below space, or DEL.
pub open spec fn is_control(c: char) -> bool {
    (c as u32) < 0x20 || (c as u32) == 0x7f
}

impl EditorView {
    pub open spec fn with_message(self, m: Seq<char>, now: int) -> EditorView {
        EditorView { message: Some(m), message_time: now, ..self }
    }
}

/// How the editor takes a key at time `now`: the state after, and what the
/// program must do next.
pub open spec fn step(v: EditorView, action: Action, now: int) -> (EditorView, Command) {
    match action {
        Action::Quit => (v, Command::Quit),
        Action::Refresh => (v, Command::Refresh),
        Action::Escape => (v, Command::ReadEscape),
        Action::Save => {
            if !v.dirty {
                (v.with_message(UNCHANGED_MESSAGE@, now), Command::Redraw)
            } else if v.path is None {
                (v.with_message(SAVE_FAILED_MESSAGE@, now), Command::Redraw)
            } else {
                (v, Command::Save)
            }
        },
        Action::Delete => (v.backspaced(), Command::Redraw),
        Action::Enter => (v.line_broken(), Command::Redraw),
        Action::Input(c) => {
            if is_control(c) {
                (v, Command::Redraw)
            } else {
                (v.typed(c), Command::Redraw)
            }
        },
    }
}

/// How the editor takes the key that an escape sequence named; a sequence
/// that names no key changes nothing.
pub open spec fn escape_step(v: EditorView, key: Result<EscapeKey, InvalidEscapeSequence>) -> EditorView {
    match key {
        Ok(EscapeKey::Navigate(k)) => v.navigated(k),
        Ok(EscapeKey::Delete) => v.backspaced(),
        Err(_) => v,
    }
}

/// The state after the file was written (`ok`) or not, at time `now`.
pub open spec fn save_step(v: EditorView, ok: bool, now: int) -> EditorView {
    if ok {
        EditorView { dirty: false, ..v.with_message(SAVED_MESSAGE@, now) }
    } else {
        v.with_message(SAVE_FAILED_MESSAGE@, now)
    }
}

/// A forced refresh changes nothing in the editor, so refreshing twice in a
/// row draws the same frame twice.
pub proof fn lemma_refresh_idempotent(v: EditorView, now: int)
    ensures
        step(v, Action::Refresh, now) == (v, Command::Refresh),
        ({
            let once = step(v, Action::Refresh, now).0;
            let twice = step(once, Action::Refresh, now).0;
            frame(once, now) == frame(twice, now)
        }),
{
}

fn char_is_control(c: char) -> (r: bool)
    ensures
        r == is_control(c),
{
    let v: u32 = c as u32;
    v < 0x20 || v == 0x7f
}

impl Editor {
    /// Takes the action of one key byte at time `now`.
    pub fn handle_action(&mut self, action: Action, now: u64) -> (r: Command)
        requires
            old(self).wf(),
        ensures
            final(self).wf(),
            (final(self)@, r) == step(old(self)@, action, now as int),
    {
        match action {
            Action::Quit => Command::Quit,
            Action::Refresh => Command::Refresh,
            Action::Escape => Command::ReadEscape,
            Action::Save => {
                if !self.dirty_flag {
                    self.message = SystemMessage::new(UNCHANGED_MESSAGE, now);
                    Command::Redraw
                } else if self.path.is_none() {
                    self.message = SystemMessage::new(SAVE_FAILED_MESSAGE, now);
                    Command::Redraw
                } else {
                    Command::Save
                }
            },
            Action::Delete => {
                self.remove_char();
                Command::Redraw
            },
            Action::Enter => {
                self.insert_newline();
                Command::Redraw
            },
            Action::Input(c) => {
                if !char_is_control(c) {
                    self.insert_char(c);
                }
                Command::Redraw
            },
        }
    }

    /// Takes the key that the bytes after ESC named, or ignores a sequence
    /// that named none.
    pub fn handle_escape(&mut self, key: Result<EscapeKey, InvalidEscapeSequence>)
        requires
            old(self).wf(),
        ensures
            final(self).wf(),
            final(self)@ == escape_step(old(self)@, key),
    {
        match key {
            Ok(EscapeKey::Navigate(k)) => self.move_cursor(k),
            Ok(EscapeKey::Delete) => self.remove_char(),
            Err(_) => {},
        }
    }

    /// The bytes to write to the file: every line followed by a newline.
    pub fn contents(&self) -> (r: Vec<u8>)
        ensures
            r@ == encode_utf8(text_of(self@.lines)),
    {
        join_lines(&self.rows)
    }

    /// Records at time `now` whether writing the file succeeded: on success
    /// the buffer is clean.
    pub fn finish_save(&mut self, ok: bool, now: u64)
        requires
            old(self).wf(),
        ensures
            final(self).wf(),
            final(self)@ == save_step(old(self)@, ok, now as int),
    {
        if ok {
            self.message = SystemMessage::new(SAVED_MESSAGE, now);
            self.dirty_flag = false;
        } else {
            self.message = SystemMessage::new(SAVE_FAILED_MESSAGE, now);
        }
    }
}

} // verus!
