//! The frame drawn after every key: the visible rows, the status bar, and
//! the cursor placed at its render column.

use vstd::prelude::*;
use vstd::utf8::encode_utf8;
use crate::ansi::{ctrl_bytes, decimal, push_decimal, send_esc_seq, CtrlSeq, CursorPosition};
use crate::editor::{Editor, EditorView};
use crate::render::{columns, push_rendered, render_width, rendered};

verus! {

/// How long a status message stays on the status bar, in milliseconds.
pub const MESSAGE_DURATION_MS: u64 = 5000;

pub const TILDE: u8 = 0x7e;

pub const SPACE: u8 = 0x20;

/// The bytes that show document row `idx`: the part of the line between
/// `col_offset` and `col_offset + term_cols`, tabs expanded; a `~` for a row
/// past the end of the document.
pub open spec fn row_bytes(v: EditorView, idx: int) -> Seq<u8> {
    if idx < v.lines.len() {
        let line = v.lines[idx];
        let start = v.place.col_offset;
        if line.len() > start {
            let end = if line.len() - start > v.term_cols {
                start + v.term_cols
            } else {
                line.len() as int
            };
            rendered(line.subrange(start, end), v.tab_size as nat)
        } else {
            seq![]
        }
    } else {
        seq![TILDE]
    }
}

/// The first `k` screen rows of text, each followed by CR LF and a
/// line clear.
pub open spec fn text_rows(v: EditorView, k: nat) -> Seq<u8>
    decreases k,
{
    if k == 0 {
        seq![]
    } else {
        text_rows(v, (k - 1) as nat) + row_bytes(v, v.place.row_offset + k - 1) + seq![
            0x0du8,
            0x0au8,
        ] + ctrl_bytes(CtrlSeq::ClearLine)
    }
}

/// The screen column of the cursor: the columns that the characters left of
/// it, from `col_offset` on, fill.
pub open spec fn cursor_column(v: EditorView) -> int {
    let row = v.place.row();
    if row < v.lines.len() {
        columns(
            v.lines[row].subrange(v.place.col_offset, v.place.col()),
            v.tab_size as nat,
        ) as int
    } else {
        0
    }
}

/// Whether the status message is still shown at time `now`.
pub open spec fn message_shown(v: EditorView, now: int) -> bool {
    v.message is Some && now < v.message_time + MESSAGE_DURATION_MS
}

/// How far through the document the cursor is, in percent; 0 for an empty
/// document.
pub open spec fn percent(v: EditorView) -> nat {
    if v.lines.len() == 0 {
        0
    } else {
        ((v.place.row() + 1) * 100 / v.lines.len() as int) as nat
    }
}

pub open spec fn spaces(n: nat) -> Seq<u8> {
    Seq::new(n, |_i: int| SPACE)
}

/// The file part of the status bar: the file name, or a marker when no
/// file is open.
pub open spec fn file_label(v: EditorView) -> Seq<u8> {
    match v.path {
        None => encode_utf8("[No open file]"@),
        Some(p) => encode_utf8("[Open: "@) + encode_utf8(p) + seq![0x5du8],
    }
}

/// The text of the status bar: the file part, the cursor's row and the row
/// count, how far through the document it is, and the message while shown.
pub open spec fn status_text(v: EditorView, now: int) -> Seq<u8> {
    file_label(v) + spaces(8) + decimal((v.place.row() + 1) as nat) + seq![0x2fu8] + decimal(
        v.lines.len(),
    ) + spaces(8) + decimal(percent(v)) + seq![0x25u8] + if message_shown(v, now) {
        spaces(8) + encode_utf8(v.message->0)
    } else {
        seq![]
    }
}

/// `s` cut or padded with spaces to exactly `width` bytes.
pub open spec fn fit(s: Seq<u8>, width: nat) -> Seq<u8> {
    if s.len() >= width {
        s.subrange(0, width as int)
    } else {
        s + spaces((width - s.len()) as nat)
    }
}

/// The status bar: its text fitted to the screen width, in inverse video.
pub open spec fn status_bar(v: EditorView, now: int) -> Seq<u8> {
    ctrl_bytes(CtrlSeq::InvertColor) + fit(status_text(v, now), v.term_cols as nat) + ctrl_bytes(
        CtrlSeq::NormalColor,
    )
}

/// A whole frame: the cursor hidden and sent home, every text row, the
/// status bar, and the cursor shown again at its place.
pub open spec fn frame(v: EditorView, now: int) -> Seq<u8> {
    ctrl_bytes(CtrlSeq::HideCursor) + ctrl_bytes(CtrlSeq::GotoStart) + ctrl_bytes(
        CtrlSeq::ClearLine,
    ) + text_rows(v, (v.term_rows + 1) as nat) + status_bar(v, now) + ctrl_bytes(
        CtrlSeq::MoveCursor(CursorPosition { x: cursor_column(v) as usize, y: v.place.y as usize }),
    ) + ctrl_bytes(CtrlSeq::ShowCursor)
}

/// Appends the UTF-8 bytes of `s` to `out`.
fn push_str(out: &mut Vec<u8>, s: &str)
    ensures
        final(out)@ == old(out)@ + encode_utf8(s@),
{
    let bytes = s.as_bytes();
    let ghost start = out@;
    let mut i: usize = 0;
    while i < bytes.len()
        invariant
            i <= bytes@.len(),
            bytes@ == encode_utf8(s@),
            out@ == start + bytes@.subrange(0, i as int),
        decreases bytes@.len() - i,
    {
        out.push(bytes[i]);
        i = i + 1;
        assert(out@ =~= start + bytes@.subrange(0, i as int));
    }
    assert(bytes@.subrange(0, i as int) =~= bytes@);
}

/// Appends `n` spaces to `out`.
fn push_spaces(out: &mut Vec<u8>, n: usize)
    ensures
        final(out)@ == old(out)@ + spaces(n as nat),
{
    let ghost start = out@;
    let mut i: usize = 0;
    while i < n
        invariant
            i <= n,
            out@ == start + spaces(i as nat),
        decreases n - i,
    {
        out.push(SPACE);
        i = i + 1;
        assert(out@ =~= start + spaces(i as nat));
    }
}

impl Editor {
    /// The render column of the cursor: where it stands on screen once tabs
    /// are expanded.
    pub fn rx(&self) -> (r: usize)
        requires
            self.wf(),
        ensures
            r == cursor_column(self@),
    {
        let (row, col) = self.cursor_row_col();
        if row < self.rows.len() {
            let line = self.rows[row].as_slice();
            proof {
                self.lemma_sizes();
                assert(line@ == self@.lines[row as int]);
                let w = (col - self.col_offset) as nat;
                let t = self.tab_size as nat + 1;
                assert(w * t <= 0x10000 * 256) by (nonlinear_arith)
                    requires
                        w < 0x10000,
                        t <= 256,
                ;
            }
            let shown = &line[self.col_offset..col];
            render_width(shown, self.tab_size)
        } else {
            0
        }
    }

    /// The status bar at time `now`.
    pub fn render_status_bar(&self, now: u64) -> (r: Vec<u8>)
        requires
            self.wf(),
        ensures
            r@ == status_bar(self@, now as int),
    {
        let (row, _col) = self.cursor_row_col();
        let mut text: Vec<u8> = Vec::new();
        match &self.path {
            None => {
                push_str(&mut text, "[No open file]");
            },
            Some(p) => {
                push_str(&mut text, "[Open: ");
                push_str(&mut text, p.as_str());
                text.push(0x5d);
            },
        }
        assert(text@ =~= file_label(self@));
        let n = self.rows.len();
        push_spaces(&mut text, 8);
        push_decimal(&mut text, row as u128 + 1);
        text.push(0x2f);
        push_decimal(&mut text, n as u128);
        push_spaces(&mut text, 8);
        let pct: u128 = if n == 0 {
            0
        } else {
            (row as u128 + 1) * 100 / (n as u128)
        };
        push_decimal(&mut text, pct);
        text.push(0x25);
        match &self.message.message {
            Some(m) => {
                if now < self.message.time || now - self.message.time < MESSAGE_DURATION_MS {
                    push_spaces(&mut text, 8);
                    push_str(&mut text, m.as_str());
                }
            },
            None => {},
        }
        assert(text@ =~= status_text(self@, now as int));
        let width = self.term_cols;
        if text.len() >= width {
            text.truncate(width);
        } else {
            let pad = width - text.len();
            push_spaces(&mut text, pad);
        }
        assert(text@ =~= fit(status_text(self@, now as int), width as nat));
        let mut out: Vec<u8> = Vec::new();
        send_esc_seq(&mut out, CtrlSeq::InvertColor);
        out.append(&mut text);
        send_esc_seq(&mut out, CtrlSeq::NormalColor);
        assert(out@ =~= status_bar(self@, now as int));
        out
    }

    /// The frame that shows the editor at time `now`, as one byte sequence
    /// to be written to the terminal in one go.
    pub fn draw(&self, now: u64) -> (r: Vec<u8>)
        requires
            self.wf(),
        ensures
            r@ == frame(self@, now as int),
    {
        proof {
            self.lemma_sizes();
        }
        let mut out: Vec<u8> = Vec::new();
        send_esc_seq(&mut out, CtrlSeq::HideCursor);
        send_esc_seq(&mut out, CtrlSeq::GotoStart);
        send_esc_seq(&mut out, CtrlSeq::ClearLine);
        let ghost head = out@;
        let n = self.rows.len();
        let mut k: usize = 0;
        while k <= self.term_rows
            invariant
                self.wf(),
                n == self@.lines.len(),
                k <= self.term_rows + 1,
                out@ == head + text_rows(self@, k as nat),
                forall|r: int|
                    0 <= r < self@.lines.len() ==> #[trigger] self@.lines[r] == self.rows@[r]@,
            decreases self.term_rows + 1 - k,
        {
            let ghost before = out@;
            if k < n - self.row_offset {
                let idx = self.row_offset + k;
                let line = self.rows[idx].as_slice();
                let start = self.col_offset;
                assert(line@ == self@.lines[idx as int]);
                if line.len() > start {
                    let end = if line.len() - start > self.term_cols {
                        start + self.term_cols
                    } else {
                        line.len()
                    };
                    push_rendered(&mut out, &line[start..end], self.tab_size);
                }
            } else {
                out.push(TILDE);
            }
            assert(out@ =~= before + row_bytes(self@, self.row_offset + k));
            out.push(0x0d);
            out.push(0x0a);
            send_esc_seq(&mut out, CtrlSeq::ClearLine);
            k = k + 1;
            assert(out@ =~= head + text_rows(self@, k as nat));
        }
        let mut bar = self.render_status_bar(now);
        out.append(&mut bar);
        let x = self.rx();
        send_esc_seq(&mut out, CtrlSeq::MoveCursor(CursorPosition { x: x, y: self.cur_pos.y }));
        send_esc_seq(&mut out, CtrlSeq::ShowCursor);
        assert(out@ =~= frame(self@, now as int));
        out
    }
}

} // verus!
