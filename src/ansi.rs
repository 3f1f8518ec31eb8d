//! The subset of VT100 control sequences that the editor writes.

use vstd::prelude::*;

verus! {

/// A position on the terminal screen, counted from zero.
#[derive(Copy, Clone, Debug, PartialEq, Eq, Default)]
pub struct CursorPosition {
    pub x: usize,
    pub y: usize,
}

/// A command issued to the terminal.
#[derive(Copy, Clone, Debug, PartialEq, Eq)]
pub enum CtrlSeq {
    /// Clears the line from the cursor to its end.
    ClearLine,
    /// Clears the whole screen.
    ClearScreen,
    /// Moves the cursor to the top left corner.
    GotoStart,
    /// Hides the cursor while a frame is drawn.
    HideCursor,
    /// Shows the cursor again.
    ShowCursor,
    /// Moves the cursor to a screen position (written one-based).
    MoveCursor(CursorPosition),
    /// Switches to inverse video.
    InvertColor,
    /// Switches back to normal video.
    NormalColor,
}

/// The escape byte that starts every control sequence.
pub const ESC: u8 = 0x1b;

/// The decimal digits of `n`, most significant first, with no leading zero.
pub open spec fn decimal(n: nat) -> Seq<u8>
    decreases n,
{
    if n < 10 {
        seq![(48 + n) as u8]
    } else {
        decimal(n / 10).push((48 + n % 10) as u8)
    }
}

/// The bytes of a control sequence.
pub open spec fn ctrl_bytes(c: CtrlSeq) -> Seq<u8> {
    match c {
        CtrlSeq::ClearLine => seq![ESC, 0x5b, 0x4b],  // ESC [ K
        CtrlSeq::ClearScreen => seq![ESC, 0x5b, 0x32, 0x4a],  // ESC [ 2 J
        CtrlSeq::GotoStart => seq![ESC, 0x5b, 0x48],  // ESC [ H
        CtrlSeq::HideCursor => seq![ESC, 0x5b, 0x3f, 0x32, 0x35, 0x6c],  // ESC [ ? 2 5 l
        CtrlSeq::ShowCursor => seq![ESC, 0x5b, 0x3f, 0x32, 0x35, 0x68],  // ESC [ ? 2 5 h
        CtrlSeq::MoveCursor(p) => seq![ESC, 0x5b] + decimal((p.y + 1) as nat) + seq![0x3bu8] + decimal(
            (p.x + 1) as nat,
        ) + seq![0x48u8],  // ESC [ row ; col H
        CtrlSeq::InvertColor => seq![ESC, 0x5b, 0x37, 0x6d],  // ESC [ 7 m
        CtrlSeq::NormalColor => seq![ESC, 0x5b, 0x6d],  // ESC [ m
    }
}

/// Appends the decimal digits of `n` to `out`.
pub(crate) fn push_decimal(out: &mut Vec<u8>, n: u128)
    ensures
        final(out)@ == old(out)@ + decimal(n as nat),
    decreases n,
{
    if n >= 10 {
        push_decimal(out, n / 10);
    }
    out.push((48 + n % 10) as u8);
    proof {
        assert(final(out)@ =~= old(out)@ + decimal(n as nat));
    }
}

/// Appends the bytes of a control sequence to the output buffer `out`.
pub fn send_esc_seq(out: &mut Vec<u8>, ctrl: CtrlSeq)
    ensures
        final(out)@ == old(out)@ + ctrl_bytes(ctrl),
{
    let ghost start = out@;
    out.push(ESC);
    out.push(0x5b);
    match ctrl {
        CtrlSeq::ClearLine => {
            out.push(0x4b);
        },
        CtrlSeq::ClearScreen => {
            out.push(0x32);
            out.push(0x4a);
        },
        CtrlSeq::GotoStart => {
            out.push(0x48);
        },
        CtrlSeq::HideCursor => {
            out.push(0x3f);
            out.push(0x32);
            out.push(0x35);
            out.push(0x6c);
        },
        CtrlSeq::ShowCursor => {
            out.push(0x3f);
            out.push(0x32);
            out.push(0x35);
            out.push(0x68);
        },
        CtrlSeq::MoveCursor(p) => {
            push_decimal(out, p.y as u128 + 1);
            out.push(0x3b);
            push_decimal(out, p.x as u128 + 1);
            out.push(0x48);
        },
        CtrlSeq::InvertColor => {
            out.push(0x37);
            out.push(0x6d);
        },
        CtrlSeq::NormalColor => {
            out.push(0x6d);
        },
    }
    assert(out@ =~= start + ctrl_bytes(ctrl));
}

/// The bytes that clear the whole screen, with the cursor hidden meanwhile.
pub open spec fn refresh_bytes() -> Seq<u8> {
    ctrl_bytes(CtrlSeq::HideCursor) + ctrl_bytes(CtrlSeq::ClearScreen) + ctrl_bytes(
        CtrlSeq::ShowCursor,
    )
}

/// The bytes to write to clear the screen for a forced redraw.
pub fn refresh_screen() -> (r: Vec<u8>)
    ensures
        r@ == refresh_bytes(),
{
    let mut out: Vec<u8> = Vec::new();
    send_esc_seq(&mut out, CtrlSeq::HideCursor);
    send_esc_seq(&mut out, CtrlSeq::ClearScreen);
    send_esc_seq(&mut out, CtrlSeq::ShowCursor);
    assert(out@ =~= refresh_bytes());
    out
}

} // verus!
