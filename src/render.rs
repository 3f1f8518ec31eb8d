//! Turning the characters of a line into the bytes shown on screen.

use vstd::prelude::*;
use vstd::utf8::{char_is_scalar, encode_scalar};

verus! {

/// How many screen columns a tab fills.
pub const TAB_SIZE: u8 = 4;

pub const TAB: char = '\t';

/// The bytes that show one character: a tab as `tab_size` spaces, any other
/// character as its UTF-8 encoding.
pub open spec fn char_bytes(c: char, tab_size: nat) -> Seq<u8> {
    if c == TAB {
        Seq::new(tab_size, |_i: int| 0x20u8)
    } else {
        encode_scalar(c as u32)
    }
}

/// The bytes that show a row of characters.
pub open spec fn rendered(row: Seq<char>, tab_size: nat) -> Seq<u8>
    decreases row.len(),
{
    if row.len() == 0 {
        seq![]
    } else {
        rendered(row.drop_last(), tab_size) + char_bytes(row.last(), tab_size)
    }
}

/// The screen columns that a row of characters fills: a tab fills
/// `tab_size`, any other character one.
pub open spec fn columns(row: Seq<char>, tab_size: nat) -> nat
    decreases row.len(),
{
    if row.len() == 0 {
        0
    } else {
        columns(row.drop_last(), tab_size) + if row.last() == TAB {
            tab_size
        } else {
            1
        }
    }
}

/// Appends the UTF-8 encoding of `c` to `out`.
pub(crate) fn push_utf8(out: &mut Vec<u8>, c: char)
    ensures
        final(out)@ == old(out)@ + encode_scalar(c as u32),
{
    let v: u32 = c as u32;
    proof {
        char_is_scalar(c);
    }
    let ghost start = out@;
    if v <= 0x7f {
        out.push((v & 0x7F) as u8);
    } else if v <= 0x7ff {
        out.push(0xC0 | ((v >> 6) & 0x1F) as u8);
        out.push(0x80 | (v & 0x3F) as u8);
    } else if v <= 0xffff {
        out.push(0xE0 | ((v >> 12) & 0x0F) as u8);
        out.push(0x80 | ((v >> 6) & 0x3F) as u8);
        out.push(0x80 | (v & 0x3F) as u8);
    } else {
        out.push(0xF0 | ((v >> 18) & 0x7) as u8);
        out.push(0x80 | ((v >> 12) & 0x3F) as u8);
        out.push(0x80 | ((v >> 6) & 0x3F) as u8);
        out.push(0x80 | (v & 0x3F) as u8);
    }
    assert(out@ =~= start + encode_scalar(v));
}

/// Appends the bytes that show `row` to `out`, tabs expanded to `tab_size`
/// spaces.
pub fn push_rendered(out: &mut Vec<u8>, row: &[char], tab_size: u8)
    ensures
        final(out)@ == old(out)@ + rendered(row@, tab_size as nat),
{
    let ghost start = out@;
    let mut i: usize = 0;
    while i < row.len()
        invariant
            i <= row@.len(),
            out@ == start + rendered(row@.subrange(0, i as int), tab_size as nat),
        decreases row@.len() - i,
    {
        let c = row[i];
        let ghost before = out@;
        if c == TAB {
            let mut k: u8 = 0;
            while k < tab_size
                invariant
                    k <= tab_size,
                    out@ == before + Seq::new(k as nat, |_i: int| 0x20u8),
                decreases tab_size - k,
            {
                out.push(0x20);
                k = k + 1;
                assert(out@ =~= before + Seq::new(k as nat, |_i: int| 0x20u8));
            }
        } else {
            push_utf8(out, c);
        }
        assert(row@.subrange(0, i + 1).drop_last() =~= row@.subrange(0, i as int));
        i = i + 1;
        assert(out@ =~= start + rendered(row@.subrange(0, i as int), tab_size as nat));
    }
    assert(row@.subrange(0, i as int) =~= row@);
}

/// The bytes that show `row`, tabs expanded to `tab_size` spaces.
pub fn render_row(row: &[char], tab_size: u8) -> (r: Vec<u8>)
    ensures
        r@ == rendered(row@, tab_size as nat),
{
    let mut out: Vec<u8> = Vec::new();
    push_rendered(&mut out, row, tab_size);
    assert(out@ =~= rendered(row@, tab_size as nat));
    out
}

/// The screen columns that `row` fills, tabs counted as `tab_size`.
pub fn render_width(row: &[char], tab_size: u8) -> (r: usize)
    requires
        row@.len() * (tab_size as nat + 1) <= usize::MAX,
    ensures
        r == columns(row@, tab_size as nat),
{
    let mut total: usize = 0;
    let mut i: usize = 0;
    while i < row.len()
        invariant
            i <= row@.len(),
            row@.len() * (tab_size as nat + 1) <= usize::MAX,
            total == columns(row@.subrange(0, i as int), tab_size as nat),
            total <= i * (tab_size as nat + 1),
        decreases row@.len() - i,
    {
        assert(row@.subrange(0, i + 1).drop_last() =~= row@.subrange(0, i as int));
        assert(i * (tab_size as nat + 1) + tab_size as nat + 1 <= row@.len() * (tab_size as nat
            + 1)) by (nonlinear_arith)
            requires
                i < row@.len(),
        ;
        if row[i] == TAB {
            total = total + tab_size as usize;
        } else {
            total = total + 1;
        }
        assert((i + 1) * (tab_size as nat + 1) == i * (tab_size as nat + 1) + tab_size as nat + 1)
            by (nonlinear_arith);
        i = i + 1;
    }
    assert(row@.subrange(0, i as int) =~= row@);
    total
}

} // verus!
