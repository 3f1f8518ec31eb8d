//! The file format: plain text, one line per newline.

use vstd::prelude::*;
use vstd::std_specs::iter::IteratorSpec;
use vstd::utf8::{encode_scalar, encode_utf8, decode_utf8, encode_utf8_decode_utf8};

verus! {

pub const NEWLINE: char = '\n';

/// The text of a document: each line followed by one newline.
pub open spec fn text_of(lines: Seq<Seq<char>>) -> Seq<char>
    decreases lines.len(),
{
    if lines.len() == 0 {
        seq![]
    } else {
        text_of(lines.drop_last()) + lines.last().push(NEWLINE)
    }
}

/// Reading `text` from its start: the lines that a newline has ended, and
/// the characters of the line not yet ended.
pub open spec fn scan(text: Seq<char>) -> (Seq<Seq<char>>, Seq<char>)
    decreases text.len(),
{
    if text.len() == 0 {
        (seq![], seq![])
    } else {
        let (done, open) = scan(text.drop_last());
        if text.last() == NEWLINE {
            (done.push(open), seq![])
        } else {
            (done, open.push(text.last()))
        }
    }
}

/// The lines of `text`: the pieces between newlines, without the newlines,
/// and without the empty piece after a final newline.
pub open spec fn lines_of(text: Seq<char>) -> Seq<Seq<char>> {
    let (done, open) = scan(text);
    if open.len() == 0 {
        done
    } else {
        done.push(open)
    }
}

/// No line holds a newline character.
pub open spec fn no_newlines(lines: Seq<Seq<char>>) -> bool {
    forall|i: int, j: int|
        0 <= i < lines.len() && 0 <= j < lines[i].len() ==> #[trigger] lines[i][j] != NEWLINE
}

proof fn lemma_scan_append_line(t: Seq<char>, s: Seq<char>)
    requires
        forall|j: int| 0 <= j < s.len() ==> s[j] != NEWLINE,
    ensures
        scan(t + s) == (scan(t).0, scan(t).1 + s),
    decreases s.len(),
{
    if s.len() == 0 {
        assert(t + s =~= t);
        assert(scan(t).1 + s =~= scan(t).1);
    } else {
        lemma_scan_append_line(t, s.drop_last());
        assert((t + s).drop_last() =~= t + s.drop_last());
        assert(scan(t).1 + s =~= (scan(t).1 + s.drop_last()).push(s.last()));
    }
}

proof fn lemma_scan_text_of(lines: Seq<Seq<char>>)
    requires
        no_newlines(lines),
    ensures
        scan(text_of(lines)) == (lines, Seq::<char>::empty()),
    decreases lines.len(),
{
    if lines.len() == 0 {
        assert(lines =~= seq![]);
    } else {
        let init = lines.drop_last();
        let last = lines.last();
        assert(no_newlines(init)) by {
            assert forall|i: int, j: int| 0 <= i < init.len() && 0 <= j < init[i].len() implies
                #[trigger] init[i][j] != NEWLINE by {
                assert(init[i] == lines[i]);
            }
        }
        lemma_scan_text_of(init);
        assert forall|j: int| 0 <= j < last.len() implies last[j] != NEWLINE by {
            assert(lines[lines.len() - 1][j] != NEWLINE);
        }
        lemma_scan_append_line(text_of(init), last);
        let t = text_of(init) + last;
        assert(text_of(lines) =~= t.push(NEWLINE));
        assert(t.push(NEWLINE).drop_last() =~= t);
        assert(seq![] + last =~= last);
        assert(init.push(last) =~= lines);
    }
}

/// Saving lines and loading the bytes written gives back the same lines,
/// where no line holds a newline.
pub proof fn lemma_save_load_round_trip(lines: Seq<Seq<char>>)
    requires
        no_newlines(lines),
    ensures
        lines_of(decode_utf8(encode_utf8(text_of(lines)))) == lines,
{
    encode_utf8_decode_utf8(text_of(lines));
    lemma_scan_text_of(lines);
}

proof fn lemma_encode_utf8_append(a: Seq<char>, b: Seq<char>)
    ensures
        encode_utf8(a + b) == encode_utf8(a) + encode_utf8(b),
    decreases a.len(),
{
    if a.len() == 0 {
        assert(a + b =~= b);
        assert(encode_utf8(a) + encode_utf8(b) =~= encode_utf8(b));
    } else {
        lemma_encode_utf8_append(a.drop_first(), b);
        assert((a + b).drop_first() =~= a.drop_first() + b);
        assert((a + b)[0] == a[0]);
        assert(encode_utf8(a + b) =~= encode_utf8(a) + encode_utf8(b));
    }
}

proof fn lemma_encode_utf8_push(a: Seq<char>, c: char)
    ensures
        encode_utf8(a.push(c)) == encode_utf8(a) + encode_scalar(c as u32),
{
    lemma_encode_utf8_append(a, seq![c]);
    assert(a + seq![c] =~= a.push(c));
    assert(seq![c].drop_first() =~= Seq::<char>::empty());
    assert(encode_utf8(Seq::<char>::empty()) =~= Seq::<u8>::empty());
    assert(encode_utf8(seq![c]) == encode_scalar(seq![c][0] as u32) + encode_utf8(
        seq![c].drop_first(),
    ));
    assert(encode_utf8(seq![c]) =~= encode_scalar(c as u32));
}

/// The bytes of a file that holds `lines`: each line in UTF-8, followed by
/// one newline.
pub fn join_lines(lines: &Vec<Vec<char>>) -> (r: Vec<u8>)
    ensures
        r@ == encode_utf8(text_of(lines@.map_values(|l: Vec<char>| l@))),
{
    let ghost model = lines@.map_values(|l: Vec<char>| l@);
    let mut out: Vec<u8> = Vec::new();
    let mut i: usize = 0;
    while i < lines.len()
        invariant
            i <= lines@.len(),
            model == lines@.map_values(|l: Vec<char>| l@),
            out@ == encode_utf8(text_of(model.subrange(0, i as int))),
        decreases lines@.len() - i,
    {
        let line = &lines[i];
        let ghost before = text_of(model.subrange(0, i as int));
        let mut j: usize = 0;
        while j < line.len()
            invariant
                j <= line@.len(),
                out@ == encode_utf8(before + line@.subrange(0, j as int)),
            decreases line@.len() - j,
        {
            proof {
                lemma_encode_utf8_push(before + line@.subrange(0, j as int), line@[j as int]);
                assert((before + line@.subrange(0, j as int)).push(line@[j as int])
                    =~= before + line@.subrange(0, j + 1));
            }
            crate::render::push_utf8(&mut out, line[j]);
            j = j + 1;
        }
        proof {
            lemma_encode_utf8_push(before + line@, NEWLINE);
            assert(line@.subrange(0, j as int) =~= line@);
            assert(model.subrange(0, i + 1).drop_last() =~= model.subrange(0, i as int));
            assert(text_of(model.subrange(0, i + 1)) =~= (before + line@).push(NEWLINE));
            assert(NEWLINE as u32 == 10);
            assert(10u32 & 0x7F == 10) by (bit_vector);
            assert(encode_scalar(NEWLINE as u32) =~= seq![0x0au8]);
        }
        out.push(0x0a);
        i = i + 1;
    }
    assert(model.subrange(0, i as int) =~= model);
    out
}

/// Splits `text` into its lines, as `lines_of` says.
pub fn split_lines(text: &str) -> (r: Vec<Vec<char>>)
    ensures
        r@.map_values(|l: Vec<char>| l@) == lines_of(text@),
{
    broadcast use vstd::string::group_string_axioms;

    let mut done: Vec<Vec<char>> = Vec::new();
    let mut open: Vec<char> = Vec::new();
    let mut chars = text.chars();
    let ghost mut k: int = 0;
    loop
        invariant
            0 <= k <= text@.len(),
            chars.remaining() == text@.subrange(k, text@.len() as int),
            (done@.map_values(|l: Vec<char>| l@), open@) == scan(text@.subrange(0, k)),
        ensures
            k == text@.len(),
            (done@.map_values(|l: Vec<char>| l@), open@) == scan(text@.subrange(0, k)),
        decreases text@.len() - k,
    {
        let ghost prev = chars;
        match chars.next() {
            Some(c) => {
                proof {
                    assert(text@.subrange(0, k + 1).drop_last() =~= text@.subrange(0, k));
                    assert(text@.subrange(k + 1, text@.len() as int) =~= prev.remaining().drop_first());
                }
                if c == NEWLINE {
                    let line = open;
                    done.push(line);
                    open = Vec::new();
                    proof {
                        assert(done@.map_values(|l: Vec<char>| l@) =~= scan(text@.subrange(0, k)).0.push(line@));
                    }
                } else {
                    open.push(c);
                }
                proof {
                    k = k + 1;
                }
            },
            None => {
                assert(text@.subrange(k, text@.len() as int).len() == 0);
                break ;
            },
        }
    }
    assert(text@.subrange(0, k) =~= text@);
    if open.len() > 0 {
        let ghost d = done@.map_values(|l: Vec<char>| l@);
        let line = open;
        done.push(line);
        assert(done@.map_values(|l: Vec<char>| l@) =~= d.push(line@));
    }
    done
}

} // verus!
