//! The text buffer as a sequence of lines, and what each edit makes of it.
//! Positions are document positions: `col` into the line, `row` into the
//! buffer, where `row` may be the row one past the last line.

use vstd::prelude::*;
use crate::cursor::{in_bounds, nav_place, Place};
use crate::input::NavigationKey;

verus! {

/// The lines after `c` is inserted at column `col` of row `row`; on the row
/// past the last line, `c` starts a new line.
pub open spec fn with_char(lines: Seq<Seq<char>>, col: int, row: int, c: char) -> Seq<Seq<char>> {
    if row == lines.len() {
        lines.push(seq![c])
    } else {
        lines.update(row, lines[row].insert(col, c))
    }
}

/// The lines after row `row` is split at column `col` into two lines; on
/// the row past the last line, an empty line is added.
pub open spec fn with_line_break(lines: Seq<Seq<char>>, col: int, row: int) -> Seq<Seq<char>> {
    if row == lines.len() {
        lines.push(seq![])
    } else {
        lines.subrange(0, row) + seq![
            lines[row].subrange(0, col),
            lines[row].subrange(col, lines[row].len() as int),
        ] + lines.subrange(row + 1, lines.len() as int)
    }
}

/// Whether a backspace at (`col`, `row`) changes the lines: it does unless
/// it stands at the very start, or at the start of the row past the end.
pub open spec fn deletes_something(lines: Seq<Seq<char>>, col: int, row: int) -> bool {
    col > 0 || (0 < row < lines.len())
}

/// The lines after a backspace at (`col`, `row`): the character left of
/// `col` goes; at column 0 the row is joined to the end of the row above.
pub open spec fn without_char(lines: Seq<Seq<char>>, col: int, row: int) -> Seq<Seq<char>> {
    if col > 0 {
        lines.update(row, lines[row].remove(col - 1))
    } else if 0 < row < lines.len() {
        lines.update(row - 1, lines[row - 1] + lines[row]).remove(row)
    } else {
        lines
    }
}

/// Typing a character on a line of the document and then deleting it with
/// backspace, where the cursor went after typing, gives back the lines as
/// they were.
pub proof fn lemma_insert_then_delete(
    lines: Seq<Seq<char>>,
    term_rows: int,
    term_cols: int,
    p: Place,
    c: char,
)
    requires
        term_rows >= 0,
        term_cols >= 0,
        in_bounds(lines, term_rows, term_cols, p),
        p.row() < lines.len(),
    ensures
        ({
            let typed = with_char(lines, p.col(), p.row(), c);
            let q = nav_place(typed, term_rows, term_cols, p, NavigationKey::Right);
            without_char(typed, q.col(), q.row()) == lines
        }),
{
    let typed = with_char(lines, p.col(), p.row(), c);
    let q = nav_place(typed, term_rows, term_cols, p, NavigationKey::Right);
    assert(q.col() == p.col() + 1 && q.row() == p.row());
    assert(typed[p.row()].remove(p.col()) =~= lines[p.row()]);
    assert(without_char(typed, q.col(), q.row()) =~= lines);
}

} // verus!
