//! The cursor and viewport model: where the cursor stands on screen, how far
//! the view is scrolled, and how the navigation keys move both.

use vstd::prelude::*;
use crate::input::NavigationKey;

verus! {

/// The cursor on screen (`x`, `y`) and the scroll offsets of the view. The
/// cursor's place in the document is `(col_offset + x, row_offset + y)`.
pub ghost struct Place {
    pub x: int,
    pub y: int,
    pub row_offset: int,
    pub col_offset: int,
}

impl Place {
    /// The document column of the cursor.
    pub open spec fn col(self) -> int {
        self.col_offset + self.x
    }

    /// The document row of the cursor.
    pub open spec fn row(self) -> int {
        self.row_offset + self.y
    }
}

/// The length of row `r`; the row one past the last has no characters.
pub open spec fn line_len(lines: Seq<Seq<char>>, r: int) -> int {
    if 0 <= r < lines.len() {
        lines[r].len() as int
    } else {
        0
    }
}

/// The cursor stands on screen (columns `0..=term_cols`, rows
/// `0..=term_rows`), on a row of the document or the one past its end, and at
/// most at the end of its row.
pub open spec fn in_bounds(lines: Seq<Seq<char>>, term_rows: int, term_cols: int, p: Place) -> bool {
    &&& 0 <= p.x <= term_cols
    &&& 0 <= p.y <= term_rows
    &&& 0 <= p.row_offset
    &&& 0 <= p.col_offset
    &&& p.row() <= lines.len()
    &&& p.col() <= line_len(lines, p.row())
}

/// The cursor moved to document column `target` of its row, scrolling
/// sideways only as far as needed to show it.
pub open spec fn place_column(term_cols: int, p: Place, target: int) -> Place {
    if p.col_offset <= target <= p.col_offset + term_cols {
        Place { x: target - p.col_offset, ..p }
    } else if target <= term_cols {
        Place { x: target, col_offset: 0, ..p }
    } else {
        Place { x: term_cols, col_offset: target - term_cols, ..p }
    }
}

/// The cursor at the end of a row of length `len`: with the view scrolled
/// back to the start when the whole row fits on screen, or scrolled so that
/// the end stands in the last screen column when it does not.
pub open spec fn line_end_place(term_cols: int, p: Place, len: int) -> Place {
    if len > term_cols {
        Place { x: term_cols, col_offset: len - term_cols, ..p }
    } else {
        Place { x: len, col_offset: 0, ..p }
    }
}

/// The cursor kept on its row: past the row's end it moves back to the end.
pub open spec fn clamp_to_line(lines: Seq<Seq<char>>, term_cols: int, p: Place) -> Place {
    if p.col() > line_len(lines, p.row()) {
        place_column(term_cols, p, line_len(lines, p.row()))
    } else {
        p
    }
}

/// One row down: the cursor moves, or at the bottom row the view scrolls.
pub open spec fn row_down(term_rows: int, p: Place) -> Place {
    if p.y < term_rows {
        Place { y: p.y + 1, ..p }
    } else {
        Place { row_offset: p.row_offset + 1, ..p }
    }
}

/// One row up: the cursor moves, or at the top row the view scrolls.
pub open spec fn row_up(p: Place) -> Place {
    if p.y > 0 {
        Place { y: p.y - 1, ..p }
    } else {
        Place { row_offset: p.row_offset - 1, ..p }
    }
}

/// The greatest row offset that paging down scrolls to: the one that shows
/// the last row at the bottom of the screen.
pub open spec fn max_row_offset(lines: Seq<Seq<char>>, term_rows: int) -> int {
    if lines.len() > term_rows + 1 {
        lines.len() - term_rows - 1
    } else {
        0
    }
}

/// The row offset after paging down: forward by up to `term_rows`, never
/// past `max_row_offset`, never backward.
pub open spec fn page_down_offset(lines: Seq<Seq<char>>, term_rows: int, row_offset: int) -> int {
    let top = max_row_offset(lines, term_rows);
    if row_offset < top {
        if row_offset + term_rows < top {
            row_offset + term_rows
        } else {
            top
        }
    } else {
        row_offset
    }
}

/// The screen row after paging down: the bottom row, or the last row of a
/// document that ends above it.
pub open spec fn page_down_y(lines: Seq<Seq<char>>, term_rows: int, row_offset: int) -> int {
    let last = lines.len() - 1 - row_offset;
    if last < 0 {
        0
    } else if last < term_rows {
        last
    } else {
        term_rows
    }
}

/// Where a navigation key moves the cursor and the view.
pub open spec fn nav_place(
    lines: Seq<Seq<char>>,
    term_rows: int,
    term_cols: int,
    p: Place,
    key: NavigationKey,
) -> Place {
    let len = line_len(lines, p.row());
    match key {
        NavigationKey::Left => {
            if p.x > 0 {
                Place { x: p.x - 1, ..p }
            } else if p.col_offset > 0 {
                Place { col_offset: p.col_offset - 1, ..p }
            } else if p.row() > 0 {
                place_column(term_cols, row_up(p), line_len(lines, p.row() - 1))
            } else {
                p
            }
        },
        NavigationKey::Right => {
            if p.col() < len {
                if p.x < term_cols {
                    Place { x: p.x + 1, ..p }
                } else {
                    Place { col_offset: p.col_offset + 1, ..p }
                }
            } else if p.row() + 1 < lines.len() {
                Place { x: 0, col_offset: 0, ..row_down(term_rows, p) }
            } else {
                p
            }
        },
        NavigationKey::Up => {
            if p.row() > 0 {
                clamp_to_line(lines, term_cols, row_up(p))
            } else {
                p
            }
        },
        NavigationKey::Down => {
            if p.row() + 1 < lines.len() {
                clamp_to_line(lines, term_cols, row_down(term_rows, p))
            } else {
                p
            }
        },
        NavigationKey::Home => Place { x: 0, col_offset: 0, ..p },
        NavigationKey::End => line_end_place(term_cols, p, len),
        NavigationKey::PageUp => {
            let off = if p.row_offset > term_rows {
                p.row_offset - term_rows
            } else {
                0
            };
            clamp_to_line(lines, term_cols, Place { y: 0, row_offset: off, ..p })
        },
        NavigationKey::PageDown => {
            let off = page_down_offset(lines, term_rows, p.row_offset);
            clamp_to_line(
                lines,
                term_cols,
                Place { y: page_down_y(lines, term_rows, off), row_offset: off, ..p },
            )
        },
    }
}

/// Where a sequence of navigation keys, pressed in order, moves the cursor.
pub open spec fn nav_all(
    lines: Seq<Seq<char>>,
    term_rows: int,
    term_cols: int,
    p: Place,
    keys: Seq<NavigationKey>,
) -> Place
    decreases keys.len(),
{
    if keys.len() == 0 {
        p
    } else {
        nav_place(
            lines,
            term_rows,
            term_cols,
            nav_all(lines, term_rows, term_cols, p, keys.drop_last()),
            keys.last(),
        )
    }
}

proof fn lemma_place_column_in_bounds(
    lines: Seq<Seq<char>>,
    term_rows: int,
    term_cols: int,
    p: Place,
    target: int,
)
    requires
        term_cols >= 0,
        0 <= p.x <= term_cols,
        0 <= p.y <= term_rows,
        0 <= p.row_offset,
        0 <= p.col_offset,
        p.row() <= lines.len(),
        0 <= target <= line_len(lines, p.row()),
    ensures
        in_bounds(lines, term_rows, term_cols, place_column(term_cols, p, target)),
        place_column(term_cols, p, target).col() == target,
{
}

/// A navigation key keeps the cursor in bounds.
pub proof fn lemma_nav_in_bounds(
    lines: Seq<Seq<char>>,
    term_rows: int,
    term_cols: int,
    p: Place,
    key: NavigationKey,
)
    requires
        term_rows >= 0,
        term_cols >= 0,
        in_bounds(lines, term_rows, term_cols, p),
    ensures
        in_bounds(lines, term_rows, term_cols, nav_place(lines, term_rows, term_cols, p, key)),
{
    let len = line_len(lines, p.row());
    match key {
        NavigationKey::Left => {
            if p.x == 0 && p.col_offset == 0 && p.row() > 0 {
                lemma_place_column_in_bounds(
                    lines,
                    term_rows,
                    term_cols,
                    row_up(p),
                    line_len(lines, p.row() - 1),
                );
            }
        },
        NavigationKey::Up => {
            if p.row() > 0 {
                let q = row_up(p);
                lemma_place_column_in_bounds(lines, term_rows, term_cols, q, line_len(lines, q.row()));
            }
        },
        NavigationKey::Down => {
            if p.row() + 1 < lines.len() {
                let q = row_down(term_rows, p);
                lemma_place_column_in_bounds(lines, term_rows, term_cols, q, line_len(lines, q.row()));
            }
        },
        NavigationKey::PageUp => {
            let off = if p.row_offset > term_rows {
                p.row_offset - term_rows
            } else {
                0
            };
            let q = Place { y: 0, row_offset: off, ..p };
            lemma_place_column_in_bounds(lines, term_rows, term_cols, q, line_len(lines, q.row()));
        },
        NavigationKey::PageDown => {
            let off = page_down_offset(lines, term_rows, p.row_offset);
            let q = Place { y: page_down_y(lines, term_rows, off), row_offset: off, ..p };
            lemma_place_column_in_bounds(lines, term_rows, term_cols, q, line_len(lines, q.row()));
        },
        _ => {},
    }
}

/// Whatever navigation keys are pressed, in whatever order, the cursor stays
/// within its row (`0..=` its length) and within the document (`0..=` the
/// number of rows), and on screen.
pub proof fn lemma_navigation_stays_in_bounds(
    lines: Seq<Seq<char>>,
    term_rows: int,
    term_cols: int,
    p: Place,
    keys: Seq<NavigationKey>,
)
    requires
        term_rows >= 0,
        term_cols >= 0,
        in_bounds(lines, term_rows, term_cols, p),
    ensures
        in_bounds(lines, term_rows, term_cols, nav_all(lines, term_rows, term_cols, p, keys)),
    decreases keys.len(),
{
    if keys.len() > 0 {
        lemma_navigation_stays_in_bounds(lines, term_rows, term_cols, p, keys.drop_last());
        lemma_nav_in_bounds(
            lines,
            term_rows,
            term_cols,
            nav_all(lines, term_rows, term_cols, p, keys.drop_last()),
            keys.last(),
        );
    }
}

} // verus!
