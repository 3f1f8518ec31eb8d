//! The editor's state: the buffer, the cursor and view, the file it came
//! from and the status message, with the operations that change them.

use vstd::prelude::*;
use crate::ansi::CursorPosition;
use crate::buffer::{deletes_something, with_char, with_line_break, without_char};
use crate::cursor::{
    clamp_to_line, in_bounds, lemma_nav_in_bounds, line_len, nav_place, page_down_offset,
    page_down_y, place_column, row_down, row_up, Place,
};
use crate::input::NavigationKey;
use crate::render::TAB_SIZE;
use crate::text::{lines_of, split_lines};

verus! {

/// The most rows or columns a terminal reports.
pub const MAX_SCREEN: usize = 0x10000;

/// A status line message and the time (in milliseconds) it was set.
pub struct SystemMessage {
    pub message: Option<String>,
    pub time: u64,
}

pub open spec fn opt_view(s: Option<String>) -> Option<Seq<char>> {
    match s {
        Some(t) => Some(t@),
        None => None,
    }
}

impl SystemMessage {
    /// A message set at time `now`.
    pub fn new(message: &str, now: u64) -> (r: SystemMessage)
        ensures
            opt_view(r.message) == Some(message@),
            r.time == now,
    {
        SystemMessage { message: Some(message.to_owned()), time: now }
    }
}

/// The terminal could not host the editor: the window is too small to show
/// a text row and the status bar.
#[derive(Copy, Clone, Debug, PartialEq, Eq)]
pub struct StartupFailure;

/// The editor as a value: what is drawn and what is saved.
pub ghost struct EditorView {
    pub lines: Seq<Seq<char>>,
    pub term_rows: int,
    pub term_cols: int,
    pub tab_size: int,
    pub place: Place,
    pub dirty: bool,
    pub path: Option<Seq<char>>,
    pub message: Option<Seq<char>>,
    pub message_time: int,
}

impl EditorView {
    /// The screen has sensible dimensions and the cursor is in bounds.
    pub open spec fn valid(self) -> bool {
        &&& 0 <= self.term_rows < MAX_SCREEN
        &&& 0 <= self.term_cols < MAX_SCREEN
        &&& 0 <= self.tab_size < 256
        &&& in_bounds(self.lines, self.term_rows, self.term_cols, self.place)
    }

    pub open spec fn with_place(self, p: Place) -> EditorView {
        EditorView { place: p, ..self }
    }

    /// After a navigation key.
    pub open spec fn navigated(self, key: NavigationKey) -> EditorView {
        self.with_place(nav_place(self.lines, self.term_rows, self.term_cols, self.place, key))
    }

    /// After a character is typed at the cursor: it is inserted there and
    /// the cursor moves right past it.
    pub open spec fn typed(self, c: char) -> EditorView {
        let lines = with_char(self.lines, self.place.col(), self.place.row(), c);
        EditorView {
            lines: lines,
            place: nav_place(lines, self.term_rows, self.term_cols, self.place, NavigationKey::Right),
            dirty: true,
            ..self
        }
    }

    /// After Enter: the row is split at the cursor, and the cursor goes to
    /// the start of the new row below.
    pub open spec fn line_broken(self) -> EditorView {
        EditorView {
            lines: with_line_break(self.lines, self.place.col(), self.place.row()),
            place: Place { x: 0, col_offset: 0, ..row_down(self.term_rows, self.place) },
            dirty: true,
            ..self
        }
    }

    /// After a backspace: the character left of the cursor goes, or at the
    /// start of a row the row joins the one above; the cursor moves left, to
    /// the joining point when rows were joined.
    pub open spec fn backspaced(self) -> EditorView {
        let col = self.place.col();
        let row = self.place.row();
        EditorView {
            lines: without_char(self.lines, col, row),
            place: nav_place(
                self.lines,
                self.term_rows,
                self.term_cols,
                self.place,
                NavigationKey::Left,
            ),
            dirty: self.dirty || deletes_something(self.lines, col, row),
            ..self
        }
    }
}

/// The editor: the buffer, the cursor and view over it, and what the
/// status bar shows.
pub struct Editor {
    /// The last screen row that shows text (rows `0..=term_rows` do).
    pub term_rows: usize,
    /// The last screen column the cursor may stand on.
    pub term_cols: usize,
    pub cur_pos: CursorPosition,
    pub row_offset: usize,
    pub col_offset: usize,
    pub tab_size: u8,
    pub rows: Vec<Vec<char>>,
    pub message: SystemMessage,
    pub dirty_flag: bool,
    pub path: Option<String>,
}

pub open spec fn lines_view(rows: Seq<Vec<char>>) -> Seq<Seq<char>> {
    rows.map_values(|l: Vec<char>| l@)
}

impl View for Editor {
    type V = EditorView;

    open spec fn view(&self) -> EditorView {
        EditorView {
            lines: lines_view(self.rows@),
            term_rows: self.term_rows as int,
            term_cols: self.term_cols as int,
            tab_size: self.tab_size as int,
            place: Place {
                x: self.cur_pos.x as int,
                y: self.cur_pos.y as int,
                row_offset: self.row_offset as int,
                col_offset: self.col_offset as int,
            },
            dirty: self.dirty_flag,
            path: opt_view(self.path),
            message: opt_view(self.message.message),
            message_time: self.message.time as int,
        }
    }
}

pub const HELP_MESSAGE: &'static str = "HELP: Ctrl-S = save | Ctrl-Q = quit";

impl Editor {
    pub open spec fn wf(&self) -> bool {
        self@.valid()
    }

    /// A fresh editor for a terminal window of `window_rows` by
    /// `window_cols`: an empty buffer, the cursor at the top left, and the
    /// help message set at time `now`. The last window row holds the status
    /// bar, and the last column is kept free.
    pub fn new(window_rows: u16, window_cols: u16, now: u64) -> (r: Result<Editor, StartupFailure>)
        ensures
            r is Err <==> window_rows < 2 || window_cols < 1,
            r matches Ok(e) ==> {
                &&& e.wf()
                &&& e@.lines.len() == 0
                &&& e@.term_rows == window_rows - 2
                &&& e@.term_cols == window_cols - 1
                &&& e@.tab_size == TAB_SIZE
                &&& e@.place == Place { x: 0, y: 0, row_offset: 0, col_offset: 0 }
                &&& !e@.dirty
                &&& e@.path is None
                &&& e@.message == Some(HELP_MESSAGE@)
                &&& e@.message_time == now
            },
    {
        if window_rows < 2 || window_cols < 1 {
            return Err(StartupFailure);
        }
        let e = Editor {
            term_rows: (window_rows - 2) as usize,
            term_cols: (window_cols - 1) as usize,
            cur_pos: CursorPosition { x: 0, y: 0 },
            row_offset: 0,
            col_offset: 0,
            tab_size: TAB_SIZE,
            rows: Vec::new(),
            message: SystemMessage::new(HELP_MESSAGE, now),
            dirty_flag: false,
            path: None,
        };
        assert(e@.lines =~= Seq::<Seq<char>>::empty());
        Ok(e)
    }

    /// Replaces the buffer with the lines of `text`, read from the file at
    /// `path`, and puts the cursor at the start.
    pub fn open(&mut self, path: &str, text: &str)
        requires
            old(self).wf(),
        ensures
            final(self).wf(),
            final(self)@ == (EditorView {
                lines: lines_of(text@),
                place: Place { x: 0, y: 0, row_offset: 0, col_offset: 0 },
                dirty: false,
                path: Some(path@),
                ..old(self)@
            }),
    {
        self.rows = split_lines(text);
        self.path = Some(path.to_owned());
        self.cur_pos = CursorPosition { x: 0, y: 0 };
        self.row_offset = 0;
        self.col_offset = 0;
        self.dirty_flag = false;
    }

    /// Row and column counts fit in `usize`.
    pub(crate) proof fn lemma_sizes(&self)
        ensures
            self@.lines.len() == self.rows@.len(),
            self.rows@.len() <= usize::MAX,
            forall|r: int|
                0 <= r < self@.lines.len() ==> #[trigger] self@.lines[r] == self.rows@[r]@
                    && self@.lines[r].len() <= usize::MAX,
            forall|r: int| #[trigger] line_len(self@.lines, r) <= usize::MAX,
    {
        assert(self.rows@.len() == self.rows.len());
        assert forall|r: int| 0 <= r < self@.lines.len() implies #[trigger] self@.lines[r]
            == self.rows@[r]@ && self@.lines[r].len() <= usize::MAX by {
            assert(self.rows@[r]@.len() == self.rows@[r].len());
        }
        assert forall|r: int| #[trigger] line_len(self@.lines, r) <= usize::MAX by {
            if 0 <= r < self@.lines.len() {
                assert(self@.lines[r] == self.rows@[r]@);
            }
        }
    }

    /// The length of row `row`, 0 for the row past the last.
    fn line_length(&self, row: usize) -> (r: usize)
        ensures
            r == line_len(self@.lines, row as int),
    {
        proof {
            self.lemma_sizes();
        }
        if row < self.rows.len() {
            self.rows[row].len()
        } else {
            0
        }
    }

    /// Moves the cursor to document column `target` of its row.
    fn set_column(&mut self, target: usize)
        ensures
            final(self)@ == old(self)@.with_place(
                place_column(old(self).term_cols as int, old(self)@.place, target as int),
            ),
    {
        let tc = self.term_cols;
        if self.col_offset <= target && target - self.col_offset <= tc {
            self.cur_pos.x = target - self.col_offset;
        } else if target <= tc {
            self.col_offset = 0;
            self.cur_pos.x = target;
        } else {
            self.col_offset = target - tc;
            self.cur_pos.x = tc;
        }
    }

    /// Moves the cursor back to the end of its row if it stands past it.
    fn clamp_column(&mut self)
        requires
            old(self)@.place.row() <= usize::MAX,
            old(self)@.place.col() <= usize::MAX,
        ensures
            final(self)@ == old(self)@.with_place(
                clamp_to_line(old(self)@.lines, old(self).term_cols as int, old(self)@.place),
            ),
    {
        let len = self.line_length(self.row_offset + self.cur_pos.y);
        if self.col_offset + self.cur_pos.x > len {
            self.set_column(len);
        }
    }

    /// Moves the cursor one row up, scrolling at the top row.
    fn step_up(&mut self)
        requires
            old(self)@.place.row() > 0,
        ensures
            final(self)@ == old(self)@.with_place(row_up(old(self)@.place)),
    {
        if self.cur_pos.y > 0 {
            self.cur_pos.y = self.cur_pos.y - 1;
        } else {
            self.row_offset = self.row_offset - 1;
        }
    }

    /// Moves the cursor one row down, scrolling at the bottom row.
    fn step_down(&mut self)
        requires
            old(self)@.place.row() < usize::MAX,
        ensures
            final(self)@ == old(self)@.with_place(
                row_down(old(self).term_rows as int, old(self)@.place),
            ),
    {
        if self.cur_pos.y < self.term_rows {
            self.cur_pos.y = self.cur_pos.y + 1;
        } else {
            self.row_offset = self.row_offset + 1;
        }
    }

    /// The cursor's document row and column.
    pub(crate) fn cursor_row_col(&self) -> (r: (usize, usize))
        requires
            self.wf(),
        ensures
            r.0 == self@.place.row(),
            r.1 == self@.place.col(),
            r.0 <= self.rows@.len(),
            r.1 <= line_len(self@.lines, r.0 as int),
    {
        proof {
            self.lemma_sizes();
        }
        (self.row_offset + self.cur_pos.y, self.col_offset + self.cur_pos.x)
    }

    fn nav_left(&mut self)
        requires
            old(self).wf(),
        ensures
            final(self)@ == old(self)@.navigated(NavigationKey::Left),
    {
        let (row, _col) = self.cursor_row_col();
        if self.cur_pos.x > 0 {
            self.cur_pos.x = self.cur_pos.x - 1;
        } else if self.col_offset > 0 {
            self.col_offset = self.col_offset - 1;
        } else if row > 0 {
            let above = self.line_length(row - 1);
            self.step_up();
            self.set_column(above);
        }
    }

    fn nav_right(&mut self)
        requires
            old(self).wf(),
        ensures
            final(self)@ == old(self)@.navigated(NavigationKey::Right),
    {
        let (row, col) = self.cursor_row_col();
        let len = self.line_length(row);
        if col < len {
            if self.cur_pos.x < self.term_cols {
                self.cur_pos.x = self.cur_pos.x + 1;
            } else {
                self.col_offset = self.col_offset + 1;
            }
        } else if row < self.rows.len() && row + 1 < self.rows.len() {
            self.step_down();
            self.cur_pos.x = 0;
            self.col_offset = 0;
        }
    }

    fn nav_up(&mut self)
        requires
            old(self).wf(),
        ensures
            final(self)@ == old(self)@.navigated(NavigationKey::Up),
    {
        let (row, _col) = self.cursor_row_col();
        if row > 0 {
            self.step_up();
            self.clamp_column();
        }
    }

    fn nav_down(&mut self)
        requires
            old(self).wf(),
        ensures
            final(self)@ == old(self)@.navigated(NavigationKey::Down),
    {
        let (row, _col) = self.cursor_row_col();
        if row < self.rows.len() && row + 1 < self.rows.len() {
            self.step_down();
            self.clamp_column();
        }
    }

    fn nav_page_up(&mut self)
        requires
            old(self).wf(),
        ensures
            final(self)@ == old(self)@.navigated(NavigationKey::PageUp),
    {
        proof {
            self.lemma_sizes();
        }
        let tr = self.term_rows;
        let off = if self.row_offset > tr {
            self.row_offset - tr
        } else {
            0
        };
        self.cur_pos.y = 0;
        self.row_offset = off;
        self.clamp_column();
    }

    fn nav_page_down(&mut self)
        requires
            old(self).wf(),
        ensures
            final(self)@ == old(self)@.navigated(NavigationKey::PageDown),
    {
        proof {
            self.lemma_sizes();
        }
        let tr = self.term_rows;
        let n = self.rows.len();
        let top = if n > tr + 1 {
            n - tr - 1
        } else {
            0
        };
        let off = if self.row_offset < top {
            if self.row_offset + tr < top {
                self.row_offset + tr
            } else {
                top
            }
        } else {
            self.row_offset
        };
        let y = if off >= n {
            0
        } else if n - 1 - off < tr {
            n - 1 - off
        } else {
            tr
        };
        assert(off == page_down_offset(self@.lines, tr as int, self.row_offset as int));
        assert(y == page_down_y(self@.lines, tr as int, off as int));
        self.cur_pos.y = y;
        self.row_offset = off;
        self.clamp_column();
    }

    /// Moves the cursor as a navigation key asks.
    pub fn move_cursor(&mut self, key: NavigationKey)
        requires
            old(self).wf(),
        ensures
            final(self).wf(),
            final(self)@ == old(self)@.navigated(key),
    {
        proof {
            lemma_nav_in_bounds(self@.lines, self@.term_rows, self@.term_cols, self@.place, key);
        }
        match key {
            NavigationKey::Left => self.nav_left(),
            NavigationKey::Right => self.nav_right(),
            NavigationKey::Up => self.nav_up(),
            NavigationKey::Down => self.nav_down(),
            NavigationKey::Home => {
                self.cur_pos.x = 0;
                self.col_offset = 0;
            },
            NavigationKey::End => {
                let (row, _col) = self.cursor_row_col();
                let len = self.line_length(row);
                if len > self.term_cols {
                    self.cur_pos.x = self.term_cols;
                    self.col_offset = len - self.term_cols;
                } else {
                    self.cur_pos.x = len;
                    self.col_offset = 0;
                }
            },
            NavigationKey::PageUp => self.nav_page_up(),
            NavigationKey::PageDown => self.nav_page_down(),
        }
    }

    /// Types `c` at the cursor: it is inserted there (on the row past the
    /// last line, it starts a new line) and the cursor moves right past it.
    pub fn insert_char(&mut self, c: char)
        requires
            old(self).wf(),
        ensures
            final(self).wf(),
            final(self)@ == old(self)@.typed(c),
    {
        let ghost start = self@;
        let (row, col) = self.cursor_row_col();
        proof {
            self.lemma_sizes();
        }
        if row == self.rows.len() {
            let mut line: Vec<char> = Vec::new();
            line.push(c);
            self.rows.push(line);
        } else {
            self.rows[row].insert(col, c);
        }
        self.dirty_flag = true;
        assert(self@.lines =~= with_char(start.lines, col as int, row as int, c));
        self.move_cursor(NavigationKey::Right);
    }

    /// Breaks the row at the cursor into two rows and moves the cursor to the
    /// start of the second.
    pub fn insert_newline(&mut self)
        requires
            old(self).wf(),
        ensures
            final(self).wf(),
            final(self)@ == old(self)@.line_broken(),
    {
        let ghost start = self@;
        let (row, col) = self.cursor_row_col();
        proof {
            self.lemma_sizes();
        }
        if row == self.rows.len() {
            self.rows.push(Vec::new());
        } else {
            let tail = self.rows[row].split_off(col);
            self.rows.insert(row + 1, tail);
        }
        self.dirty_flag = true;
        assert(self@.lines =~= with_line_break(start.lines, col as int, row as int));
        proof {
            self.lemma_sizes();
        }
        self.step_down();
        self.cur_pos.x = 0;
        self.col_offset = 0;
    }

    /// Backspace: removes the character left of the cursor, or at the start
    /// of a row joins the row to the end of the one above; the cursor follows
    /// the edit point.
    pub fn remove_char(&mut self)
        requires
            old(self).wf(),
        ensures
            final(self).wf(),
            final(self)@ == old(self)@.backspaced(),
    {
        let ghost start = self@;
        let (row, col) = self.cursor_row_col();
        proof {
            self.lemma_sizes();
            lemma_nav_in_bounds(start.lines, start.term_rows, start.term_cols, start.place, NavigationKey::Left);
        }
        if col > 0 {
            self.rows[row].remove(col - 1);
            self.dirty_flag = true;
            assert(self@.lines =~= without_char(start.lines, col as int, row as int));
            if self.cur_pos.x > 0 {
                self.cur_pos.x = self.cur_pos.x - 1;
            } else {
                self.col_offset = self.col_offset - 1;
            }
        } else if row > 0 {
            let above = self.line_length(row - 1);
            if row < self.rows.len() {
                let mut joined = self.rows.remove(row);
                self.rows[row - 1].append(&mut joined);
                self.dirty_flag = true;
            }
            assert(self@.lines =~= without_char(start.lines, col as int, row as int));
            self.step_up();
            self.set_column(above);
        }
    }
}

} // verus!
