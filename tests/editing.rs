use rilo::{Action, Command, CursorPosition, Editor, EscapeKey, NavigationKey, StartupFailure};

fn chars(s: &str) -> Vec<char> {
    s.chars().collect()
}

fn text(e: &Editor) -> Vec<String> {
    e.rows.iter().map(|l| l.iter().collect()).collect()
}

fn editor(window_rows: u16, window_cols: u16, lines: &[&str]) -> Editor {
    let mut e = Editor::new(window_rows, window_cols, 0).unwrap();
    e.rows = lines.iter().map(|l| chars(l)).collect();
    e
}

fn abs(e: &Editor) -> (usize, usize) {
    (e.col_offset + e.cur_pos.x, e.row_offset + e.cur_pos.y)
}

#[test]
fn right_at_line_end_wraps_and_enter_splits() {
    let mut e = editor(10, 40, &["abc", "de"]);
    e.cur_pos = CursorPosition { x: 3, y: 0 };
    e.move_cursor(NavigationKey::Right);
    assert_eq!((e.cur_pos.x, e.cur_pos.y), (0, 1));
    e.cur_pos = CursorPosition { x: 1, y: 1 };
    e.insert_newline();
    assert_eq!(text(&e), vec!["abc", "d", "e"]);
    assert_eq!((e.cur_pos.x, e.cur_pos.y), (0, 2));
    assert!(e.dirty_flag);
}

#[test]
fn insert_into_empty_buffer_starts_a_line() {
    let mut e = Editor::new(10, 40, 0).unwrap();
    assert!(e.rows.is_empty());
    e.insert_char('x');
    assert_eq!(text(&e), vec!["x"]);
    assert_eq!((e.cur_pos.x, e.cur_pos.y), (1, 0));
    assert!(e.dirty_flag);
}

#[test]
fn page_down_advances_by_at_most_term_rows() {
    let mut e = editor(4, 40, &["a", "b", "c", "d", "e"]);
    assert_eq!(e.term_rows, 2);
    e.cur_pos = CursorPosition { x: 0, y: 2 };
    e.move_cursor(NavigationKey::PageDown);
    assert_eq!(e.row_offset, 2);
    assert_eq!(e.cur_pos.y, 2);
    e.move_cursor(NavigationKey::PageDown);
    assert_eq!(e.row_offset, 2);
    assert_eq!(abs(&e), (0, 4));
}

#[test]
fn page_up_goes_back_to_the_top() {
    let mut e = editor(4, 40, &["a", "b", "c", "d", "e"]);
    e.row_offset = 2;
    e.cur_pos = CursorPosition { x: 1, y: 2 };
    e.move_cursor(NavigationKey::PageUp);
    assert_eq!(e.row_offset, 0);
    assert_eq!((e.cur_pos.x, e.cur_pos.y), (1, 0));
}

#[test]
fn malformed_escape_changes_nothing() {
    let mut e = editor(10, 40, &["abc", "de"]);
    e.cur_pos = CursorPosition { x: 2, y: 1 };
    let key = rilo::handle_escape_seq(&[b'[', b'Z', 0]);
    assert!(key.is_err());
    e.handle_escape(key);
    assert_eq!((e.cur_pos.x, e.cur_pos.y), (2, 1));
    assert_eq!((e.row_offset, e.col_offset), (0, 0));
    assert_eq!(text(&e), vec!["abc", "de"]);
    assert!(!e.dirty_flag);
}

#[test]
fn navigation_sequence_stays_in_bounds() {
    let mut e = editor(4, 5, &["hello world", "", "a\tb", "xyz", "longer line here"]);
    let keys = [
        NavigationKey::End,
        NavigationKey::Down,
        NavigationKey::Right,
        NavigationKey::Right,
        NavigationKey::PageDown,
        NavigationKey::End,
        NavigationKey::Right,
        NavigationKey::Right,
        NavigationKey::Up,
        NavigationKey::Left,
        NavigationKey::Left,
        NavigationKey::PageUp,
        NavigationKey::Home,
        NavigationKey::Left,
        NavigationKey::Down,
        NavigationKey::Down,
        NavigationKey::Down,
        NavigationKey::Down,
        NavigationKey::Down,
        NavigationKey::End,
    ];
    for k in keys {
        e.move_cursor(k);
        let (x, y) = abs(&e);
        assert!(y <= e.rows.len());
        let len = if y < e.rows.len() { e.rows[y].len() } else { 0 };
        assert!(x <= len);
        assert!(e.cur_pos.x <= e.term_cols && e.cur_pos.y <= e.term_rows);
    }
    assert_eq!(abs(&e), (16, 4));
}

#[test]
fn end_scrolls_a_long_line_into_view() {
    let mut e = editor(10, 5, &["abcdefghij"]);
    assert_eq!(e.term_cols, 4);
    e.move_cursor(NavigationKey::End);
    assert_eq!(e.col_offset, 6);
    assert_eq!(e.cur_pos.x, 4);
    e.move_cursor(NavigationKey::Home);
    assert_eq!((e.col_offset, e.cur_pos.x), (0, 0));
}

#[test]
fn left_at_line_start_goes_to_end_of_line_above() {
    let mut e = editor(10, 40, &["abc", "de"]);
    e.cur_pos = CursorPosition { x: 0, y: 1 };
    e.move_cursor(NavigationKey::Left);
    assert_eq!((e.cur_pos.x, e.cur_pos.y), (3, 0));
    e.move_cursor(NavigationKey::Left);
    assert_eq!((e.cur_pos.x, e.cur_pos.y), (2, 0));
}

#[test]
fn left_at_document_start_stays() {
    let mut e = editor(10, 40, &["abc"]);
    e.move_cursor(NavigationKey::Left);
    e.move_cursor(NavigationKey::Up);
    assert_eq!((e.cur_pos.x, e.cur_pos.y), (0, 0));
}

#[test]
fn down_clamps_to_shorter_line() {
    let mut e = editor(10, 40, &["abcdef", "ab", "abcd"]);
    e.cur_pos = CursorPosition { x: 5, y: 0 };
    e.move_cursor(NavigationKey::Down);
    assert_eq!((e.cur_pos.x, e.cur_pos.y), (2, 1));
    e.move_cursor(NavigationKey::Down);
    assert_eq!((e.cur_pos.x, e.cur_pos.y), (2, 2));
    e.move_cursor(NavigationKey::Down);
    assert_eq!((e.cur_pos.x, e.cur_pos.y), (2, 2));
}

#[test]
fn down_at_bottom_row_scrolls() {
    let mut e = editor(3, 40, &["a", "b", "c"]);
    assert_eq!(e.term_rows, 1);
    e.cur_pos = CursorPosition { x: 0, y: 1 };
    e.move_cursor(NavigationKey::Down);
    assert_eq!((e.row_offset, e.cur_pos.y), (1, 1));
}

#[test]
fn right_on_last_line_end_stays() {
    let mut e = editor(10, 40, &["ab"]);
    e.cur_pos = CursorPosition { x: 2, y: 0 };
    e.move_cursor(NavigationKey::Right);
    assert_eq!((e.cur_pos.x, e.cur_pos.y), (2, 0));
}

#[test]
fn insert_then_backspace_restores_line() {
    let mut e = editor(10, 40, &["hello", "world"]);
    e.cur_pos = CursorPosition { x: 2, y: 1 };
    e.insert_char('Z');
    assert_eq!(text(&e), vec!["hello", "woZrld"]);
    assert_eq!(e.cur_pos.x, 3);
    e.remove_char();
    assert_eq!(text(&e), vec!["hello", "world"]);
    assert_eq!((e.cur_pos.x, e.cur_pos.y), (2, 1));
}

#[test]
fn backspace_at_line_start_joins_lines() {
    let mut e = editor(10, 40, &["abc", "de", "f"]);
    e.cur_pos = CursorPosition { x: 0, y: 1 };
    e.remove_char();
    assert_eq!(text(&e), vec!["abcde", "f"]);
    assert_eq!((e.cur_pos.x, e.cur_pos.y), (3, 0));
    assert!(e.dirty_flag);
}

#[test]
fn backspace_at_document_start_does_nothing() {
    let mut e = editor(10, 40, &["abc"]);
    e.remove_char();
    assert_eq!(text(&e), vec!["abc"]);
    assert!(!e.dirty_flag);
}

#[test]
fn enter_on_empty_buffer_adds_a_line() {
    let mut e = Editor::new(10, 40, 0).unwrap();
    e.insert_newline();
    assert_eq!(text(&e), vec![""]);
    assert_eq!((e.cur_pos.x, e.cur_pos.y), (0, 1));
}

#[test]
fn enter_at_bottom_row_scrolls() {
    let mut e = editor(3, 40, &["ab", "cd"]);
    e.cur_pos = CursorPosition { x: 1, y: 1 };
    e.insert_newline();
    assert_eq!(text(&e), vec!["ab", "c", "d"]);
    assert_eq!((e.row_offset, e.cur_pos.y, e.cur_pos.x), (1, 1, 0));
}

#[test]
fn window_too_small_is_a_startup_failure() {
    assert_eq!(Editor::new(24, 0, 0).err(), Some(StartupFailure));
    assert_eq!(Editor::new(1, 80, 0).err(), Some(StartupFailure));
    let e = Editor::new(24, 80, 7).unwrap();
    assert_eq!((e.term_rows, e.term_cols), (22, 79));
    assert_eq!(e.message.time, 7);
    assert_eq!(e.message.message.as_deref(), Some("HELP: Ctrl-S = save | Ctrl-Q = quit"));
}

#[test]
fn typing_keys_through_actions() {
    let mut e = Editor::new(10, 40, 0).unwrap();
    for b in b"hi" {
        assert_eq!(e.handle_action(Action::from(*b), 1), Command::Redraw);
    }
    assert_eq!(e.handle_action(Action::from(b'\r'), 1), Command::Redraw);
    assert_eq!(e.handle_action(Action::from(0x07), 1), Command::Redraw);
    assert_eq!(e.handle_action(Action::from(b'!'), 1), Command::Redraw);
    assert_eq!(text(&e), vec!["hi", "!"]);
    assert_eq!(e.handle_action(Action::from(0x7f), 1), Command::Redraw);
    assert_eq!(text(&e), vec!["hi", ""]);
    assert_eq!(e.handle_action(Action::from(0x1b), 1), Command::ReadEscape);
    e.handle_escape(Ok(EscapeKey::Delete));
    assert_eq!(text(&e), vec!["hi"]);
    assert_eq!(e.handle_action(Action::from(0x11), 1), Command::Quit);
    assert_eq!(e.handle_action(Action::from(0x18), 1), Command::Refresh);
}

#[test]
fn save_without_file_or_changes() {
    let mut e = Editor::new(10, 40, 0).unwrap();
    assert_eq!(e.handle_action(Action::Save, 3), Command::Redraw);
    assert_eq!(e.message.message.as_deref(), Some("No Changes Made!"));
    assert_eq!(e.message.time, 3);
    e.insert_char('a');
    assert_eq!(e.handle_action(Action::Save, 4), Command::Redraw);
    assert_eq!(e.message.message.as_deref(), Some("Error saving file!"));
    assert!(e.dirty_flag);
}

#[test]
fn save_with_file() {
    let mut e = Editor::new(10, 40, 0).unwrap();
    e.open("notes.txt", "one\ntwo\n");
    e.insert_char('x');
    assert_eq!(e.handle_action(Action::Save, 5), Command::Save);
    assert_eq!(e.contents(), b"xone\ntwo\n".to_vec());
    e.finish_save(false, 6);
    assert!(e.dirty_flag);
    assert_eq!(e.message.message.as_deref(), Some("Error saving file!"));
    e.finish_save(true, 7);
    assert!(!e.dirty_flag);
    assert_eq!(e.message.message.as_deref(), Some("File saved successfully!"));
    assert_eq!(e.handle_action(Action::Save, 8), Command::Redraw);
    assert_eq!(e.message.message.as_deref(), Some("No Changes Made!"));
}

#[test]
fn open_replaces_buffer_and_resets_cursor() {
    let mut e = editor(10, 40, &["old"]);
    e.cur_pos = CursorPosition { x: 2, y: 0 };
    e.dirty_flag = true;
    e.open("a.txt", "first\nsecond");
    assert_eq!(text(&e), vec!["first", "second"]);
    assert_eq!((e.cur_pos.x, e.cur_pos.y, e.row_offset, e.col_offset), (0, 0, 0, 0));
    assert!(!e.dirty_flag);
    assert_eq!(e.path.as_deref(), Some("a.txt"));
}

#[test]
fn end_resets_scroll_from_line_length() {
    let mut e = editor(10, 3, &["abcd", "ab"]);
    assert_eq!(e.term_cols, 2);
    e.col_offset = 3;
    e.move_cursor(NavigationKey::End);
    assert_eq!((e.col_offset, e.cur_pos.x), (2, 2));
    e.col_offset = 1;
    e.cur_pos = CursorPosition { x: 1, y: 1 };
    e.move_cursor(NavigationKey::End);
    assert_eq!((e.col_offset, e.cur_pos.x), (0, 2));
}
