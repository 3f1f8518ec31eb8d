use rilo::{
    ctrl_key, handle_escape_seq, refresh_screen, render_row, render_width, send_esc_seq, Action,
    CtrlSeq, CursorPosition, Editor, EscapeKey, InvalidEscapeSequence, NavigationKey,
};

fn chars(s: &str) -> Vec<char> {
    s.chars().collect()
}

fn bytes(ctrl: CtrlSeq) -> Vec<u8> {
    let mut out = Vec::new();
    send_esc_seq(&mut out, ctrl);
    out
}

#[test]
fn control_sequences() {
    assert_eq!(bytes(CtrlSeq::ClearLine), b"\x1b[K".to_vec());
    assert_eq!(bytes(CtrlSeq::ClearScreen), b"\x1b[2J".to_vec());
    assert_eq!(bytes(CtrlSeq::GotoStart), b"\x1b[H".to_vec());
    assert_eq!(bytes(CtrlSeq::HideCursor), b"\x1b[?25l".to_vec());
    assert_eq!(bytes(CtrlSeq::ShowCursor), b"\x1b[?25h".to_vec());
    assert_eq!(bytes(CtrlSeq::InvertColor), b"\x1b[7m".to_vec());
    assert_eq!(bytes(CtrlSeq::NormalColor), b"\x1b[m".to_vec());
    assert_eq!(
        bytes(CtrlSeq::MoveCursor(CursorPosition { x: 9, y: 119 })),
        b"\x1b[120;10H".to_vec()
    );
    assert_eq!(refresh_screen(), b"\x1b[?25l\x1b[2J\x1b[?25h".to_vec());
}

#[test]
fn send_appends_to_buffer() {
    let mut out = b"ab".to_vec();
    send_esc_seq(&mut out, CtrlSeq::GotoStart);
    assert_eq!(out, b"ab\x1b[H".to_vec());
}

#[test]
fn rows_expand_tabs() {
    assert_eq!(render_row(&chars("a\tb"), 4), b"a    b".to_vec());
    assert_eq!(render_row(&chars("\t"), 2), b"  ".to_vec());
    assert_eq!(render_row(&chars(""), 4), b"".to_vec());
    assert_eq!(render_row(&chars("\u{e9}"), 4), vec![0xc3, 0xa9]);
    assert_eq!(render_width(&chars("a\tb"), 4), 6);
    assert_eq!(render_width(&chars("\u{e9}x"), 4), 2);
}

#[test]
fn ctrl_keys_and_actions() {
    assert_eq!(ctrl_key('q'), 17);
    assert_eq!(ctrl_key('s'), 19);
    assert_eq!(ctrl_key('x'), 24);
    assert_eq!(Action::from(17), Action::Quit);
    assert_eq!(Action::from(24), Action::Refresh);
    assert_eq!(Action::from(19), Action::Save);
    assert_eq!(Action::from(0x1b), Action::Escape);
    assert_eq!(Action::from(127), Action::Delete);
    assert_eq!(Action::from(b'\r'), Action::Enter);
    assert_eq!(Action::from(b'k'), Action::Input('k'));
}

#[test]
fn escape_sequences() {
    let nav = |k| -> Result<EscapeKey, InvalidEscapeSequence> { Ok(EscapeKey::Navigate(k)) };
    assert_eq!(handle_escape_seq(b"[A\0"), nav(NavigationKey::Up));
    assert_eq!(handle_escape_seq(b"[B\0"), nav(NavigationKey::Down));
    assert_eq!(handle_escape_seq(b"[C\0"), nav(NavigationKey::Right));
    assert_eq!(handle_escape_seq(b"[D\0"), nav(NavigationKey::Left));
    assert_eq!(handle_escape_seq(b"[H\0"), nav(NavigationKey::Home));
    assert_eq!(handle_escape_seq(b"[F\0"), nav(NavigationKey::End));
    assert_eq!(handle_escape_seq(b"[5~"), nav(NavigationKey::PageUp));
    assert_eq!(handle_escape_seq(b"[6~"), nav(NavigationKey::PageDown));
    assert_eq!(handle_escape_seq(b"[3~"), Ok(EscapeKey::Delete));
    assert_eq!(handle_escape_seq(b"[Z\0"), Err(InvalidEscapeSequence));
    assert_eq!(handle_escape_seq(b"OA\0"), Err(InvalidEscapeSequence));
    assert_eq!(handle_escape_seq(b"["), Err(InvalidEscapeSequence));
}

#[test]
fn frame_of_empty_editor() {
    let e = Editor::new(3, 6, 0).unwrap();
    let expected = b"\x1b[?25l\x1b[H\x1b[K~\r\n\x1b[K~\r\n\x1b[K\x1b[7m[No o\x1b[m\x1b[1;1H\x1b[?25h";
    assert_eq!(e.draw(0), expected.to_vec());
}

#[test]
fn frame_shows_visible_slice_and_cursor_column() {
    let mut e = Editor::new(3, 5, 0).unwrap();
    e.rows = vec![chars("\tabcdef"), chars("xy")];
    e.move_cursor(NavigationKey::End);
    assert_eq!((e.col_offset, e.cur_pos.x), (3, 4));
    assert_eq!(e.rx(), 4);
    let frame = e.draw(0);
    let expected =
        b"\x1b[?25l\x1b[H\x1b[Kcdef\r\n\x1b[K\r\n\x1b[K\x1b[7m[No \x1b[m\x1b[1;5H\x1b[?25h";
    assert_eq!(frame, expected.to_vec());
}

#[test]
fn cursor_column_counts_tabs() {
    let mut e = Editor::new(10, 40, 0).unwrap();
    e.rows = vec![chars("\ta\tb")];
    e.cur_pos = CursorPosition { x: 3, y: 0 };
    assert_eq!(e.rx(), 9);
}

#[test]
fn status_bar_with_file_and_message() {
    let mut e = Editor::new(4, 61, 1000).unwrap();
    e.open("f.txt", "one\ntwo\n");
    let shown = e.render_status_bar(5999);
    let mut text = b"[Open: f.txt]        1/2        50%        HELP: Ctrl-S = save".to_vec();
    text.truncate(60);
    let mut expected = b"\x1b[7m".to_vec();
    expected.extend(&text);
    expected.extend(b"\x1b[m");
    assert_eq!(shown, expected);

    let expired = e.render_status_bar(6000);
    let mut text = b"[Open: f.txt]        1/2        50%".to_vec();
    text.resize(60, b' ');
    let mut expected = b"\x1b[7m".to_vec();
    expected.extend(&text);
    expected.extend(b"\x1b[m");
    assert_eq!(expired, expected);

    e.move_cursor(NavigationKey::Down);
    let later = e.render_status_bar(6000);
    assert!(later.windows(4).any(|w| w == b"2/2 "));
    assert!(later.windows(4).any(|w| w == b"100%"));
}

#[test]
fn refresh_twice_draws_identical_frames() {
    let mut e = Editor::new(6, 20, 0).unwrap();
    e.open("f.txt", "alpha\n\tbeta\ngamma\n");
    e.move_cursor(NavigationKey::Down);
    e.move_cursor(NavigationKey::End);
    assert_eq!(e.handle_action(Action::Refresh, 10), rilo::Command::Refresh);
    let first = e.draw(10);
    assert_eq!(e.handle_action(Action::Refresh, 10), rilo::Command::Refresh);
    let second = e.draw(10);
    assert_eq!(first, second);
}

#[test]
fn status_bar_without_file_shows_position_and_message() {
    let mut e = Editor::new(10, 101, 0).unwrap();
    let mut text = b"[No open file]        1/0        0%        HELP: Ctrl-S = save | Ctrl-Q = quit".to_vec();
    text.resize(100, b' ');
    let mut expected = b"\x1b[7m".to_vec();
    expected.extend(&text);
    expected.extend(b"\x1b[m");
    assert_eq!(e.render_status_bar(10), expected);

    e.insert_char('a');
    assert_eq!(e.handle_action(Action::Save, 20), rilo::Command::Redraw);
    let bar = e.render_status_bar(30);
    let mut text = b"[No open file]        1/1        100%        Error saving file!".to_vec();
    text.resize(100, b' ');
    let mut expected = b"\x1b[7m".to_vec();
    expected.extend(&text);
    expected.extend(b"\x1b[m");
    assert_eq!(bar, expected);
}
