use rilo::{join_lines, split_lines};

fn lines(v: &[&str]) -> Vec<Vec<char>> {
    v.iter().map(|l| l.chars().collect()).collect()
}

#[test]
fn split_drops_newlines_and_final_empty_piece() {
    assert_eq!(split_lines(""), lines(&[]));
    assert_eq!(split_lines("\n"), lines(&[""]));
    assert_eq!(split_lines("a\nb"), lines(&["a", "b"]));
    assert_eq!(split_lines("a\nb\n"), lines(&["a", "b"]));
    assert_eq!(split_lines("a\n\nb\n\n"), lines(&["a", "", "b", ""]));
}

#[test]
fn join_ends_every_line_with_newline() {
    assert_eq!(join_lines(&lines(&[])), b"".to_vec());
    assert_eq!(join_lines(&lines(&["", "ab"])), b"\nab\n".to_vec());
    assert_eq!(join_lines(&lines(&["\u{e9}\u{20ac}"])), "\u{e9}\u{20ac}\n".as_bytes().to_vec());
}

#[test]
fn save_then_load_round_trip() {
    let saved = lines(&["first", "", "\ttabbed", "\u{1F600} wide", "last"]);
    let bytes = join_lines(&saved);
    let text = String::from_utf8(bytes).unwrap();
    assert_eq!(split_lines(&text), saved);
}
