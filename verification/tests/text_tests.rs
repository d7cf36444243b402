use rim::text::TextBuffer;

fn buffer(lines: &[&str]) -> TextBuffer {
    TextBuffer { lines: lines.iter().map(|l| l.chars().collect()).collect() }
}

fn lines_of(buf: &TextBuffer) -> Vec<String> {
    buf.lines.iter().map(|l| l.iter().collect()).collect()
}

#[test]
fn test_basic_cursor_move() {}

#[test]
fn new_buffer_is_one_empty_line() {
    let buf = TextBuffer::new();
    assert_eq!(buf.line_count(), 1);
    assert_eq!(buf.line_len(0), 0);
}

#[test]
fn insert_and_delete_preserve_line_count() {
    let mut buf = buffer(&["abc", "de"]);
    buf.insert_char(0, 1, 'x');
    assert_eq!(buf.line_count(), 2);
    assert_eq!(lines_of(&buf), vec!["axbc", "de"]);
    buf.delete_char(1, 0);
    assert_eq!(buf.line_count(), 2);
    assert_eq!(lines_of(&buf), vec!["axbc", "e"]);
    buf.delete_char(1, 0);
    buf.delete_char(1, 0);
    assert_eq!(buf.line_count(), 2);
    assert_eq!(lines_of(&buf), vec!["axbc", ""]);
    buf.insert_char(5, 0, 'z');
    buf.insert_char(0, 9, 'z');
    assert_eq!(lines_of(&buf), vec!["axbc", ""]);
}

#[test]
fn split_and_blank_line_grow_line_count() {
    let mut buf = buffer(&["hello", "yo"]);
    buf.split_line(0, 2);
    assert_eq!(buf.line_count(), 3);
    assert_eq!(lines_of(&buf), vec!["he", "llo", "yo"]);
    buf.insert_blank_line(1);
    assert_eq!(buf.line_count(), 4);
    assert_eq!(lines_of(&buf), vec!["he", "", "llo", "yo"]);
    buf.split_line(3, 0);
    assert_eq!(lines_of(&buf), vec!["he", "", "llo", "", "yo"]);
}

#[test]
fn truncate_from_keeps_the_suffix() {
    let mut buf = buffer(&["abcdef"]);
    buf.truncate_from(0, 4);
    assert_eq!(lines_of(&buf), vec!["ef"]);
    buf.truncate_from(0, 2);
    assert_eq!(lines_of(&buf), vec![""]);
}

#[test]
fn char_at_reads_cells() {
    let buf = buffer(&["ab", "xyz"]);
    assert_eq!(buf.char_at(0, 1), 'b');
    assert_eq!(buf.char_at(1, 0), 'x');
}

#[test]
fn from_content_splits_on_newlines() {
    let chars: Vec<char> = "one\ntwo\nthree".chars().collect();
    let buf = TextBuffer::from_content(&chars);
    assert_eq!(lines_of(&buf), vec!["one", "two", "three"]);
}

#[test]
fn from_content_drops_one_trailing_newline() {
    let chars: Vec<char> = "one\ntwo\n".chars().collect();
    let buf = TextBuffer::from_content(&chars);
    assert_eq!(lines_of(&buf), vec!["one", "two"]);
}

#[test]
fn from_content_keeps_inner_empty_lines() {
    let chars: Vec<char> = "a\n\nb\n\n".chars().collect();
    let buf = TextBuffer::from_content(&chars);
    assert_eq!(lines_of(&buf), vec!["a", "", "b", ""]);
}

#[test]
fn from_content_of_empty_text_is_one_empty_line() {
    let chars: Vec<char> = Vec::new();
    let buf = TextBuffer::from_content(&chars);
    assert_eq!(buf.line_count(), 1);
    assert_eq!(buf.line_len(0), 0);
}

#[test]
fn from_content_of_lone_newline_is_one_empty_line() {
    let chars: Vec<char> = "\n".chars().collect();
    let buf = TextBuffer::from_content(&chars);
    assert_eq!(buf.line_count(), 1);
    assert_eq!(buf.line_len(0), 0);
}

#[test]
fn to_content_joins_with_newlines() {
    let buf = buffer(&["one", "", "three"]);
    assert_eq!(buf.to_content(), "one\n\nthree");
}

#[test]
fn load_save_round_trip_without_trailing_newline() {
    let original = "alpha\nbeta\ngamma";
    let chars: Vec<char> = original.chars().collect();
    let buf = TextBuffer::from_content(&chars);
    assert_eq!(buf.to_content(), original);
}

#[test]
fn load_save_round_trip_normalises_trailing_newline() {
    let chars: Vec<char> = "alpha\nbeta\n".chars().collect();
    let buf = TextBuffer::from_content(&chars);
    assert_eq!(buf.to_content(), "alpha\nbeta");
}
