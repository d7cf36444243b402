use rim::editor::{step, Action, Buffer, Key, RedrawIntent, ScrollCmd};
use rim::screen::{Cursor, ScreenState};
use rim::text::TextBuffer;
use rim::util::{save_message, Mode};

fn buffer(lines: &[&str], size: (u16, u16)) -> Buffer {
    Buffer {
        screen: ScreenState::new(size),
        text: TextBuffer { lines: lines.iter().map(|l| l.chars().collect()).collect() },
    }
}

fn lines_of(buf: &Buffer) -> Vec<String> {
    buf.text.lines.iter().map(|l| l.iter().collect()).collect()
}

#[test]
fn scenario_j_then_x_deletes_under_the_moved_cursor() {
    let mut buf = buffer(&["abc", "de"], (80, 10));
    let out = step(Mode::Normal, Key::Char('j'), &mut buf);
    assert_eq!(out.mode, Mode::Normal);
    assert_eq!(buf.screen.cursor, Cursor { x: 0, y: 1 });
    let out = step(out.mode, Key::Char('x'), &mut buf);
    assert_eq!(out.mode, Mode::Normal);
    assert_eq!(lines_of(&buf), vec!["abc", "e"]);
    assert_eq!(buf.screen.cursor, Cursor { x: 0, y: 1 });
    assert_eq!(out.redraw, RedrawIntent::SingleLine(1));
}

#[test]
fn scenario_append_at_end_of_line() {
    let mut buf = buffer(&["ab"], (80, 10));
    let out = step(Mode::Normal, Key::Char('A'), &mut buf);
    assert_eq!(out.mode, Mode::Insert);
    assert_eq!(buf.screen.cursor.x, 2);
    let out = step(out.mode, Key::Char('!'), &mut buf);
    assert_eq!(out.mode, Mode::Insert);
    assert_eq!(lines_of(&buf), vec!["ab!"]);
    assert_eq!(buf.screen.cursor.x, 3);
}

#[test]
fn scenario_open_line_below() {
    let mut buf = buffer(&["abc", "de"], (80, 10));
    let out = step(Mode::Normal, Key::Char('o'), &mut buf);
    assert_eq!(out.mode, Mode::Insert);
    assert_eq!(buf.text.line_count(), 3);
    assert_eq!(lines_of(&buf), vec!["abc", "", "de"]);
    assert_eq!(buf.screen.cursor, Cursor { x: 0, y: 1 });
    assert_eq!(out.redraw, RedrawIntent::FullViewport);
}

#[test]
fn scenario_write_command_requests_a_save() {
    let mut buf = buffer(&["de", "mo"], (80, 10));
    let mut mode = Mode::Command(String::new());
    let out = step(mode, Key::Char('w'), &mut buf);
    mode = out.mode;
    assert_eq!(mode, Mode::Command("w".to_string()));
    let out = step(mode, Key::Char('\n'), &mut buf);
    assert_eq!(out.mode, Mode::Normal);
    assert_eq!(out.action, Action::Save);
    assert_eq!(buf.text.to_content(), "de\nmo");
    assert_eq!(save_message(true, &String::new()), "Save complete");
}

#[test]
fn scenario_scroll_at_the_bottom_of_the_viewport() {
    let h: u16 = 6;
    let mut buf = buffer(&["a", "b", "c", "d", "e", "f", "g", "h"], (80, h));
    buf.screen.cursor = Cursor { x: 0, y: (h - 2) as usize };
    let out = step(Mode::Normal, Key::Char('j'), &mut buf);
    assert_eq!(buf.screen.row_offset, 1);
    assert_eq!(buf.screen.cursor.y, (h - 2) as usize);
    assert_eq!(out.scroll, ScrollCmd::Up);
    assert_eq!(out.redraw, RedrawIntent::SingleLine((h - 2) as usize));
}

#[test]
fn j_at_the_last_line_does_nothing() {
    let mut buf = buffer(&["a", "b"], (80, 10));
    buf.screen.cursor = Cursor { x: 0, y: 1 };
    let out = step(Mode::Normal, Key::Char('j'), &mut buf);
    assert_eq!(out.redraw, RedrawIntent::Nothing);
    assert_eq!(buf.screen.cursor, Cursor { x: 0, y: 1 });
    assert_eq!(buf.screen.row_offset, 0);
}

#[test]
fn k_scrolls_down_past_the_top_edge() {
    let mut buf = buffer(&["a", "b", "c"], (80, 10));
    buf.screen.row_offset = 1;
    let out = step(Mode::Normal, Key::Char('k'), &mut buf);
    assert_eq!(buf.screen.row_offset, 0);
    assert_eq!(buf.screen.cursor.y, 0);
    assert_eq!(out.scroll, ScrollCmd::Down);
    assert_eq!(out.redraw, RedrawIntent::SingleLine(0));
}

#[test]
fn horizontal_keys_move_and_clamp() {
    let mut buf = buffer(&["abcd"], (80, 10));
    let out = step(Mode::Normal, Key::Char('l'), &mut buf);
    assert_eq!(buf.screen.cursor.x, 1);
    let out = step(out.mode, Key::Char('$'), &mut buf);
    assert_eq!(buf.screen.cursor.x, 3);
    let out = step(out.mode, Key::Char('l'), &mut buf);
    assert_eq!(buf.screen.cursor.x, 3);
    let out = step(out.mode, Key::Char('0'), &mut buf);
    assert_eq!(buf.screen.cursor.x, 0);
    let out = step(out.mode, Key::Char('h'), &mut buf);
    assert_eq!(buf.screen.cursor.x, 0);
    assert_eq!(out.mode, Mode::Normal);
}

#[test]
fn w_advances_to_the_next_word() {
    let mut buf = buffer(&["ab cd ef"], (80, 10));
    let out = step(Mode::Normal, Key::Char('w'), &mut buf);
    assert_eq!(buf.screen.cursor.x, 3);
    let _ = step(out.mode, Key::Char('w'), &mut buf);
    assert_eq!(buf.screen.cursor.x, 6);
}

#[test]
fn x_on_the_last_character_pulls_the_cursor_left() {
    let mut buf = buffer(&["ab"], (80, 10));
    buf.screen.cursor.x = 1;
    let _ = step(Mode::Normal, Key::Char('x'), &mut buf);
    assert_eq!(lines_of(&buf), vec!["a"]);
    assert_eq!(buf.screen.cursor.x, 0);
    let _ = step(Mode::Normal, Key::Char('x'), &mut buf);
    assert_eq!(lines_of(&buf), vec![""]);
    assert_eq!(buf.screen.cursor.x, 0);
    let out = step(Mode::Normal, Key::Char('x'), &mut buf);
    assert_eq!(lines_of(&buf), vec![""]);
    assert_eq!(out.redraw, RedrawIntent::SingleLine(0));
}

#[test]
fn insert_mode_entry_points_place_the_cursor() {
    let mut buf = buffer(&["abc"], (80, 10));
    buf.screen.cursor.x = 1;
    let out = step(Mode::Normal, Key::Char('i'), &mut buf);
    assert_eq!(out.mode, Mode::Insert);
    assert_eq!(buf.screen.cursor.x, 1);

    let mut buf = buffer(&["abc"], (80, 10));
    buf.screen.cursor.x = 1;
    let out = step(Mode::Normal, Key::Char('a'), &mut buf);
    assert_eq!(out.mode, Mode::Insert);
    assert_eq!(buf.screen.cursor.x, 2);

    let mut buf = buffer(&["abc"], (80, 10));
    buf.screen.cursor.x = 1;
    let out = step(Mode::Normal, Key::Char('I'), &mut buf);
    assert_eq!(out.mode, Mode::Insert);
    assert_eq!(buf.screen.cursor.x, 0);
}

#[test]
fn enter_in_insert_mode_splits_the_line() {
    let mut buf = buffer(&["abcd", "x"], (80, 10));
    buf.screen.cursor.x = 2;
    let out = step(Mode::Insert, Key::Char('\n'), &mut buf);
    assert_eq!(out.mode, Mode::Insert);
    assert_eq!(out.redraw, RedrawIntent::FullViewport);
    assert_eq!(lines_of(&buf), vec!["ab", "cd", "x"]);
    assert_eq!(buf.screen.cursor, Cursor { x: 0, y: 1 });
}

#[test]
fn backspace_in_insert_mode_deletes_to_the_left() {
    let mut buf = buffer(&["abc"], (80, 10));
    buf.screen.cursor.x = 2;
    let out = step(Mode::Insert, Key::Backspace, &mut buf);
    assert_eq!(out.mode, Mode::Insert);
    assert_eq!(lines_of(&buf), vec!["ac"]);
    assert_eq!(buf.screen.cursor.x, 1);

    let mut buf = buffer(&["abc"], (80, 10));
    let out = step(Mode::Insert, Key::Backspace, &mut buf);
    assert_eq!(out.redraw, RedrawIntent::Nothing);
    assert_eq!(lines_of(&buf), vec!["abc"]);
}

#[test]
fn clear_to_start_of_line_in_insert_mode() {
    let mut buf = buffer(&["abcdef"], (80, 10));
    buf.screen.cursor.x = 4;
    let out = step(Mode::Insert, Key::Ctrl('u'), &mut buf);
    assert_eq!(out.mode, Mode::Insert);
    assert_eq!(lines_of(&buf), vec!["ef"]);
    assert_eq!(buf.screen.cursor.x, 0);
}

#[test]
fn line_edges_in_insert_mode() {
    let mut buf = buffer(&["abc"], (80, 10));
    buf.screen.cursor.x = 1;
    let out = step(Mode::Insert, Key::Ctrl('e'), &mut buf);
    assert_eq!(buf.screen.cursor.x, 3);
    let out = step(out.mode, Key::Ctrl('a'), &mut buf);
    assert_eq!(buf.screen.cursor.x, 0);
    assert_eq!(out.mode, Mode::Insert);
}

#[test]
fn escape_reverts_to_normal_clamping() {
    let mut buf = buffer(&["ab"], (80, 10));
    buf.screen.cursor.x = 2;
    let out = step(Mode::Insert, Key::Esc, &mut buf);
    assert_eq!(out.mode, Mode::Normal);
    assert_eq!(buf.screen.cursor.x, 1);
}

#[test]
fn command_mode_collects_and_erases_text() {
    let mut buf = buffer(&["a"], (80, 10));
    let out = step(Mode::Normal, Key::Char(':'), &mut buf);
    assert_eq!(out.mode, Mode::Command(String::new()));
    let out = step(out.mode, Key::Char('w'), &mut buf);
    let out = step(out.mode, Key::Char('q'), &mut buf);
    assert_eq!(out.mode, Mode::Command("wq".to_string()));
    let out = step(out.mode, Key::Backspace, &mut buf);
    assert_eq!(out.mode, Mode::Command("w".to_string()));
    let out = step(out.mode, Key::Backspace, &mut buf);
    assert_eq!(out.mode, Mode::Command(String::new()));
    let out = step(out.mode, Key::Backspace, &mut buf);
    assert_eq!(out.mode, Mode::Normal);
}

#[test]
fn unknown_command_reports_and_resets() {
    let mut buf = buffer(&["a"], (80, 10));
    let out = step(Mode::Command("zz".to_string()), Key::Char('\n'), &mut buf);
    assert_eq!(out.mode, Mode::Command(String::new()));
    assert_eq!(
        out.message,
        Some(
            "Sorry, that command is not implemented for now! Go back to Normal mode with C-c."
                .to_string()
        )
    );
}

#[test]
fn quit_paths_request_quit() {
    let mut buf = buffer(&["a"], (80, 10));
    let out = step(Mode::Normal, Key::Char('q'), &mut buf);
    assert_eq!(out.action, Action::Quit);
    let out = step(Mode::Command("q".to_string()), Key::Char('\n'), &mut buf);
    assert_eq!(out.action, Action::Quit);
}

#[test]
fn empty_command_and_escape_return_to_normal() {
    let mut buf = buffer(&["a"], (80, 10));
    let out = step(Mode::Command(String::new()), Key::Char('\n'), &mut buf);
    assert_eq!(out.mode, Mode::Normal);
    assert_eq!(out.action, Action::Nothing);
    let out = step(Mode::Command("abc".to_string()), Key::Esc, &mut buf);
    assert_eq!(out.mode, Mode::Normal);
    let out = step(Mode::Command("abc".to_string()), Key::Ctrl('c'), &mut buf);
    assert_eq!(out.mode, Mode::Normal);
}

#[test]
fn mouse_press_jumps_the_cursor() {
    let mut buf = buffer(&["abcdef", "ghi"], (80, 10));
    let out = step(Mode::Normal, Key::MousePress(3, 2), &mut buf);
    assert_eq!(out.mode, Mode::Normal);
    assert_eq!(buf.screen.cursor, Cursor { x: 2, y: 1 });
}

#[test]
fn save_failure_message_carries_the_reason() {
    let reason = "disk full".to_string();
    assert_eq!(save_message(false, &reason), "Save failed! reason: disk full");
}

#[test]
fn check_wf_accepts_fresh_states_and_rejects_bad_ones() {
    let buf = buffer(&["abc"], (80, 10));
    assert!(buf.check_wf(false));
    assert!(buf.check_wf(true));
    let mut bad = buffer(&["abc"], (80, 10));
    bad.screen.cursor.x = 3;
    assert!(!bad.check_wf(false));
    assert!(bad.check_wf(true));
    let mut bad = buffer(&["abc"], (80, 10));
    bad.screen.row_offset = 1;
    assert!(!bad.check_wf(false));
    let bad = buffer(&["abc"], (80, 1));
    assert!(!bad.check_wf(false));
}
