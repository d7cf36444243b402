use rim::editor::{step, Buffer, Key, RedrawIntent, ScrollCmd, StepOutput, Action};
use rim::render::{cursor_goto, render_output, status_line, UpdateScreen};
use rim::screen::{Cursor, ScreenState};
use rim::strutil::usize_string;
use rim::term::{bg_rgb, clear_all, clear_line, fg_black, fg_reset, bg_reset, goto, scroll_up, scroll_down};
use rim::text::TextBuffer;
use rim::util::Mode;

fn buffer(lines: &[&str], size: (u16, u16)) -> Buffer {
    Buffer {
        screen: ScreenState::new(size),
        text: TextBuffer { lines: lines.iter().map(|l| l.chars().collect()).collect() },
    }
}

#[test]
fn decimal_numerals() {
    assert_eq!(usize_string(0), "0");
    assert_eq!(usize_string(7), "7");
    assert_eq!(usize_string(90), "90");
    assert_eq!(usize_string(65535), "65535");
}

#[test]
fn escape_sequences_match_their_contracts() {
    assert_eq!(clear_all(), "\x1b[2J");
    assert_eq!(clear_line(), "\x1b[2K");
    assert_eq!(goto(3, 12), "\x1b[12;3H");
    assert_eq!(scroll_up(1), "\x1b[1S");
    assert_eq!(scroll_down(2), "\x1b[2T");
    assert_eq!(bg_rgb(145, 172, 209), "\x1b[48;2;145;172;209m");
    assert_eq!(fg_black(), "\x1b[38;5;0m");
    assert_eq!(fg_reset(), "\x1b[39m");
    assert_eq!(bg_reset(), "\x1b[49m");
}

#[test]
fn single_line_repaint_stream() {
    let buf = buffer(&["ab", "cd"], (80, 10));
    let out = buf.text.rewrite_single_line(1, 0);
    assert_eq!(out, "\x1b[2;1H\x1b[2Kcd");
}

#[test]
fn entire_screen_repaint_stream() {
    let buf = buffer(&["ab", "cd", "ef"], (80, 3));
    let out = buf.text.rewrite_entire_screen(0, (80, 3));
    assert_eq!(out, "\x1b[2J\x1b[1;1Hab\x1b[2;1Hcd\x1b[1;1H");
}

#[test]
fn entire_screen_repaint_respects_the_scroll_offset() {
    let buf = buffer(&["ab", "cd", "ef"], (80, 10));
    let out = buf.text.rewrite_entire_screen(1, (80, 10));
    assert_eq!(out, "\x1b[2J\x1b[1;1Hcd\x1b[2;1Hef\x1b[1;1H");
}

#[test]
fn status_line_stream_for_normal_mode() {
    let body = "NORMAL 1:1".to_string();
    let out = status_line(&Mode::Normal, &body, 10);
    assert_eq!(
        out,
        "\x1b[10;1H\x1b[2K\x1b[48;2;145;172;209m\x1b[38;5;0mNORMAL 1:1\x1b[39m\x1b[49m"
    );
}

#[test]
fn status_line_colors_differ_by_mode() {
    let body = "m".to_string();
    let normal = status_line(&Mode::Normal, &body, 5);
    let insert = status_line(&Mode::Insert, &body, 5);
    let command = status_line(&Mode::Command(String::new()), &body, 5);
    assert!(insert.contains("\x1b[48;2;192;202;142m"));
    assert!(command.contains("\x1b[48;2;233;144;144m"));
    assert_ne!(normal, insert);
    assert_ne!(insert, command);
    assert_ne!(normal, command);
}

#[test]
fn mode_labels() {
    assert_eq!(Mode::Normal.text(), "NORMAL");
    assert_eq!(Mode::Insert.text(), "INSERT");
    assert_eq!(Mode::Command("w".to_string()).text(), "COMMAND:w ");
}

#[test]
fn cursor_goto_is_one_based() {
    let mut s = ScreenState::new((80, 10));
    s.cursor = Cursor { x: 4, y: 2 };
    assert_eq!(cursor_goto(&s), "\x1b[3;5H");
}

#[test]
fn rendered_event_with_a_message() {
    let buf = buffer(&["ab"], (80, 4));
    let out = StepOutput {
        mode: Mode::Normal,
        redraw: RedrawIntent::Nothing,
        scroll: ScrollCmd::Nothing,
        action: Action::Nothing,
        message: Some("Save complete".to_string()),
    };
    let bytes = render_output(&buf.text, &buf.screen, &out);
    assert_eq!(
        bytes,
        "\x1b[4;1H\x1b[2K\x1b[48;2;145;172;209m\x1b[38;5;0mSave complete\x1b[39m\x1b[49m\x1b[1;1H"
    );
}

#[test]
fn rendered_event_after_an_edit() {
    let mut buf = buffer(&["ab", "cd"], (80, 4));
    let out = step(Mode::Insert, Key::Char('x'), &mut buf);
    let bytes = render_output(&buf.text, &buf.screen, &out);
    // single-line repaint of row 0, insert-mode status at 1-based (1, 2),
    // and the cursor parked after the typed character
    assert_eq!(
        bytes,
        "\x1b[1;1H\x1b[2Kxab\x1b[4;1H\x1b[2K\x1b[48;2;192;202;142m\x1b[38;5;0mINSERT 1:2\x1b[39m\x1b[49m\x1b[1;2H"
    );
}

#[test]
fn rendered_event_with_a_scroll() {
    let mut buf = buffer(&["a", "b", "c", "d", "e"], (80, 3));
    buf.screen.cursor = Cursor { x: 0, y: 1 };
    let out = step(Mode::Normal, Key::Char('j'), &mut buf);
    assert_eq!(out.scroll, ScrollCmd::Up);
    let bytes = render_output(&buf.text, &buf.screen, &out);
    assert!(bytes.starts_with("\x1b[1S"));
    assert!(bytes.contains("\x1b[2;1H\x1b[2Kc"));
}
