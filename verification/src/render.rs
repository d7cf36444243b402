use vstd::prelude::*;
use crate::editor::{RedrawIntent, ScrollCmd, StepOutput};
use crate::screen::ScreenState;
use crate::strutil::{dec_of, push_char, push_line, usize_string};
use crate::term::{
    bg_reset, bg_reset_seq, bg_rgb, bg_rgb_seq, clear_all, clear_all_seq, clear_line,
    clear_line_seq, fg_black, fg_black_seq, fg_reset, fg_reset_seq, goto, goto_seq, scroll_down,
    scroll_down_seq, scroll_up, scroll_up_seq,
};
use crate::text::TextBuffer;
use crate::util::{Mode, mode_text_seq};

verus! {

/// How many buffer rows are visible: the content area holds one row less
/// than the terminal (the status line), and the buffer may end sooner.
pub open spec fn visible_rows(nlines: int, off: int, h: int) -> int {
    if h - 1 <= nlines - off {
        h - 1
    } else {
        nlines - off
    }
}

/// The escape stream that paints viewport rows `0 .. n`: for each row, a
/// cursor jump to its first column followed by the row's text.
pub open spec fn screen_rows_seq(lines: Seq<Seq<char>>, off: int, n: int) -> Seq<char>
    decreases n,
{
    if n <= 0 {
        Seq::empty()
    } else {
        screen_rows_seq(lines, off, n - 1) + goto_seq(1, n) + lines[off + n - 1]
    }
}

/// The escape stream of a full repaint: clear the screen, paint every
/// visible row, and park the cursor at the top-left corner.
pub open spec fn entire_screen_seq(lines: Seq<Seq<char>>, off: int, h: int) -> Seq<char> {
    clear_all_seq() + screen_rows_seq(lines, off, visible_rows(lines.len() as int, off, h))
        + goto_seq(1, 1)
}

/// The escape stream that repaints the single viewport row `line`: jump
/// there, clear the row, and write the buffer line shown on it.
pub open spec fn single_line_seq(lines: Seq<Seq<char>>, line: int, off: int) -> Seq<char> {
    goto_seq(1, line + 1) + clear_line_seq() + lines[line + off]
}

/// The status-line background color of a mode; each mode has its own.
pub open spec fn mode_bg_seq(m: Mode) -> Seq<char> {
    match m {
        Mode::Normal => bg_rgb_seq(145, 172, 209),
        Mode::Insert => bg_rgb_seq(192, 202, 142),
        Mode::Command(_) => bg_rgb_seq(233, 144, 144),
    }
}

/// The escape stream of the status line: jump to the bottom terminal row,
/// clear it, color it for the mode, write the body text, and reset the
/// colors.
pub open spec fn status_seq(m: Mode, body: Seq<char>, h: int) -> Seq<char> {
    goto_seq(1, h) + clear_line_seq() + mode_bg_seq(m) + fg_black_seq() + body + fg_reset_seq()
        + bg_reset_seq()
}

/// The default status body, `"{mode} {row}:{col}"`: the mode's label and
/// the 1-based cursor position.
pub open spec fn status_text(m: Mode, screen: ScreenState) -> Seq<char> {
    mode_text_seq(m) + seq![' '] + dec_of(screen.spec_cur_row() + 1) + seq![':'] + dec_of(
        screen.cursor.x as int + 1,
    )
}

/// The escape sequence that parks the terminal cursor on the editor
/// cursor, in 1-based coordinates, each saturated at the largest value a
/// terminal coordinate can carry.
pub open spec fn cursor_goto_seq(screen: ScreenState) -> Seq<char> {
    goto_seq(sat_coord(screen.cursor.x as int + 1), sat_coord(screen.cursor.y as int + 1))
}

/// A terminal coordinate is 16 bits; larger values saturate.
pub open spec fn sat_coord(v: int) -> int {
    if v > 65535 {
        65535
    } else {
        v
    }
}

/// Renders the text under the viewport into terminal escape sequences.
pub trait UpdateScreen: View<V = Seq<Seq<char>>> {
    /// The escape stream of a full repaint of the content area, scrolled
    /// to `row_offset`, for a terminal of the given size.
    fn rewrite_entire_screen(&self, row_offset: usize, terminal_size: (u16, u16)) -> (out: String)
        requires
            row_offset < self@.len(),
            terminal_size.1 >= 1,
        ensures
            out@ == entire_screen_seq(self@, row_offset as int, terminal_size.1 as int),
    ;

    /// The escape stream that repaints the single viewport row
    /// `line_to_rewrite` under scroll offset `row_offset`.
    fn rewrite_single_line(&self, line_to_rewrite: usize, row_offset: usize) -> (out: String)
        requires
            line_to_rewrite + row_offset < self@.len(),
            line_to_rewrite <= 65534,
        ensures
            out@ == single_line_seq(self@, line_to_rewrite as int, row_offset as int),
    ;
}

impl UpdateScreen for TextBuffer {
    fn rewrite_entire_screen(&self, row_offset: usize, terminal_size: (u16, u16)) -> (out: String)
    {
        proof {
            vstd::std_specs::vec::axiom_spec_len(&self.lines);
        }
        let h = terminal_size.1 as usize;
        let avail = self.lines.len() - row_offset;
        let count = if h - 1 <= avail {
            h - 1
        } else {
            avail
        };
        let mut out = clear_all();
        let mut i: usize = 0;
        while i < count
            invariant
                i <= count,
                self@.len() <= usize::MAX,
                count == visible_rows(self@.len() as int, row_offset as int, h as int),
                count <= self@.len() - row_offset,
                count <= h - 1 < 65535,
                out@ == clear_all_seq() + screen_rows_seq(self@, row_offset as int, i as int),
            decreases count - i,
        {
            let g = goto(1, (i + 1) as u16);
            out.append(g.as_str());
            push_line(&mut out, &self.lines[row_offset + i]);
            i = i + 1;
            proof {
                assert(out@ =~= clear_all_seq() + screen_rows_seq(
                    self@,
                    row_offset as int,
                    i as int,
                ));
            }
        }
        let g = goto(1, 1);
        out.append(g.as_str());
        proof {
            assert(out@ =~= entire_screen_seq(self@, row_offset as int, terminal_size.1 as int));
        }
        out
    }

    fn rewrite_single_line(&self, line_to_rewrite: usize, row_offset: usize) -> (out: String) {
        proof {
            vstd::std_specs::vec::axiom_spec_len(&self.lines);
        }
        let mut out = goto(1, (line_to_rewrite + 1) as u16);
        let c = clear_line();
        out.append(c.as_str());
        push_line(&mut out, &self.lines[line_to_rewrite + row_offset]);
        proof {
            assert(out@ =~= single_line_seq(self@, line_to_rewrite as int, row_offset as int));
        }
        out
    }
}

/// The escape stream of the status line with the given body text: the
/// bottom terminal row, colored for the mode.
pub fn status_line(mode: &Mode, body: &String, height: u16) -> (out: String)
    requires
        height >= 1,
    ensures
        out@ == status_seq(*mode, body@, height as int),
{
    let mut out = goto(1, height);
    let c = clear_line();
    out.append(c.as_str());
    let bg = match mode {
        Mode::Normal => bg_rgb(145, 172, 209),
        Mode::Insert => bg_rgb(192, 202, 142),
        Mode::Command(_) => bg_rgb(233, 144, 144),
    };
    out.append(bg.as_str());
    let f = fg_black();
    out.append(f.as_str());
    out.append(body.as_str());
    let fr = fg_reset();
    out.append(fr.as_str());
    let br = bg_reset();
    out.append(br.as_str());
    proof {
        assert(out@ =~= status_seq(*mode, body@, height as int));
    }
    out
}

/// The escape stream of a scroll instruction: scrolling by one row, or
/// nothing.
pub open spec fn scroll_part(s: ScrollCmd) -> Seq<char> {
    match s {
        ScrollCmd::Nothing => Seq::empty(),
        ScrollCmd::Up => scroll_up_seq(1),
        ScrollCmd::Down => scroll_down_seq(1),
    }
}

/// The escape stream of a repaint decision: nothing, one viewport row, or
/// the whole viewport.
pub open spec fn redraw_part(lines: Seq<Seq<char>>, screen: ScreenState, r: RedrawIntent) -> Seq<
    char,
> {
    match r {
        RedrawIntent::Nothing => Seq::empty(),
        RedrawIntent::SingleLine(l) => single_line_seq(lines, l as int, screen.row_offset as int),
        RedrawIntent::FullViewport => entire_screen_seq(
            lines,
            screen.row_offset as int,
            screen.terminal_size.1 as int,
        ),
    }
}

/// Everything written to the terminal for one processed event, in order:
/// the scroll instruction, the repaint, the status line (the step's
/// message, or the default mode/row/column fields), and the cursor jump.
pub open spec fn event_output_seq(lines: Seq<Seq<char>>, screen: ScreenState, out: StepOutput) -> Seq<
    char,
> {
    let h = screen.terminal_size.1 as int;
    scroll_part(out.scroll) + redraw_part(lines, screen, out.redraw) + (match out.message {
        Some(msg) => status_seq(out.mode, msg@, h),
        None => status_seq(out.mode, status_text(out.mode, screen), h),
    }) + cursor_goto_seq(screen)
}

/// Renders one step's decisions against the state left behind by the
/// step: the scroll instruction, then the repaint, then the status line,
/// then the cursor jump, ready to be written to the terminal in one
/// piece.
pub fn render_output(text: &TextBuffer, screen: &ScreenState, out: &StepOutput) -> (s: String)
    requires
        screen.spec_cur_row() < text@.len(),
        screen.cursor.x < usize::MAX,
        screen.terminal_size.1 >= 2,
        out.redraw matches RedrawIntent::SingleLine(l) ==> l + screen.row_offset < text@.len()
            && l <= 65534,
    ensures
        s@ == event_output_seq(text@, *screen, *out),
{
    proof {
        vstd::std_specs::vec::axiom_spec_len(&text.lines);
    }
    let mut s = match out.scroll {
        ScrollCmd::Nothing => String::new(),
        ScrollCmd::Up => scroll_up(1),
        ScrollCmd::Down => scroll_down(1),
    };
    match out.redraw {
        RedrawIntent::Nothing => {},
        RedrawIntent::SingleLine(l) => {
            let r = text.rewrite_single_line(l, screen.row_offset);
            s.append(r.as_str());
        },
        RedrawIntent::FullViewport => {
            let r = text.rewrite_entire_screen(screen.row_offset, screen.terminal_size);
            s.append(r.as_str());
        },
    }
    let body: String = match &out.message {
        Some(msg) => msg.clone(),
        None => {
            let mut b = out.mode.text();
            push_char(&mut b, ' ');
            let row = screen.cur_row();
            let r = usize_string(row + 1);
            b.append(r.as_str());
            push_char(&mut b, ':');
            let c = usize_string(screen.cursor.x + 1);
            b.append(c.as_str());
            proof {
                assert(b@ =~= status_text(out.mode, *screen));
            }
            b
        },
    };
    let st = status_line(&out.mode, &body, screen.terminal_size.1);
    s.append(st.as_str());
    let cg = cursor_goto(screen);
    s.append(cg.as_str());
    proof {
        assert(s@ =~= event_output_seq(text@, *screen, *out));
    }
    s
}

/// The escape sequence that parks the terminal cursor on the editor
/// cursor.
pub fn cursor_goto(screen: &ScreenState) -> (out: String)
    ensures
        out@ == cursor_goto_seq(*screen),
{
    let x = if screen.cursor.x >= 65535 {
        65535u16
    } else {
        (screen.cursor.x + 1) as u16
    };
    let y = if screen.cursor.y >= 65535 {
        65535u16
    } else {
        (screen.cursor.y + 1) as u16
    };
    goto(x, y)
}

} // verus!
