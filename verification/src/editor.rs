use vstd::prelude::*;
use crate::screen::{
    ScreenState, click_x, click_y, horiz_new_x, last_col, vert_clamped_x, vert_new_off, vert_new_y,
    vert_scrolls_down, vert_scrolls_up, word_target,
};
use crate::text::TextBuffer;
use crate::util::{Mode, mode_allows_append, unknown_command_message, unknown_command_text};
use crate::strutil::{push_char, pop_char};

verus! {

/// One discrete input event, as the terminal layer decodes it: a printable
/// character, a control-modified character, one of the special keys, a
/// mouse press with 1-based terminal coordinates, or anything else (which
/// every mode ignores).
#[derive(Clone, Copy, PartialEq, Eq, Debug)]
pub enum Key {
    Char(char),
    Ctrl(char),
    Esc,
    Backspace,
    MousePress(u16, u16),
    Other,
}

/// How much of the screen must be repainted after an event: nothing
/// beyond the status line, one viewport row, or the whole viewport.
#[derive(Clone, Copy, PartialEq, Eq, Debug)]
pub enum RedrawIntent {
    Nothing,
    SingleLine(usize),
    FullViewport,
}

/// A scroll instruction for the terminal's own buffer, emitted when the
/// viewport scrolls so that unaffected rows need no repaint.
#[derive(Clone, Copy, PartialEq, Eq, Debug)]
pub enum ScrollCmd {
    Nothing,
    Up,
    Down,
}

/// The side effect the caller must perform after a step: none, saving the
/// buffer to its file, or leaving the editor.
#[derive(Clone, Copy, PartialEq, Eq, Debug)]
pub enum Action {
    Nothing,
    Save,
    Quit,
}

/// Everything one step of the state machine decides: the next mode, what
/// to repaint, whether to scroll the terminal, which side effect to
/// perform, and a status message that replaces the default status text.
#[derive(PartialEq, Debug)]
pub struct StepOutput {
    pub mode: Mode,
    pub redraw: RedrawIntent,
    pub scroll: ScrollCmd,
    pub action: Action,
    pub message: Option<String>,
}

/// The editor's owned state: the text and the viewport onto it.
pub struct Buffer {
    pub screen: ScreenState,
    pub text: TextBuffer,
}

impl Buffer {
    /// The buffer and the viewport agree: at least one line, the cursor on
    /// a valid row inside the content area, and its column within the
    /// mode's right bound.
    pub open spec fn wf(&self, insert: bool) -> bool {
        self.text.wf() && self.screen.wf(self.text@, insert)
    }

    /// The executable mirror of `wf`, for callers outside the library that
    /// must check the state before stepping.
    pub fn check_wf(&self, insert: bool) -> (b: bool)
        ensures
            b == self.wf(insert),
    {
        let n = self.text.line_count();
        if n == 0 {
            return false;
        }
        if self.screen.row_offset >= n {
            return false;
        }
        if self.screen.cursor.y >= n - self.screen.row_offset {
            return false;
        }
        if self.screen.terminal_size.1 < 2 {
            return false;
        }
        if self.screen.cursor.y > (self.screen.terminal_size.1 - 2) as usize {
            return false;
        }
        let row = self.screen.cursor.y + self.screen.row_offset;
        let len = self.text.line_len(row);
        let b = if insert {
            len
        } else if len == 0 {
            0
        } else {
            len - 1
        };
        self.screen.cursor.x <= b
    }
}

/// No mode change beyond `mode`, nothing to repaint or scroll, no side
/// effect and no message.
fn quiet_out(mode: Mode) -> (out: StepOutput)
    ensures
        out.mode == mode,
        out.redraw is Nothing,
        out.scroll is Nothing,
        out.action is Nothing,
        out.message is None,
{
    StepOutput {
        mode,
        redraw: RedrawIntent::Nothing,
        scroll: ScrollCmd::Nothing,
        action: Action::Nothing,
        message: None,
    }
}

/// The step left `post` and `out` completely quiet: the state unchanged,
/// nothing to repaint or scroll, no side effect, no message.
pub open spec fn quiet_rel(pre: Buffer, post: Buffer, out: StepOutput) -> bool {
    &&& post == pre
    &&& out.redraw is Nothing
    &&& out.scroll is Nothing
    &&& out.action is Nothing
    &&& out.message is None
}

/// Only the cursor column changed, to `x`; there is nothing to repaint or
/// scroll, no side effect and no message.
pub open spec fn column_only_rel(pre: Buffer, post: Buffer, out: StepOutput, x: int) -> bool {
    &&& post.text@ == pre.text@
    &&& post.screen.cursor.x == x
    &&& post.screen.cursor.y == pre.screen.cursor.y
    &&& post.screen.row_offset == pre.screen.row_offset
    &&& post.screen.terminal_size == pre.screen.terminal_size
    &&& out.scroll is Nothing
    &&& out.action is Nothing
    &&& out.message is None
}

/// The screen after a vertical move by `m`, per the `move_vert` contract.
pub open spec fn vert_moved_rel(pre: Buffer, post: Buffer, m: int) -> bool {
    let y = pre.screen.cursor.y as int;
    let h = pre.screen.terminal_size.1 as int;
    &&& post.screen.cursor.y == vert_new_y(y, h, m)
    &&& post.screen.row_offset == vert_new_off(pre.screen.row_offset as int, y, h, m)
    &&& post.screen.cursor.x == vert_clamped_x(
        pre.screen.cursor.x as int,
        post.text@[post.screen.spec_cur_row()].len() as int,
    )
    &&& post.screen.terminal_size == pre.screen.terminal_size
}

/// What a normal-mode step does for each key, relating the state before
/// (`pre`) to the state after (`post`) and the step's output `out`.
pub open spec fn normal_step_rel(pre: Buffer, key: Key, post: Buffer, out: StepOutput) -> bool {
    let row = pre.screen.spec_cur_row();
    let line = pre.text@[row];
    let len = line.len() as int;
    let y = pre.screen.cursor.y as int;
    let x = pre.screen.cursor.x as int;
    let off = pre.screen.row_offset as int;
    let h = pre.screen.terminal_size.1 as int;
    match key {
        Key::Char(ch) => if ch == 'q' {
            out.mode is Normal && out.action is Quit && post == pre && out.redraw is Nothing
                && out.scroll is Nothing && out.message is None
        } else if ch == 'h' {
            out.mode is Normal && out.redraw is Nothing && column_only_rel(
                pre,
                post,
                out,
                horiz_new_x(x, -1, len, false),
            )
        } else if ch == 'j' {
            out.mode is Normal && if row + 1 < pre.text@.len() {
                post.text@ == pre.text@ && vert_moved_rel(pre, post, 1) && if vert_scrolls_down(
                    y,
                    h,
                    1,
                ) {
                    out.redraw == RedrawIntent::SingleLine(pre.screen.cursor.y) && out.scroll
                        is Up
                } else {
                    out.redraw is Nothing && out.scroll is Nothing
                } && out.action is Nothing && out.message is None
            } else {
                quiet_rel(pre, post, out)
            }
        } else if ch == 'k' {
            out.mode is Normal && if row >= 1 {
                post.text@ == pre.text@ && vert_moved_rel(pre, post, -1) && if vert_scrolls_up(
                    y,
                    -1,
                ) {
                    out.redraw == RedrawIntent::SingleLine(pre.screen.cursor.y) && out.scroll
                        is Down
                } else {
                    out.redraw is Nothing && out.scroll is Nothing
                } && out.action is Nothing && out.message is None
            } else {
                quiet_rel(pre, post, out)
            }
        } else if ch == 'l' {
            out.mode is Normal && out.redraw is Nothing && column_only_rel(
                pre,
                post,
                out,
                horiz_new_x(x, 1, len, false),
            )
        } else if ch == '0' {
            out.mode is Normal && out.redraw is Nothing && column_only_rel(pre, post, out, 0)
        } else if ch == '$' {
            out.mode is Normal && out.redraw is Nothing && column_only_rel(
                pre,
                post,
                out,
                last_col(len),
            )
        } else if ch == 'w' {
            out.mode is Normal && out.redraw is Nothing && column_only_rel(
                pre,
                post,
                out,
                word_target(line, x),
            )
        } else if ch == 'x' {
            &&& out.mode is Normal
            &&& out.redraw == RedrawIntent::SingleLine(post.screen.cursor.y)
            &&& out.scroll is Nothing
            &&& out.action is Nothing
            &&& out.message is None
            &&& post.screen.cursor.y == pre.screen.cursor.y
            &&& post.screen.row_offset == pre.screen.row_offset
            &&& post.screen.terminal_size == pre.screen.terminal_size
            &&& if len >= 1 {
                post.text@ == pre.text@.update(row, line.remove(x)) && post.screen.cursor.x == (
                if x >= len - 1 && x > 0 {
                    x - 1
                } else {
                    x
                })
            } else {
                post.text@ == pre.text@ && post.screen.cursor.x == x
            }
        } else if ch == 'i' {
            out.mode is Insert && post == pre && out.redraw is Nothing && out.scroll is Nothing
                && out.action is Nothing && out.message is None
        } else if ch == 'a' {
            out.mode is Insert && out.redraw == RedrawIntent::SingleLine(pre.screen.cursor.y)
                && column_only_rel(pre, post, out, horiz_new_x(x, 1, len, true))
        } else if ch == 'o' {
            &&& out.mode is Insert
            &&& out.redraw is FullViewport
            &&& out.scroll is Nothing
            &&& out.action is Nothing
            &&& out.message is None
            &&& post.text@ == pre.text@.insert(row + 1, Seq::<char>::empty())
            &&& post.screen.cursor.y == vert_new_y(y, h, 1)
            &&& post.screen.row_offset == vert_new_off(off, y, h, 1)
            &&& post.screen.cursor.x == 0
            &&& post.screen.terminal_size == pre.screen.terminal_size
        } else if ch == 'I' {
            out.mode is Insert && out.redraw == RedrawIntent::SingleLine(pre.screen.cursor.y)
                && column_only_rel(pre, post, out, 0)
        } else if ch == 'A' {
            out.mode is Insert && out.redraw == RedrawIntent::SingleLine(pre.screen.cursor.y)
                && column_only_rel(pre, post, out, len)
        } else if ch == ':' {
            &&& out.mode matches Mode::Command(c) && c@ == Seq::<char>::empty()
            &&& quiet_rel(pre, post, out)
        } else {
            out.mode is Normal && quiet_rel(pre, post, out)
        },
        Key::Ctrl(ch) => if ch == 'l' {
            out.mode is Normal && post == pre && out.redraw is FullViewport && out.scroll
                is Nothing && out.action is Nothing && out.message is None
        } else {
            out.mode is Normal && quiet_rel(pre, post, out)
        },
        Key::MousePress(mx, my) => {
            &&& out.mode is Normal
            &&& out.redraw is Nothing
            &&& post.text@ == pre.text@
            &&& post.screen.cursor.y == click_y(my as int, h, pre.text@.len() as int, off)
            &&& post.screen.cursor.x == click_x(
                mx as int,
                pre.text@[post.screen.spec_cur_row()].len() as int,
                false,
            )
            &&& post.screen.row_offset == pre.screen.row_offset
            &&& post.screen.terminal_size == pre.screen.terminal_size
            &&& out.scroll is Nothing
            &&& out.action is Nothing
            &&& out.message is None
        },
        _ => out.mode is Normal && quiet_rel(pre, post, out),
    }
}

/// Interprets one input event in normal mode. The exact effect of every
/// key is given by `normal_step_rel`; the step keeps the state well
/// formed for the mode it hands back.
pub fn step_normal(key: Key, buf: &mut Buffer) -> (out: StepOutput)
    requires
        old(buf).wf(false),
    ensures
        normal_step_rel(*old(buf), key, *final(buf), out),
        final(buf).wf(mode_allows_append(out.mode)),
{
    proof {
        vstd::std_specs::vec::axiom_spec_len(&buf.text.lines);
    }
    match key {
        Key::Char(ch) => {
            if ch == 'q' {
                StepOutput {
                    mode: Mode::Normal,
                    redraw: RedrawIntent::Nothing,
                    scroll: ScrollCmd::Nothing,
                    action: Action::Quit,
                    message: None,
                }
            } else if ch == 'h' {
                buf.screen.move_horiz(&buf.text, -1, false);
                quiet_out(Mode::Normal)
            } else if ch == 'j' {
                let row = buf.screen.cur_row();
                if row + 1 < buf.text.line_count() {
                    let scrolled = buf.screen.move_vert(&buf.text, 1);
                    match scrolled {
                        Some(line) => StepOutput {
                            mode: Mode::Normal,
                            redraw: RedrawIntent::SingleLine(line),
                            scroll: ScrollCmd::Up,
                            action: Action::Nothing,
                            message: None,
                        },
                        None => quiet_out(Mode::Normal),
                    }
                } else {
                    quiet_out(Mode::Normal)
                }
            } else if ch == 'k' {
                let row = buf.screen.cur_row();
                if row >= 1 {
                    let scrolled = buf.screen.move_vert(&buf.text, -1);
                    match scrolled {
                        Some(line) => StepOutput {
                            mode: Mode::Normal,
                            redraw: RedrawIntent::SingleLine(line),
                            scroll: ScrollCmd::Down,
                            action: Action::Nothing,
                            message: None,
                        },
                        None => quiet_out(Mode::Normal),
                    }
                } else {
                    quiet_out(Mode::Normal)
                }
            } else if ch == 'l' {
                buf.screen.move_horiz(&buf.text, 1, false);
                quiet_out(Mode::Normal)
            } else if ch == '0' {
                buf.screen.cursor.x = 0;
                quiet_out(Mode::Normal)
            } else if ch == '$' {
                let row = buf.screen.cur_row();
                let len = buf.text.line_len(row);
                buf.screen.cursor.x = if len == 0 {
                    0
                } else {
                    len - 1
                };
                quiet_out(Mode::Normal)
            } else if ch == 'w' {
                buf.screen.move_word(&buf.text);
                quiet_out(Mode::Normal)
            } else if ch == 'x' {
                let row = buf.screen.cur_row();
                let len = buf.text.line_len(row);
                if len >= 1 {
                    buf.text.delete_char(row, buf.screen.cursor.x);
                    let new_len = buf.text.line_len(row);
                    if buf.screen.cursor.x >= new_len && buf.screen.cursor.x > 0 {
                        buf.screen.cursor.x = buf.screen.cursor.x - 1;
                    }
                }
                StepOutput {
                    mode: Mode::Normal,
                    redraw: RedrawIntent::SingleLine(buf.screen.cursor.y),
                    scroll: ScrollCmd::Nothing,
                    action: Action::Nothing,
                    message: None,
                }
            } else if ch == 'i' {
                quiet_out(Mode::Insert)
            } else if ch == 'a' {
                buf.screen.move_horiz(&buf.text, 1, true);
                StepOutput {
                    mode: Mode::Insert,
                    redraw: RedrawIntent::SingleLine(buf.screen.cursor.y),
                    scroll: ScrollCmd::Nothing,
                    action: Action::Nothing,
                    message: None,
                }
            } else if ch == 'o' {
                let row = buf.screen.cur_row();
                buf.text.insert_blank_line(row + 1);
                let _scrolled = buf.screen.move_vert(&buf.text, 1);
                StepOutput {
                    mode: Mode::Insert,
                    redraw: RedrawIntent::FullViewport,
                    scroll: ScrollCmd::Nothing,
                    action: Action::Nothing,
                    message: None,
                }
            } else if ch == 'I' {
                buf.screen.cursor.x = 0;
                StepOutput {
                    mode: Mode::Insert,
                    redraw: RedrawIntent::SingleLine(buf.screen.cursor.y),
                    scroll: ScrollCmd::Nothing,
                    action: Action::Nothing,
                    message: None,
                }
            } else if ch == 'A' {
                let row = buf.screen.cur_row();
                let len = buf.text.line_len(row);
                buf.screen.cursor.x = len;
                StepOutput {
                    mode: Mode::Insert,
                    redraw: RedrawIntent::SingleLine(buf.screen.cursor.y),
                    scroll: ScrollCmd::Nothing,
                    action: Action::Nothing,
                    message: None,
                }
            } else if ch == ':' {
                quiet_out(Mode::Command(String::new()))
            } else {
                quiet_out(Mode::Normal)
            }
        },
        Key::Ctrl(ch) => {
            if ch == 'l' {
                StepOutput {
                    mode: Mode::Normal,
                    redraw: RedrawIntent::FullViewport,
                    scroll: ScrollCmd::Nothing,
                    action: Action::Nothing,
                    message: None,
                }
            } else {
                quiet_out(Mode::Normal)
            }
        },
        Key::MousePress(mx, my) => {
            buf.screen.set_cursor_click(&buf.text, mx, my, false);
            quiet_out(Mode::Normal)
        },
        _ => quiet_out(Mode::Normal),
    }
}

/// What an insert-mode step does for each key, relating the state before
/// (`pre`) to the state after (`post`) and the step's output `out`.
pub open spec fn insert_step_rel(pre: Buffer, key: Key, post: Buffer, out: StepOutput) -> bool {
    let row = pre.screen.spec_cur_row();
    let line = pre.text@[row];
    let len = line.len() as int;
    let y = pre.screen.cursor.y as int;
    let x = pre.screen.cursor.x as int;
    let off = pre.screen.row_offset as int;
    let h = pre.screen.terminal_size.1 as int;
    match key {
        Key::Esc => {
            out.mode is Normal && out.redraw is Nothing && column_only_rel(
                pre,
                post,
                out,
                horiz_new_x(x, 0, len, false),
            )
        },
        Key::Char(ch) => if ch == '\n' {
            &&& out.mode is Insert
            &&& out.redraw is FullViewport
            &&& out.scroll is Nothing
            &&& out.action is Nothing
            &&& out.message is None
            &&& post.text@ == pre.text@.update(row, line.subrange(0, x)).insert(
                row + 1,
                line.subrange(x, len),
            )
            &&& post.screen.cursor.y == vert_new_y(y, h, 1)
            &&& post.screen.row_offset == vert_new_off(off, y, h, 1)
            &&& post.screen.cursor.x == 0
            &&& post.screen.terminal_size == pre.screen.terminal_size
        } else {
            &&& out.mode is Insert
            &&& out.redraw == RedrawIntent::SingleLine(pre.screen.cursor.y)
            &&& out.scroll is Nothing
            &&& out.action is Nothing
            &&& out.message is None
            &&& post.text@ == pre.text@.update(row, line.insert(x, ch))
            &&& post.screen.cursor.x == x + 1
            &&& post.screen.cursor.y == pre.screen.cursor.y
            &&& post.screen.row_offset == pre.screen.row_offset
            &&& post.screen.terminal_size == pre.screen.terminal_size
        },
        Key::Ctrl(ch) => if ch == 'u' {
            &&& out.mode is Insert
            &&& out.redraw == RedrawIntent::SingleLine(pre.screen.cursor.y)
            &&& out.scroll is Nothing
            &&& out.action is Nothing
            &&& out.message is None
            &&& post.text@ == pre.text@.update(row, line.subrange(x, len))
            &&& post.screen.cursor.x == 0
            &&& post.screen.cursor.y == pre.screen.cursor.y
            &&& post.screen.row_offset == pre.screen.row_offset
            &&& post.screen.terminal_size == pre.screen.terminal_size
        } else if ch == 'a' {
            out.mode is Insert && out.redraw is Nothing && column_only_rel(pre, post, out, 0)
        } else if ch == 'e' {
            out.mode is Insert && out.redraw is Nothing && column_only_rel(pre, post, out, len)
        } else if ch == 'h' {
            out.mode is Insert && backspace_rel(pre, post, out)
        } else {
            out.mode is Insert && quiet_rel(pre, post, out)
        },
        Key::Backspace => out.mode is Insert && backspace_rel(pre, post, out),
        Key::MousePress(mx, my) => {
            &&& out.mode is Insert
            &&& out.redraw is Nothing
            &&& post.text@ == pre.text@
            &&& post.screen.cursor.y == click_y(my as int, h, pre.text@.len() as int, off)
            &&& post.screen.cursor.x == click_x(
                mx as int,
                pre.text@[post.screen.spec_cur_row()].len() as int,
                true,
            )
            &&& post.screen.row_offset == pre.screen.row_offset
            &&& post.screen.terminal_size == pre.screen.terminal_size
            &&& out.scroll is Nothing
            &&& out.action is Nothing
            &&& out.message is None
        },
        _ => out.mode is Insert && quiet_rel(pre, post, out),
    }
}

/// What deleting backwards does in insert mode: at column 0 nothing
/// happens; otherwise the character left of the cursor goes and the
/// cursor follows it.
pub open spec fn backspace_rel(pre: Buffer, post: Buffer, out: StepOutput) -> bool {
    let row = pre.screen.spec_cur_row();
    let line = pre.text@[row];
    let x = pre.screen.cursor.x as int;
    if x >= 1 {
        &&& out.redraw == RedrawIntent::SingleLine(pre.screen.cursor.y)
        &&& out.scroll is Nothing
        &&& out.action is Nothing
        &&& out.message is None
        &&& post.text@ == pre.text@.update(row, line.remove(x - 1))
        &&& post.screen.cursor.x == x - 1
        &&& post.screen.cursor.y == pre.screen.cursor.y
        &&& post.screen.row_offset == pre.screen.row_offset
        &&& post.screen.terminal_size == pre.screen.terminal_size
    } else {
        quiet_rel(pre, post, out)
    }
}

/// Interprets one input event in insert mode. The exact effect of every
/// key is given by `insert_step_rel`; the step keeps the state well
/// formed for the mode it hands back.
pub fn step_insert(key: Key, buf: &mut Buffer) -> (out: StepOutput)
    requires
        old(buf).wf(true),
    ensures
        insert_step_rel(*old(buf), key, *final(buf), out),
        final(buf).wf(mode_allows_append(out.mode)),
{
    proof {
        vstd::std_specs::vec::axiom_spec_len(&buf.text.lines);
    }
    match key {
        Key::Esc => {
            buf.screen.move_horiz(&buf.text, 0, false);
            quiet_out(Mode::Normal)
        },
        Key::Char(ch) => {
            if ch == '\n' {
                let row = buf.screen.cur_row();
                buf.text.split_line(row, buf.screen.cursor.x);
                let _scrolled = buf.screen.move_vert(&buf.text, 1);
                buf.screen.cursor.x = 0;
                StepOutput {
                    mode: Mode::Insert,
                    redraw: RedrawIntent::FullViewport,
                    scroll: ScrollCmd::Nothing,
                    action: Action::Nothing,
                    message: None,
                }
            } else {
                let row = buf.screen.cur_row();
                buf.text.insert_char(row, buf.screen.cursor.x, ch);
                let new_len = buf.text.line_len(row);
                proof {
                    assert(buf.screen.cursor.x < new_len);
                }
                buf.screen.cursor.x = buf.screen.cursor.x + 1;
                StepOutput {
                    mode: Mode::Insert,
                    redraw: RedrawIntent::SingleLine(buf.screen.cursor.y),
                    scroll: ScrollCmd::Nothing,
                    action: Action::Nothing,
                    message: None,
                }
            }
        },
        Key::Ctrl(ch) => {
            if ch == 'u' {
                let row = buf.screen.cur_row();
                buf.text.truncate_from(row, buf.screen.cursor.x);
                buf.screen.cursor.x = 0;
                StepOutput {
                    mode: Mode::Insert,
                    redraw: RedrawIntent::SingleLine(buf.screen.cursor.y),
                    scroll: ScrollCmd::Nothing,
                    action: Action::Nothing,
                    message: None,
                }
            } else if ch == 'a' {
                buf.screen.cursor.x = 0;
                quiet_out(Mode::Insert)
            } else if ch == 'e' {
                let row = buf.screen.cur_row();
                let len = buf.text.line_len(row);
                buf.screen.cursor.x = len;
                quiet_out(Mode::Insert)
            } else if ch == 'h' {
                backspace_step(buf)
            } else {
                quiet_out(Mode::Insert)
            }
        },
        Key::Backspace => backspace_step(buf),
        Key::MousePress(mx, my) => {
            buf.screen.set_cursor_click(&buf.text, mx, my, true);
            quiet_out(Mode::Insert)
        },
        _ => quiet_out(Mode::Insert),
    }
}

fn backspace_step(buf: &mut Buffer) -> (out: StepOutput)
    requires
        old(buf).wf(true),
    ensures
        out.mode is Insert,
        backspace_rel(*old(buf), *final(buf), out),
        final(buf).wf(true),
{
    proof {
        vstd::std_specs::vec::axiom_spec_len(&buf.text.lines);
    }
    if buf.screen.cursor.x >= 1 {
        let row = buf.screen.cur_row();
        buf.text.delete_char(row, buf.screen.cursor.x - 1);
        buf.screen.cursor.x = buf.screen.cursor.x - 1;
        StepOutput {
            mode: Mode::Insert,
            redraw: RedrawIntent::SingleLine(buf.screen.cursor.y),
            scroll: ScrollCmd::Nothing,
            action: Action::Nothing,
            message: None,
        }
    } else {
        quiet_out(Mode::Insert)
    }
}

/// What a command-mode step does for each key. `cmd` is the command-line
/// text typed so far; the buffer itself is never touched in this mode.
pub open spec fn command_step_rel(
    cmd: Seq<char>,
    key: Key,
    pre: Buffer,
    post: Buffer,
    out: StepOutput,
) -> bool {
    match key {
        Key::Esc => out.mode is Normal && quiet_rel(pre, post, out),
        Key::Char(ch) => if ch == '\n' {
            if cmd == "q"@ {
                out.mode is Normal && out.action is Quit && post == pre && out.redraw is Nothing
                    && out.scroll is Nothing && out.message is None
            } else if cmd == "w"@ {
                out.mode is Normal && out.action is Save && post == pre && out.redraw is Nothing
                    && out.scroll is Nothing && out.message is None
            } else if cmd.len() == 0 {
                out.mode is Normal && quiet_rel(pre, post, out)
            } else {
                &&& out.mode matches Mode::Command(c) && c@ == Seq::<char>::empty()
                &&& post == pre
                &&& out.redraw is Nothing
                &&& out.scroll is Nothing
                &&& out.action is Nothing
                &&& out.message matches Some(m) && m@ == unknown_command_text()
            }
        } else {
            &&& out.mode matches Mode::Command(c) && c@ == cmd.push(ch)
            &&& quiet_rel(pre, post, out)
        },
        Key::Backspace => if cmd.len() > 0 {
            &&& out.mode matches Mode::Command(c) && c@ == cmd.drop_last()
            &&& quiet_rel(pre, post, out)
        } else {
            out.mode is Normal && quiet_rel(pre, post, out)
        },
        Key::Ctrl(ch) => if ch == 'c' {
            out.mode is Normal && quiet_rel(pre, post, out)
        } else {
            (out.mode matches Mode::Command(c) && c@ == cmd) && quiet_rel(pre, post, out)
        },
        _ => (out.mode matches Mode::Command(c) && c@ == cmd) && quiet_rel(pre, post, out),
    }
}

/// Interprets one input event in command mode, where `cmd` holds the
/// command-line text typed so far. On Enter, `"w"` asks the caller to
/// save, `"q"` to quit, the empty command does nothing, and any other
/// text yields the unknown-command message.
pub fn step_command(cmd: String, key: Key, buf: &mut Buffer) -> (out: StepOutput)
    requires
        old(buf).wf(false),
    ensures
        command_step_rel(cmd@, key, *old(buf), *final(buf), out),
        final(buf).wf(mode_allows_append(out.mode)),
{
    match key {
        Key::Esc => quiet_out(Mode::Normal),
        Key::Char(ch) => {
            if ch == '\n' {
                if cmd == "q".to_owned() {
                    StepOutput {
                        mode: Mode::Normal,
                        redraw: RedrawIntent::Nothing,
                        scroll: ScrollCmd::Nothing,
                        action: Action::Quit,
                        message: None,
                    }
                } else if cmd == "w".to_owned() {
                    StepOutput {
                        mode: Mode::Normal,
                        redraw: RedrawIntent::Nothing,
                        scroll: ScrollCmd::Nothing,
                        action: Action::Save,
                        message: None,
                    }
                } else if cmd.as_str().unicode_len() == 0 {
                    quiet_out(Mode::Normal)
                } else {
                    StepOutput {
                        mode: Mode::Command(String::new()),
                        redraw: RedrawIntent::Nothing,
                        scroll: ScrollCmd::Nothing,
                        action: Action::Nothing,
                        message: Some(unknown_command_message()),
                    }
                }
            } else {
                let mut extended = cmd;
                push_char(&mut extended, ch);
                quiet_out(Mode::Command(extended))
            }
        },
        Key::Backspace => {
            let mut shortened = cmd;
            let popped = pop_char(&mut shortened);
            match popped {
                Some(_) => quiet_out(Mode::Command(shortened)),
                None => quiet_out(Mode::Normal),
            }
        },
        Key::Ctrl(ch) => {
            if ch == 'c' {
                quiet_out(Mode::Normal)
            } else {
                quiet_out(Mode::Command(cmd))
            }
        },
        _ => quiet_out(Mode::Command(cmd)),
    }
}

/// Interprets one input event in the current mode: the modal state
/// machine as a pure function from state and event to the next state and
/// the effects the caller must carry out. The per-mode relations give the
/// exact effect of every key; a well-formed state stays well formed for
/// the mode that comes back.
pub fn step(mode: Mode, key: Key, buf: &mut Buffer) -> (out: StepOutput)
    requires
        old(buf).wf(mode_allows_append(mode)),
    ensures
        mode is Normal ==> normal_step_rel(*old(buf), key, *final(buf), out),
        mode is Insert ==> insert_step_rel(*old(buf), key, *final(buf), out),
        mode matches Mode::Command(cmd) ==> command_step_rel(
            cmd@,
            key,
            *old(buf),
            *final(buf),
            out,
        ),
        final(buf).wf(mode_allows_append(out.mode)),
{
    match mode {
        Mode::Normal => step_normal(key, buf),
        Mode::Insert => step_insert(key, buf),
        Mode::Command(cmd) => step_command(cmd, key, buf),
    }
}

} // verus!
