use vstd::prelude::*;
use crate::text::TextBuffer;

verus! {

/// A cursor position: `x` is a column, `y` a viewport-relative row.
#[derive(Clone, Copy, PartialEq, Eq, Structural, Debug)]
pub struct Cursor {
    pub x: usize,
    pub y: usize,
}

/// The viewport: cursor position, vertical scroll offset and terminal
/// dimensions `(width, height)`. `row_offset` is the logical buffer row
/// shown at viewport row 0, so the logical row under the cursor is
/// `cursor.y + row_offset`. The bottom terminal row is reserved for the
/// status line, so the cursor stays within rows `0 ..= height - 2`.
#[derive(Clone, Copy, PartialEq, Eq, Debug)]
pub struct ScreenState {
    pub cursor: Cursor,
    pub row_offset: usize,
    pub terminal_size: (u16, u16),
}

/// The last column a normal-mode cursor may rest on in a line of length
/// `len`: the final character, or column 0 on an empty line.
pub open spec fn last_col(len: int) -> int {
    if len == 0 {
        0
    } else {
        len - 1
    }
}

/// The rightmost column the cursor may reach: `len` in insert mode (one
/// past the last character, to append), `last_col(len)` otherwise.
pub open spec fn horiz_bound(len: int, insert: bool) -> int {
    if insert {
        len
    } else {
        last_col(len)
    }
}

/// The column after a horizontal move by `d` from column `x` on a line of
/// length `len`: a negative move saturates at 0, a non-negative one at the
/// mode's right bound (which also pulls back a column already past it).
pub open spec fn horiz_new_x(x: int, d: int, len: int, insert: bool) -> int {
    if d < 0 {
        if x + d >= 0 {
            x + d
        } else {
            0
        }
    } else {
        let b = horiz_bound(len, insert);
        if x >= b {
            b
        } else if x + d <= b {
            x + d
        } else {
            b
        }
    }
}

/// A downward move by `m` from viewport row `y` crosses the bottom of the
/// content area (the last terminal row is the status line), so the
/// viewport must scroll.
pub open spec fn vert_scrolls_down(y: int, h: int, m: int) -> bool {
    m > 0 && y + m > h - 2
}

/// An upward move by `m` from viewport row `y` crosses the top of the
/// viewport, so the viewport must scroll.
pub open spec fn vert_scrolls_up(y: int, m: int) -> bool {
    m < 0 && y + m < 0
}

/// The viewport row of the cursor after a vertical move by `m`: unchanged
/// when the viewport scrolls (the content shifts instead), shifted by `m`
/// otherwise.
pub open spec fn vert_new_y(y: int, h: int, m: int) -> int {
    if m > 0 {
        if vert_scrolls_down(y, h, m) {
            y
        } else {
            y + m
        }
    } else if m < 0 {
        if vert_scrolls_up(y, m) {
            y
        } else {
            y + m
        }
    } else {
        y
    }
}

/// The scroll offset after a vertical move by `m`: shifted by `m` when the
/// move scrolls, clamped at 0 on an upward scroll past the first line,
/// unchanged otherwise.
pub open spec fn vert_new_off(off: int, y: int, h: int, m: int) -> int {
    if vert_scrolls_down(y, h, m) {
        off + m
    } else if vert_scrolls_up(y, m) {
        if off + m >= 0 {
            off + m
        } else {
            0
        }
    } else {
        off
    }
}

/// The column after the post-move clamp: the cursor never rests past the
/// last character of the destination line.
pub open spec fn vert_clamped_x(x: int, len: int) -> int {
    if x > last_col(len) {
        last_col(len)
    } else {
        x
    }
}

impl ScreenState {
    /// A fresh viewport at the top-left corner of a terminal of the given
    /// size.
    pub fn new(terminal_size: (u16, u16)) -> (s: ScreenState)
        ensures
            s.cursor.x == 0,
            s.cursor.y == 0,
            s.row_offset == 0,
            s.terminal_size == terminal_size,
    {
        ScreenState { cursor: Cursor { x: 0, y: 0 }, row_offset: 0, terminal_size }
    }

    /// The logical buffer row under the cursor.
    pub open spec fn spec_cur_row(&self) -> int {
        self.cursor.y + self.row_offset
    }

    /// The viewport is well formed against `text` when the cursor sits on a
    /// valid buffer row, within the content area of the terminal (whose
    /// bottom row is the status line), and its column is within the mode's
    /// right bound of the current line.
    pub open spec fn wf(&self, text: Seq<Seq<char>>, insert: bool) -> bool {
        &&& self.spec_cur_row() < text.len()
        &&& self.cursor.y + 2 <= self.terminal_size.1
        &&& self.cursor.x <= horiz_bound(text[self.spec_cur_row()].len() as int, insert)
    }

    /// The logical buffer row under the cursor.
    pub fn cur_row(&self) -> (r: usize)
        requires
            self.spec_cur_row() < usize::MAX,
        ensures
            r == self.spec_cur_row(),
    {
        self.cursor.y + self.row_offset
    }

    /// Moves the cursor vertically by `movement` logical rows, scrolling
    /// the viewport when the move would leave the content area, then clamps
    /// the column onto the destination line. Returns the viewport row that
    /// must be repainted because scrolling shifted the content, or `None`
    /// when no scroll occurred.
    pub fn move_vert(&mut self, text: &TextBuffer, movement: i32) -> (line_to_rewrite: Option<
        usize,
    >)
        requires
            old(self).cursor.y + 2 <= old(self).terminal_size.1,
            vert_new_y(old(self).cursor.y as int, old(self).terminal_size.1 as int, movement as int)
                + vert_new_off(
                old(self).row_offset as int,
                old(self).cursor.y as int,
                old(self).terminal_size.1 as int,
                movement as int,
            ) < text@.len(),
        ensures
            final(self).cursor.y == vert_new_y(
                old(self).cursor.y as int,
                old(self).terminal_size.1 as int,
                movement as int,
            ),
            final(self).row_offset == vert_new_off(
                old(self).row_offset as int,
                old(self).cursor.y as int,
                old(self).terminal_size.1 as int,
                movement as int,
            ),
            final(self).cursor.x == vert_clamped_x(
                old(self).cursor.x as int,
                text@[final(self).spec_cur_row()].len() as int,
            ),
            final(self).terminal_size == old(self).terminal_size,
            line_to_rewrite == if vert_scrolls_down(
                old(self).cursor.y as int,
                old(self).terminal_size.1 as int,
                movement as int,
            ) || vert_scrolls_up(old(self).cursor.y as int, movement as int) {
                Some(old(self).cursor.y)
            } else {
                None::<usize>
            },
    {
        proof {
            vstd::std_specs::vec::axiom_spec_len(&text.lines);
        }
        let h = self.terminal_size.1;
        let mut line_to_rewrite: Option<usize> = None;
        if movement > 0 {
            let m = movement as usize;
            if self.cursor.y as i64 + movement as i64 > h as i64 - 2 {
                self.row_offset = self.row_offset + m;
                line_to_rewrite = Some(self.cursor.y);
            } else {
                self.cursor.y = self.cursor.y + m;
            }
        } else if movement < 0 {
            let d = (-(movement as i64)) as usize;
            if (self.cursor.y as i64) + (movement as i64) < 0 {
                if self.row_offset >= d {
                    self.row_offset = self.row_offset - d;
                } else {
                    self.row_offset = 0;
                }
                line_to_rewrite = Some(self.cursor.y);
            } else {
                self.cursor.y = self.cursor.y - d;
            }
        }
        let row = self.cursor.y + self.row_offset;
        let len = text.line_len(row);
        let lc = if len == 0 {
            0
        } else {
            len - 1
        };
        if self.cursor.x > lc {
            self.cursor.x = lc;
        }
        line_to_rewrite
    }

    /// Moves the cursor horizontally by `movement` columns within the
    /// current line: saturating at column 0 on the left and at the mode's
    /// right bound on the right (`len` in insert mode, the last character
    /// otherwise). A column already past the bound is pulled back onto it.
    pub fn move_horiz(&mut self, text: &TextBuffer, movement: i32, insert: bool)
        requires
            old(self).spec_cur_row() < text@.len(),
        ensures
            final(self).cursor.x == horiz_new_x(
                old(self).cursor.x as int,
                movement as int,
                text@[old(self).spec_cur_row()].len() as int,
                insert,
            ),
            final(self).cursor.y == old(self).cursor.y,
            final(self).row_offset == old(self).row_offset,
            final(self).terminal_size == old(self).terminal_size,
    {
        proof {
            vstd::std_specs::vec::axiom_spec_len(&text.lines);
        }
        let row = self.cursor.y + self.row_offset;
        let len = text.line_len(row);
        if movement < 0 {
            let d = (-(movement as i64)) as usize;
            if self.cursor.x >= d {
                self.cursor.x = self.cursor.x - d;
            } else {
                self.cursor.x = 0;
            }
        } else {
            let d = movement as usize;
            let b = if insert {
                len
            } else if len == 0 {
                0
            } else {
                len - 1
            };
            if self.cursor.x >= b {
                self.cursor.x = b;
            } else if d <= b - self.cursor.x {
                self.cursor.x = self.cursor.x + d;
            } else {
                self.cursor.x = b;
            }
        }
    }
}

/// A word-separating character: a space or a tab.
pub open spec fn is_blank(c: char) -> bool {
    c == ' ' || c == '\t'
}

/// The first index at or after `i` that is not inside the current run of
/// non-blank characters: scanning stops at a blank or at the end of the
/// line.
pub open spec fn skip_word(line: Seq<char>, i: int) -> int
    decreases line.len() - i when i <= line.len()
{
    if i < line.len() && !is_blank(line[i]) {
        skip_word(line, i + 1)
    } else {
        i
    }
}

/// The first index at or after `i` that is not a blank: scanning stops at
/// a non-blank character or at the end of the line.
pub open spec fn skip_blanks(line: Seq<char>, i: int) -> int
    decreases line.len() - i when i <= line.len()
{
    if i < line.len() && is_blank(line[i]) {
        skip_blanks(line, i + 1)
    } else {
        i
    }
}

/// Where a forward word motion from column `x` lands: past the current run
/// of non-blank characters and the blanks after it, onto the start of the
/// next word — or onto the last column of the line when no word follows.
pub open spec fn word_target(line: Seq<char>, x: int) -> int {
    let j = skip_blanks(line, skip_word(line, x));
    if j >= line.len() {
        last_col(line.len() as int)
    } else {
        j
    }
}

/// Whether `c` separates words; the executable mirror of `is_blank`.
pub fn is_blank_char(c: char) -> (b: bool)
    ensures
        b == is_blank(c),
{
    c == ' ' || c == '\t'
}

/// The column selected by a mouse press at 1-based terminal column `mx` on
/// a line of length `len`: translated to 0-based and clamped to the mode's
/// right bound.
pub open spec fn click_x(mx: int, len: int, insert: bool) -> int {
    let x0 = if mx >= 1 {
        mx - 1
    } else {
        0
    };
    if x0 <= horiz_bound(len, insert) {
        x0
    } else {
        horiz_bound(len, insert)
    }
}

/// The viewport row selected by a mouse press at 1-based terminal row
/// `my`: translated to 0-based and clamped both to the content area of the
/// terminal and to the last buffer row visible under scroll offset `off`.
pub open spec fn click_y(my: int, h: int, nlines: int, off: int) -> int {
    let y0 = if my >= 1 {
        my - 1
    } else {
        0
    };
    let max_row = if h - 2 <= nlines - 1 - off {
        h - 2
    } else {
        nlines - 1 - off
    };
    if y0 <= max_row {
        y0
    } else {
        max_row
    }
}

impl ScreenState {
    /// Moves the cursor forward to the start of the next
    /// whitespace-delimited word within the current line — or to the last
    /// column when no word follows. Never crosses a line boundary.
    pub fn move_word(&mut self, text: &TextBuffer)
        requires
            old(self).spec_cur_row() < text@.len(),
            old(self).cursor.x <= text@[old(self).spec_cur_row()].len(),
        ensures
            final(self).cursor.x == word_target(
                text@[old(self).spec_cur_row()],
                old(self).cursor.x as int,
            ),
            final(self).cursor.y == old(self).cursor.y,
            final(self).row_offset == old(self).row_offset,
            final(self).terminal_size == old(self).terminal_size,
    {
        proof {
            vstd::std_specs::vec::axiom_spec_len(&text.lines);
        }
        let row = self.cursor.y + self.row_offset;
        let len = text.line_len(row);
        let ghost line = text@[row as int];
        let x0 = self.cursor.x;
        let mut i = x0;
        while i < len && !is_blank_char(text.char_at(row, i))
            invariant
                x0 <= i <= len,
                len == line.len(),
                row < text@.len(),
                line == text@[row as int],
                skip_word(line, x0 as int) == skip_word(line, i as int),
            decreases len - i,
        {
            i = i + 1;
        }
        proof {
            assert(skip_word(line, x0 as int) == i);
        }
        while i < len && is_blank_char(text.char_at(row, i))
            invariant
                i <= len,
                len == line.len(),
                row < text@.len(),
                line == text@[row as int],
                skip_word(line, x0 as int) == i || skip_blanks(line, skip_word(line, x0 as int))
                    == skip_blanks(line, i as int),
            decreases len - i,
        {
            i = i + 1;
        }
        proof {
            assert(skip_blanks(line, skip_word(line, x0 as int)) == i);
        }
        if i >= len {
            self.cursor.x = if len == 0 {
                0
            } else {
                len - 1
            };
        } else {
            self.cursor.x = i;
        }
    }

    /// Places the cursor at a mouse press given in 1-based terminal
    /// coordinates, clamping it into the visible, valid region of the
    /// buffer. The scroll offset does not change.
    pub fn set_cursor_click(&mut self, text: &TextBuffer, mx: u16, my: u16, insert: bool)
        requires
            old(self).row_offset < text@.len(),
            old(self).terminal_size.1 >= 2,
        ensures
            final(self).cursor.y == click_y(
                my as int,
                old(self).terminal_size.1 as int,
                text@.len() as int,
                old(self).row_offset as int,
            ),
            final(self).cursor.x == click_x(
                mx as int,
                text@[final(self).spec_cur_row()].len() as int,
                insert,
            ),
            final(self).row_offset == old(self).row_offset,
            final(self).terminal_size == old(self).terminal_size,
    {
        proof {
            vstd::std_specs::vec::axiom_spec_len(&text.lines);
        }
        let h = self.terminal_size.1 as usize;
        let visible_last = text.line_count() - 1 - self.row_offset;
        let max_row = if h - 2 <= visible_last {
            h - 2
        } else {
            visible_last
        };
        let y0 = if my >= 1 {
            (my - 1) as usize
        } else {
            0
        };
        self.cursor.y = if y0 <= max_row {
            y0
        } else {
            max_row
        };
        let row = self.cursor.y + self.row_offset;
        let len = text.line_len(row);
        let b = if insert {
            len
        } else if len == 0 {
            0
        } else {
            len - 1
        };
        let x0 = if mx >= 1 {
            (mx - 1) as usize
        } else {
            0
        };
        self.cursor.x = if x0 <= b {
            x0
        } else {
            b
        };
    }
}

/// Law: a horizontal move by zero never changes the cursor column, as long
/// as the column was within the mode's right bound to begin with.
pub proof fn lemma_move_horiz_zero(x: int, len: int, insert: bool)
    requires
        0 <= x <= horiz_bound(len, insert),
    ensures
        horiz_new_x(x, 0, len, insert) == x,
{
}

/// Law: a vertical move by zero scrolls nothing — the viewport row, the
/// scroll offset and (for a column within the line) the cursor column all
/// stay as they were, and no repaint row is reported.
pub proof fn lemma_move_vert_zero(x: int, y: int, off: int, h: int, len: int)
    requires
        0 <= x <= last_col(len),
    ensures
        vert_new_y(y, h, 0) == y,
        vert_new_off(off, y, h, 0) == off,
        vert_clamped_x(x, len) == x,
        !vert_scrolls_down(y, h, 0),
        !vert_scrolls_up(y, 0),
{
}

/// Law: a large enough rightward move lands exactly on the mode's right
/// bound — column `len` in insert mode, `len - 1` in normal mode on a
/// non-empty line, and column 0 on an empty line in both modes.
pub proof fn lemma_move_horiz_saturates(x: int, d: int, len: int, insert: bool)
    requires
        0 <= x,
        0 <= len,
        d >= 0,
        x + d >= horiz_bound(len, insert),
    ensures
        horiz_new_x(x, d, len, insert) == horiz_bound(len, insert),
        insert ==> horiz_new_x(x, d, len, insert) == len,
        !insert && len >= 1 ==> horiz_new_x(x, d, len, insert) == len - 1,
        len == 0 ==> horiz_new_x(x, d, len, insert) == 0,
{
}

} // verus!
