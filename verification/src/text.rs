use vstd::prelude::*;
use crate::strutil::push_line;

verus! {

/// True when `s` ends with a newline character.
pub open spec fn ends_with_newline(s: Seq<char>) -> bool {
    s.len() > 0 && s.last() == '\n'
}

/// `s` with one trailing newline removed, if it has one.
pub open spec fn strip_trailing_newline(s: Seq<char>) -> Seq<char> {
    if ends_with_newline(s) {
        s.drop_last()
    } else {
        s
    }
}

/// `s` split on `'\n'`: always at least one piece, so empty text splits
/// into one empty line.
pub open spec fn split_lines(s: Seq<char>) -> Seq<Seq<char>>
    decreases s.len(),
{
    if s.len() == 0 {
        seq![Seq::<char>::empty()]
    } else if s[0] == '\n' {
        seq![Seq::<char>::empty()] + split_lines(s.drop_first())
    } else {
        let rest = split_lines(s.drop_first());
        seq![seq![s[0]] + rest[0]] + rest.drop_first()
    }
}

/// `lines` joined back into one text with `'\n'` between neighbours.
pub open spec fn joined_lines(lines: Seq<Seq<char>>) -> Seq<char>
    decreases lines.len(),
{
    if lines.len() == 0 {
        Seq::empty()
    } else if lines.len() == 1 {
        lines[0]
    } else {
        lines[0] + seq!['\n'] + joined_lines(lines.drop_first())
    }
}

/// `ls` with its first piece extended on the left by `p`.
spec fn prepend_first(p: Seq<char>, ls: Seq<Seq<char>>) -> Seq<Seq<char>>
    recommends
        ls.len() >= 1,
{
    seq![p + ls[0]] + ls.drop_first()
}

proof fn lemma_split_lines_nonempty(s: Seq<char>)
    ensures
        split_lines(s).len() >= 1,
    decreases s.len(),
{
    if s.len() > 0 {
        lemma_split_lines_nonempty(s.drop_first());
    }
}

proof fn lemma_joined_lines_push(ls: Seq<Seq<char>>, p: Seq<char>)
    ensures
        ls.len() == 0 ==> joined_lines(ls.push(p)) == p,
        ls.len() > 0 ==> joined_lines(ls.push(p)) == joined_lines(ls) + seq!['\n'] + p,
    decreases ls.len(),
{
    if ls.len() == 0 {
        assert(ls.push(p) =~= seq![p]);
    } else if ls.len() == 1 {
        assert(ls.push(p).drop_first() =~= seq![p]);
        assert(joined_lines(seq![p]) == p);
        assert(joined_lines(ls.push(p)) == ls[0] + seq!['\n'] + p);
    } else {
        lemma_joined_lines_push(ls.drop_first(), p);
        assert(ls.push(p).drop_first() =~= ls.drop_first().push(p));
        assert(joined_lines(ls.push(p)) == ls[0] + seq!['\n'] + joined_lines(
            ls.drop_first().push(p),
        ));
        assert((ls[0] + seq!['\n'] + (joined_lines(ls.drop_first()) + seq!['\n'] + p)) =~= (ls[0]
            + seq!['\n'] + joined_lines(ls.drop_first())) + seq!['\n'] + p);
    }
}

proof fn lemma_join_split(s: Seq<char>)
    ensures
        joined_lines(split_lines(s)) == s,
    decreases s.len(),
{
    lemma_split_lines_nonempty(s);
    if s.len() == 0 {
        assert(joined_lines(split_lines(s)) =~= s);
    } else if s[0] == '\n' {
        lemma_join_split(s.drop_first());
        lemma_split_lines_nonempty(s.drop_first());
        let ls = seq![Seq::<char>::empty()] + split_lines(s.drop_first());
        assert(ls.drop_first() =~= split_lines(s.drop_first()));
        assert(joined_lines(ls) == ls[0] + seq!['\n'] + joined_lines(split_lines(s.drop_first())));
        assert(ls[0] + seq!['\n'] + s.drop_first() =~= s);
    } else {
        lemma_join_split(s.drop_first());
        lemma_split_lines_nonempty(s.drop_first());
        let rest = split_lines(s.drop_first());
        let ls = seq![seq![s[0]] + rest[0]] + rest.drop_first();
        if rest.len() == 1 {
            assert(ls.len() == 1);
            assert(joined_lines(rest) == rest[0]);
            assert(joined_lines(ls) == seq![s[0]] + rest[0]);
            assert(seq![s[0]] + s.drop_first() =~= s);
        } else {
            assert(ls.drop_first() =~= rest.drop_first());
            assert(joined_lines(ls) == (seq![s[0]] + rest[0]) + seq!['\n'] + joined_lines(
                rest.drop_first(),
            ));
            assert(joined_lines(rest) == rest[0] + seq!['\n'] + joined_lines(rest.drop_first()));
            assert((seq![s[0]] + rest[0]) + seq!['\n'] + joined_lines(rest.drop_first())
                =~= seq![s[0]] + (rest[0] + seq!['\n'] + joined_lines(rest.drop_first())));
            assert(seq![s[0]] + s.drop_first() =~= s);
        }
    }
}

/// Law: loading file content and saving it again without edits reproduces
/// the content byte for byte, up to trailing-newline normalisation — the
/// saved text equals the original with one trailing newline (if any)
/// dropped.
pub proof fn lemma_load_save_round_trip(content: Seq<char>)
    ensures
        joined_lines(split_lines(strip_trailing_newline(content))) == strip_trailing_newline(
            content,
        ),
{
    lemma_join_split(strip_trailing_newline(content));
}

/// The in-memory line buffer: an ordered, zero-indexed sequence of lines,
/// each line an ordered sequence of characters. A well-formed buffer always
/// holds at least one line; an empty file is represented as one empty line.
///
/// All operations are panic-free: an out-of-range row or column makes the
/// operation a no-op, and every contract says exactly when that happens.
pub struct TextBuffer {
    pub lines: Vec<Vec<char>>,
}

impl View for TextBuffer {
    type V = Seq<Seq<char>>;

    open spec fn view(&self) -> Seq<Seq<char>> {
        self.lines.deep_view()
    }
}

impl TextBuffer {
    /// A buffer is well formed when it holds at least one line.
    pub open spec fn wf(&self) -> bool {
        self@.len() >= 1
    }

    /// A buffer holding a single empty line.
    pub fn new() -> (buf: TextBuffer)
        ensures
            buf@ == seq![Seq::<char>::empty()],
            buf.wf(),
    {
        let mut lines: Vec<Vec<char>> = Vec::new();
        lines.push(Vec::new());
        let buf = TextBuffer { lines };
        proof {
            assert(buf@ =~~= seq![Seq::<char>::empty()]);
        }
        buf
    }

    /// The number of lines.
    pub fn line_count(&self) -> (n: usize)
        ensures
            n == self@.len(),
    {
        self.lines.len()
    }

    /// The length of line `row`.
    pub fn line_len(&self, row: usize) -> (n: usize)
        requires
            row < self@.len(),
        ensures
            n == self@[row as int].len(),
    {
        self.lines[row].len()
    }

    /// The character at `(row, col)`.
    pub fn char_at(&self, row: usize, col: usize) -> (c: char)
        requires
            row < self@.len(),
            col < self@[row as int].len(),
        ensures
            c == self@[row as int][col as int],
    {
        self.lines[row][col]
    }

    /// Inserts `ch` into line `row` at column `col`; a no-op when `row` is
    /// out of range or `col` lies past the end of the line. Never changes
    /// the number of lines.
    pub fn insert_char(&mut self, row: usize, col: usize, ch: char)
        ensures
            final(self)@.len() == old(self)@.len(),
            row < old(self)@.len() && col <= old(self)@[row as int].len() ==> final(self)@
                == old(self)@.update(row as int, old(self)@[row as int].insert(col as int, ch)),
            !(row < old(self)@.len() && col <= old(self)@[row as int].len()) ==> final(self)@
                == old(self)@,
    {
        if row < self.lines.len() && col <= self.lines[row].len() {
            self.lines[row].insert(col, ch);
            proof {
                assert(self@ =~~= old(self)@.update(
                    row as int,
                    old(self)@[row as int].insert(col as int, ch),
                ));
            }
        }
    }

    /// Removes the character of line `row` at column `col`; a no-op when
    /// `row` is out of range or `col` lies past the end of the line (in
    /// particular, when the line is empty). Never changes the number of
    /// lines.
    pub fn delete_char(&mut self, row: usize, col: usize)
        ensures
            final(self)@.len() == old(self)@.len(),
            row < old(self)@.len() && col < old(self)@[row as int].len() ==> final(self)@
                == old(self)@.update(row as int, old(self)@[row as int].remove(col as int)),
            !(row < old(self)@.len() && col < old(self)@[row as int].len()) ==> final(self)@
                == old(self)@,
    {
        if row < self.lines.len() && col < self.lines[row].len() {
            self.lines[row].remove(col);
            proof {
                assert(self@ =~~= old(self)@.update(
                    row as int,
                    old(self)@[row as int].remove(col as int),
                ));
            }
        }
    }

    /// Replaces line `row` with its prefix `[0, col)` and inserts the suffix
    /// `[col, end)` as a new line at `row + 1`; a no-op when the indices are
    /// out of range. One of the two operations that grow the line count.
    pub fn split_line(&mut self, row: usize, col: usize)
        ensures
            row < old(self)@.len() && col <= old(self)@[row as int].len() ==> final(self)@.len()
                == old(self)@.len() + 1,
            row < old(self)@.len() && col <= old(self)@[row as int].len() ==> final(self)@
                == old(self)@.update(
                row as int,
                old(self)@[row as int].subrange(0, col as int),
            ).insert(
                row as int + 1,
                old(self)@[row as int].subrange(col as int, old(self)@[row as int].len() as int),
            ),
            !(row < old(self)@.len() && col <= old(self)@[row as int].len()) ==> final(self)@
                == old(self)@,
    {
        if row < self.lines.len() && col <= self.lines[row].len() {
            let suffix = self.lines[row].split_off(col);
            self.lines.insert(row + 1, suffix);
            proof {
                assert(self@ =~~= old(self)@.update(
                    row as int,
                    old(self)@[row as int].subrange(0, col as int),
                ).insert(
                    row as int + 1,
                    old(self)@[row as int].subrange(
                        col as int,
                        old(self)@[row as int].len() as int,
                    ),
                ));
            }
        }
    }

    /// Keeps only the suffix of line `row` from `col` onward; a no-op when
    /// the indices are out of range. Never changes the number of lines.
    pub fn truncate_from(&mut self, row: usize, col: usize)
        ensures
            final(self)@.len() == old(self)@.len(),
            row < old(self)@.len() && col <= old(self)@[row as int].len() ==> final(self)@
                == old(self)@.update(
                row as int,
                old(self)@[row as int].subrange(col as int, old(self)@[row as int].len() as int),
            ),
            !(row < old(self)@.len() && col <= old(self)@[row as int].len()) ==> final(self)@
                == old(self)@,
    {
        if row < self.lines.len() && col <= self.lines[row].len() {
            let suffix = self.lines[row].split_off(col);
            let dst = &mut self.lines[row];
            *dst = suffix;
            proof {
                assert(self@ =~~= old(self)@.update(
                    row as int,
                    old(self)@[row as int].subrange(
                        col as int,
                        old(self)@[row as int].len() as int,
                    ),
                ));
            }
        }
    }

    /// Builds a buffer from file content: the text is split on `'\n'`,
    /// after one trailing newline (if any) has been dropped, so that both
    /// `"ab"` and `"ab\n"` load as the single line `"ab"`. Empty content
    /// loads as one empty line.
    pub fn from_content(content: &Vec<char>) -> (buf: TextBuffer)
        ensures
            buf@ == split_lines(strip_trailing_newline(content@)),
            buf.wf(),
    {
        let mut n = content.len();
        if n > 0 && content[n - 1] == '\n' {
            n = n - 1;
        }
        let ghost t = strip_trailing_newline(content@);
        proof {
            assert(t =~= content@.subrange(0, n as int));
            lemma_split_lines_nonempty(t);
        }
        let mut lines: Vec<Vec<char>> = Vec::new();
        let mut cur: Vec<char> = Vec::new();
        let mut i: usize = 0;
        proof {
            assert(t.skip(0) =~= t);
            assert(split_lines(t) =~~= lines.deep_view() + prepend_first(
                cur@,
                split_lines(t.skip(0)),
            ));
        }
        while i < n
            invariant
                i <= n <= content@.len(),
                t == content@.subrange(0, n as int),
                split_lines(t) == lines.deep_view() + prepend_first(
                    cur@,
                    split_lines(t.skip(i as int)),
                ),
            decreases n - i,
        {
            let c = content[i];
            proof {
                assert(t.skip(i as int).len() > 0);
                assert(t.skip(i as int)[0] == c);
                assert(t.skip(i as int).drop_first() =~= t.skip(i as int + 1));
                lemma_split_lines_nonempty(t.skip(i as int + 1));
            }
            if c == '\n' {
                proof {
                    assert(split_lines(t.skip(i as int)) =~~= seq![Seq::<char>::empty()]
                        + split_lines(t.skip(i as int + 1)));
                    assert(prepend_first(cur@, split_lines(t.skip(i as int))) =~~= seq![cur@]
                        + prepend_first(Seq::empty(), split_lines(t.skip(i as int + 1))));
                }
                lines.push(cur);
                cur = Vec::new();
                proof {
                    assert(split_lines(t) =~~= lines.deep_view() + prepend_first(
                        cur@,
                        split_lines(t.skip(i as int + 1)),
                    ));
                }
            } else {
                let ghost r = split_lines(t.skip(i as int + 1));
                proof {
                    assert(split_lines(t.skip(i as int)) =~~= seq![seq![c] + r[0]]
                        + r.drop_first());
                    assert(prepend_first(cur@, split_lines(t.skip(i as int))) =~~= prepend_first(
                        cur@.push(c),
                        r,
                    ));
                }
                cur.push(c);
                proof {
                    assert(split_lines(t) =~~= lines.deep_view() + prepend_first(
                        cur@,
                        split_lines(t.skip(i as int + 1)),
                    ));
                }
            }
            i = i + 1;
        }
        proof {
            assert(t.skip(n as int) =~= Seq::<char>::empty());
            assert(split_lines(t.skip(n as int)) =~~= seq![Seq::<char>::empty()]);
            assert(prepend_first(cur@, split_lines(t.skip(n as int))) =~~= seq![cur@]);
        }
        lines.push(cur);
        let buf = TextBuffer { lines };
        proof {
            assert(buf@ =~~= split_lines(t));
            assert(split_lines(t).len() >= 1) by {
                lemma_split_lines_nonempty(t);
            }
        }
        buf
    }

    /// The buffer serialised for saving: its lines joined with `'\n'`.
    pub fn to_content(&self) -> (s: String)
        requires
            self.wf(),
        ensures
            s@ == joined_lines(self@),
    {
        let mut s = String::new();
        push_line(&mut s, &self.lines[0]);
        proof {
            assert(self@.take(1) =~= seq![self@[0]]);
            assert(s@ =~= self@[0]);
        }
        let mut i: usize = 1;
        while i < self.lines.len()
            invariant
                1 <= i <= self@.len(),
                self@.len() == self.lines@.len(),
                s@ == joined_lines(self@.take(i as int)),
            decreases self@.len() - i,
        {
            crate::strutil::push_char(&mut s, '\n');
            push_line(&mut s, &self.lines[i]);
            i = i + 1;
            proof {
                assert(self@.take(i as int).drop_last() =~= self@.take(i as int - 1));
                lemma_joined_lines_push(self@.take(i as int - 1), self@[i as int - 1]);
                assert(self@.take(i as int - 1).push(self@[i as int - 1]) =~= self@.take(
                    i as int,
                ));
            }
        }
        proof {
            assert(self@.take(self@.len() as int) =~= self@);
        }
        s
    }

    /// Inserts an empty line at `row`; a no-op when `row` is past the end.
    /// One of the two operations that grow the line count.
    pub fn insert_blank_line(&mut self, row: usize)
        ensures
            row <= old(self)@.len() ==> final(self)@.len() == old(self)@.len() + 1,
            row <= old(self)@.len() ==> final(self)@ == old(self)@.insert(
                row as int,
                Seq::<char>::empty(),
            ),
            row > old(self)@.len() ==> final(self)@ == old(self)@,
    {
        if row <= self.lines.len() {
            self.lines.insert(row, Vec::new());
            proof {
                assert(self@ =~~= old(self)@.insert(row as int, Seq::<char>::empty()));
            }
        }
    }
}

} // verus!
