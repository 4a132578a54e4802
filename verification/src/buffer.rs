use vstd::prelude::*;

verus! {

/// One edit or cursor action on the text buffer. The buffer's whole
/// operation set lives here; nothing outside this module transforms text.
#[derive(Clone, Copy, PartialEq, Eq, Structural, Debug)]
pub enum EditAction {
    /// Insert a character at the cursor; a newline behaves like `Enter`.
    Insert(char),
    /// Break the current line at the cursor.
    Enter,
    /// Remove the character before the cursor, joining lines at a line start.
    Backspace,
    /// Remove the character under the cursor, joining lines at a line end.
    Delete,
    MoveLeft,
    MoveRight,
    MoveUp,
    MoveDown,
    /// Move the cursor to the start of the current line.
    MoveHome,
    /// Move the cursor to the end of the current line.
    MoveEnd,
}

/// The mathematical model of a buffer: its lines and its 0-based cursor.
#[verifier::ext_equal]
pub struct BufferView {
    pub lines: Seq<Seq<char>>,
    pub cursor_line: int,
    pub cursor_col: int,
}

/// A buffer is well formed when it has at least one line and the cursor
/// stands on a line, at or before that line's end.
pub open spec fn buffer_inv(b: BufferView) -> bool {
    &&& b.lines.len() >= 1
    &&& 0 <= b.cursor_line < b.lines.len()
    &&& 0 <= b.cursor_col <= b.lines[b.cursor_line].len()
}

/// Join line `i` with line `i + 1`.
pub open spec fn join_lines(lines: Seq<Seq<char>>, i: int) -> Seq<Seq<char>> {
    lines.update(i, lines[i] + lines[i + 1]).remove(i + 1)
}

/// Break the cursor's line in two at the cursor, leaving the cursor at the
/// start of the second half.
pub open spec fn apply_enter(b: BufferView) -> BufferView {
    let row = b.lines[b.cursor_line];
    BufferView {
        lines: b.lines.update(b.cursor_line, row.subrange(0, b.cursor_col)).insert(
            b.cursor_line + 1,
            row.subrange(b.cursor_col, row.len() as int),
        ),
        cursor_line: b.cursor_line + 1,
        cursor_col: 0,
    }
}

/// What one action does to a well-formed buffer.
pub open spec fn apply_edit(b: BufferView, a: EditAction) -> BufferView {
    let row = b.lines[b.cursor_line];
    match a {
        EditAction::Insert(c) => if c == '\n' {
            apply_enter(b)
        } else {
            BufferView {
                lines: b.lines.update(b.cursor_line, row.insert(b.cursor_col, c)),
                cursor_col: b.cursor_col + 1,
                ..b
            }
        },
        EditAction::Enter => apply_enter(b),
        EditAction::Backspace => if b.cursor_col > 0 {
            BufferView {
                lines: b.lines.update(b.cursor_line, row.remove(b.cursor_col - 1)),
                cursor_col: b.cursor_col - 1,
                ..b
            }
        } else if b.cursor_line > 0 {
            BufferView {
                lines: join_lines(b.lines, b.cursor_line - 1),
                cursor_line: b.cursor_line - 1,
                cursor_col: b.lines[b.cursor_line - 1].len() as int,
            }
        } else {
            b
        },
        EditAction::Delete => if b.cursor_col < row.len() {
            BufferView { lines: b.lines.update(b.cursor_line, row.remove(b.cursor_col)), ..b }
        } else if b.cursor_line + 1 < b.lines.len() {
            BufferView { lines: join_lines(b.lines, b.cursor_line), ..b }
        } else {
            b
        },
        EditAction::MoveLeft => if b.cursor_col > 0 {
            BufferView { cursor_col: b.cursor_col - 1, ..b }
        } else if b.cursor_line > 0 {
            BufferView {
                cursor_line: b.cursor_line - 1,
                cursor_col: b.lines[b.cursor_line - 1].len() as int,
                ..b
            }
        } else {
            b
        },
        EditAction::MoveRight => if b.cursor_col < row.len() {
            BufferView { cursor_col: b.cursor_col + 1, ..b }
        } else if b.cursor_line + 1 < b.lines.len() {
            BufferView { cursor_line: b.cursor_line + 1, cursor_col: 0, ..b }
        } else {
            b
        },
        EditAction::MoveUp => if b.cursor_line > 0 {
            let above = b.lines[b.cursor_line - 1];
            BufferView {
                cursor_line: b.cursor_line - 1,
                cursor_col: if b.cursor_col <= above.len() {
                    b.cursor_col
                } else {
                    above.len() as int
                },
                ..b
            }
        } else {
            BufferView { cursor_col: 0, ..b }
        },
        EditAction::MoveDown => if b.cursor_line + 1 < b.lines.len() {
            let below = b.lines[b.cursor_line + 1];
            BufferView {
                cursor_line: b.cursor_line + 1,
                cursor_col: if b.cursor_col <= below.len() {
                    b.cursor_col
                } else {
                    below.len() as int
                },
                ..b
            }
        } else {
            BufferView { cursor_col: row.len() as int, ..b }
        },
        EditAction::MoveHome => BufferView { cursor_col: 0, ..b },
        EditAction::MoveEnd => BufferView { cursor_col: row.len() as int, ..b },
    }
}

/// The lines that a text breaks into: a trailing newline opens a final
/// empty line, and the empty text is one empty line.
pub open spec fn lines_of(t: Seq<char>) -> Seq<Seq<char>>
    decreases t.len(),
{
    if t.len() == 0 {
        seq![Seq::<char>::empty()]
    } else {
        let prev = lines_of(t.drop_last());
        if t.last() == '\n' {
            prev.push(Seq::empty())
        } else {
            prev.update(prev.len() - 1, prev.last().push(t.last()))
        }
    }
}

/// A text always breaks into at least one line.
pub proof fn lemma_lines_of_nonempty(t: Seq<char>)
    ensures
        lines_of(t).len() >= 1,
    decreases t.len(),
{
    if t.len() > 0 {
        lemma_lines_of_nonempty(t.drop_last());
    }
}

/// The text that a sequence of lines spells, with one newline between
/// neighbouring lines.
pub open spec fn flatten_lines(lines: Seq<Seq<char>>) -> Seq<char>
    decreases lines.len(),
{
    if lines.len() == 0 {
        Seq::empty()
    } else if lines.len() == 1 {
        lines[0]
    } else {
        flatten_lines(lines.drop_last()) + seq!['\n'] + lines.last()
    }
}

/// Breaking a text into lines loses nothing: joining them spells the text
/// again, trailing newline included.
pub proof fn lemma_flatten_lines_of(t: Seq<char>)
    ensures
        flatten_lines(lines_of(t)) == t,
    decreases t.len(),
{
    if t.len() == 0 {
        assert(flatten_lines(lines_of(t)) =~= t);
    } else {
        lemma_flatten_lines_of(t.drop_last());
        lemma_lines_of_nonempty(t.drop_last());
        let prev = lines_of(t.drop_last());
        if t.last() == '\n' {
            let joined = prev.push(Seq::<char>::empty());
            assert(joined.drop_last() =~= prev);
            assert(flatten_lines(joined) =~= t);
        } else {
            let grown = prev.update(prev.len() - 1, prev.last().push(t.last()));
            if prev.len() == 1 {
                assert(grown[0] =~= t);
                assert(flatten_lines(grown) == grown[0]);
            } else {
                assert(grown.drop_last() =~= prev.drop_last());
                assert(grown.last() == prev.last().push(t.last()));
                assert(flatten_lines(grown) == flatten_lines(prev.drop_last()) + seq!['\n']
                    + prev.last().push(t.last()));
                assert(flatten_lines(prev) == flatten_lines(prev.drop_last()) + seq!['\n']
                    + prev.last());
                assert(flatten_lines(grown) =~= flatten_lines(prev).push(t.last()));
                assert(flatten_lines(prev).push(t.last()) =~= t);
            }
        }
    }
}

/// Every action carries a well-formed buffer to a well-formed buffer.
pub proof fn lemma_apply_edit_preserves_inv(b: BufferView, a: EditAction)
    requires
        buffer_inv(b),
    ensures
        buffer_inv(apply_edit(b, a)),
{
}

/// The in-memory text buffer: the editable text plus the cursor.
pub struct TextBuffer {
    lines: Vec<Vec<char>>,
    cursor_line: usize,
    cursor_col: usize,
}

impl View for TextBuffer {
    type V = BufferView;

    closed spec fn view(&self) -> BufferView {
        BufferView {
            lines: self.lines@.map_values(|l: Vec<char>| l@),
            cursor_line: self.cursor_line as int,
            cursor_col: self.cursor_col as int,
        }
    }
}

impl TextBuffer {
    /// An empty buffer: one empty line, cursor at its start.
    pub fn new() -> (b: TextBuffer)
        ensures
            b@.lines =~= seq![Seq::<char>::empty()],
            b@.cursor_line == 0,
            b@.cursor_col == 0,
            buffer_inv(b@),
    {
        let mut lines: Vec<Vec<char>> = Vec::new();
        lines.push(Vec::new());
        let b = TextBuffer { lines, cursor_line: 0, cursor_col: 0 };
        proof {
            assert(b@.lines =~= seq![Seq::<char>::empty()]);
        }
        b
    }

    /// A fresh buffer over `text`, cursor at the buffer start.
    pub fn with_text(text: &str) -> (b: TextBuffer)
        ensures
            b@.lines == lines_of(text@),
            b@.cursor_line == 0,
            b@.cursor_col == 0,
            buffer_inv(b@),
    {
        let len = text.unicode_len();
        let mut done: Vec<Vec<char>> = Vec::new();
        let mut cur: Vec<char> = Vec::new();
        let mut i: usize = 0;
        while i < len
            invariant
                i <= len,
                len == text@.len(),
                done@.map_values(|l: Vec<char>| l@).push(cur@) =~= lines_of(
                    text@.subrange(0, i as int),
                ),
            decreases len - i,
        {
            let c = text.get_char(i);
            proof {
                assert(text@.subrange(0, i + 1).drop_last() =~= text@.subrange(0, i as int));
            }
            if c == '\n' {
                done.push(cur);
                cur = Vec::new();
                proof {
                    assert(done@.map_values(|l: Vec<char>| l@).push(cur@) =~= lines_of(
                        text@.subrange(0, i + 1),
                    ));
                }
            } else {
                cur.push(c);
                proof {
                    assert(done@.map_values(|l: Vec<char>| l@).push(cur@) =~= lines_of(
                        text@.subrange(0, i + 1),
                    ));
                }
            }
            i = i + 1;
        }
        proof {
            assert(text@.subrange(0, len as int) =~= text@);
        }
        done.push(cur);
        let b = TextBuffer { lines: done, cursor_line: 0, cursor_col: 0 };
        proof {
            lemma_lines_of_nonempty(text@);
            assert(b@.lines =~= lines_of(text@));
        }
        b
    }

    /// The buffer's whole text, lines joined by single newlines.
    pub fn text(&self) -> (t: Vec<char>)
        requires
            buffer_inv(self@),
        ensures
            t@ == flatten_lines(self@.lines),
    {
        let mut out: Vec<char> = Vec::new();
        let n = self.lines.len();
        let mut i: usize = 0;
        while i < n
            invariant
                i <= n,
                n == self@.lines.len(),
                out@ =~= flatten_lines(self@.lines.subrange(0, i as int)),
            decreases n - i,
        {
            if i > 0 {
                out.push('\n');
            }
            let line = &self.lines[i];
            let m = line.len();
            let mut j: usize = 0;
            while j < m
                invariant
                    j <= m,
                    i < n,
                    n == self@.lines.len(),
                    m == self@.lines[i as int].len(),
                    line@ == self@.lines[i as int],
                    out@ =~= flatten_lines(self@.lines.subrange(0, i as int)).add(
                        if i > 0 {
                            seq!['\n']
                        } else {
                            Seq::empty()
                        },
                    ).add(self@.lines[i as int].subrange(0, j as int)),
                decreases m - j,
            {
                out.push(line[j]);
                proof {
                    assert(self@.lines[i as int].subrange(0, j + 1) =~= self@.lines[i as int]
                        .subrange(0, j as int).push(line@[j as int]));
                }
                j = j + 1;
            }
            proof {
                assert(self@.lines[i as int].subrange(0, m as int) =~= self@.lines[i as int]);
                assert(self@.lines.subrange(0, i + 1).drop_last() =~= self@.lines.subrange(
                    0,
                    i as int,
                ));
                assert(out@ =~= flatten_lines(self@.lines.subrange(0, i + 1)));
            }
            i = i + 1;
        }
        proof {
            assert(self@.lines.subrange(0, n as int) =~= self@.lines);
        }
        out
    }

    /// The cursor as a 0-based (line, column) pair.
    pub fn cursor_position(&self) -> (p: (usize, usize))
        ensures
            p.0 == self@.cursor_line,
            p.1 == self@.cursor_col,
    {
        (self.cursor_line, self.cursor_col)
    }

    /// Apply one action to the buffer, exactly as `apply_edit` says.
    #[verifier::rlimit(30)]
    pub fn perform(&mut self, a: EditAction)
        requires
            buffer_inv(old(self)@),
        ensures
            final(self)@ == apply_edit(old(self)@, a),
            buffer_inv(final(self)@),
    {
        proof {
            lemma_apply_edit_preserves_inv(old(self)@, a);
        }
        match a {
            EditAction::Insert(c) => {
                if c == '\n' {
                    self.perform_enter();
                } else {
                    let mut row = self.lines.remove(self.cursor_line);
                    row.insert(self.cursor_col, c);
                    let grown_len = row.len();
                    self.lines.insert(self.cursor_line, row);
                    assert(self.cursor_col < grown_len);
                    self.cursor_col = self.cursor_col + 1;
                    proof {
                        assert(self@.lines =~= apply_edit(old(self)@, a).lines);
                        assert(self@ =~= apply_edit(old(self)@, a));
                    }
                }
            },
            EditAction::Enter => {
                self.perform_enter();
            },
            EditAction::Backspace => {
                if self.cursor_col > 0 {
                    let mut row = self.lines.remove(self.cursor_line);
                    let _ = row.remove(self.cursor_col - 1);
                    self.lines.insert(self.cursor_line, row);
                    self.cursor_col = self.cursor_col - 1;
                    proof {
                        assert(self@.lines =~= apply_edit(old(self)@, a).lines);
                        assert(self@ =~= apply_edit(old(self)@, a));
                    }
                } else if self.cursor_line > 0 {
                    let mut row = self.lines.remove(self.cursor_line);
                    let mut prev = self.lines.remove(self.cursor_line - 1);
                    self.cursor_col = prev.len();
                    prev.append(&mut row);
                    self.lines.insert(self.cursor_line - 1, prev);
                    self.cursor_line = self.cursor_line - 1;
                    proof {
                        assert(self@.lines =~= apply_edit(old(self)@, a).lines);
                        assert(self@ =~= apply_edit(old(self)@, a));
                    }
                }
            },
            EditAction::Delete => {
                let here_len = self.lines[self.cursor_line].len();
                if self.cursor_col < here_len {
                    let mut row = self.lines.remove(self.cursor_line);
                    let _ = row.remove(self.cursor_col);
                    self.lines.insert(self.cursor_line, row);
                    proof {
                        assert(self@.lines =~= apply_edit(old(self)@, a).lines);
                        assert(self@ =~= apply_edit(old(self)@, a));
                    }
                } else if self.cursor_line < self.lines.len() - 1 {
                    let mut next = self.lines.remove(self.cursor_line + 1);
                    let mut row = self.lines.remove(self.cursor_line);
                    row.append(&mut next);
                    self.lines.insert(self.cursor_line, row);
                    proof {
                        assert(self@.lines =~= apply_edit(old(self)@, a).lines);
                        assert(self@ =~= apply_edit(old(self)@, a));
                    }
                }
            },
            EditAction::MoveLeft => {
                if self.cursor_col > 0 {
                    self.cursor_col = self.cursor_col - 1;
                } else if self.cursor_line > 0 {
                    self.cursor_line = self.cursor_line - 1;
                    self.cursor_col = self.lines[self.cursor_line].len();
                }
            },
            EditAction::MoveRight => {
                let here_len = self.lines[self.cursor_line].len();
                if self.cursor_col < here_len {
                    self.cursor_col = self.cursor_col + 1;
                } else if self.cursor_line < self.lines.len() - 1 {
                    self.cursor_line = self.cursor_line + 1;
                    self.cursor_col = 0;
                }
            },
            EditAction::MoveUp => {
                if self.cursor_line > 0 {
                    self.cursor_line = self.cursor_line - 1;
                    let above_len = self.lines[self.cursor_line].len();
                    if self.cursor_col > above_len {
                        self.cursor_col = above_len;
                    }
                } else {
                    self.cursor_col = 0;
                }
            },
            EditAction::MoveDown => {
                if self.cursor_line < self.lines.len() - 1 {
                    self.cursor_line = self.cursor_line + 1;
                    let below_len = self.lines[self.cursor_line].len();
                    if self.cursor_col > below_len {
                        self.cursor_col = below_len;
                    }
                } else {
                    self.cursor_col = self.lines[self.cursor_line].len();
                }
            },
            EditAction::MoveHome => {
                self.cursor_col = 0;
            },
            EditAction::MoveEnd => {
                self.cursor_col = self.lines[self.cursor_line].len();
            },
        }
    }

    /// Break the cursor's line at the cursor.
    fn perform_enter(&mut self)
        requires
            buffer_inv(old(self)@),
        ensures
            final(self)@ == apply_enter(old(self)@),
    {
        let mut row = self.lines.remove(self.cursor_line);
        let tail = row.split_off(self.cursor_col);
        self.lines.insert(self.cursor_line, row);
        let n = self.lines.len();
        assert(self.cursor_line < n);
        self.lines.insert(self.cursor_line + 1, tail);
        self.cursor_line = self.cursor_line + 1;
        self.cursor_col = 0;
        proof {
            assert(self@.lines =~= apply_enter(old(self)@).lines);
            assert(self@ =~= apply_enter(old(self)@));
        }
    }

    /// How many lines the buffer holds.
    pub fn line_count(&self) -> (n: usize)
        ensures
            n == self@.lines.len(),
    {
        self.lines.len()
    }
}

} // verus!
