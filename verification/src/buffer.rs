//! The line buffer: an ordered, never-empty sequence of text lines.
//!
//! Each line is held as its characters in order.  The buffer is viewed as a
//! sequence of character sequences; every mutation states exactly what the
//! new view is.  An empty document is a single empty line, and no operation
//! can leave the buffer with fewer than one line.

use vstd::prelude::*;
use vstd::string::StrSliceExecFns;
use crate::text::{join_lines, lemma_join_lines_snoc, lemma_split_lines_nonempty,
    lemma_split_lines_snoc, split_lines};
use crate::graphemes::string_from_chars;

verus! {

/// Error reported by the fallible line accessor.
#[derive(Clone, Copy, Debug, PartialEq, Eq)]
pub enum BufferError {
    /// The requested row lies at or past the end of the buffer.
    OutOfRange,
}

/// The text buffer: the document's lines, in document order.
pub struct Buffer {
    pub lines: Vec<Vec<char>>,
}

impl View for Buffer {
    type V = Seq<Seq<char>>;

    open spec fn view(&self) -> Seq<Seq<char>> {
        self.lines.deep_view()
    }
}

impl Buffer {
    /// The buffer invariant: there is always at least one line.
    pub open spec fn wf(&self) -> bool {
        self@.len() >= 1
    }

    /// Build the buffer from a document: split on `'\n'`.
    pub fn from_text(text: &str) -> (buf: Buffer)
        ensures
            buf@ == split_lines(text@),
            buf.wf(),
    {
        let n = text.unicode_len();
        let mut lines: Vec<Vec<char>> = Vec::new();
        let mut cur: Vec<char> = Vec::new();
        let mut i: usize = 0;
        proof {
            assert(text@.take(0) =~~= Seq::<char>::empty());
            assert(split_lines(text@.take(0)) =~~= lines.deep_view().push(cur@));
        }
        while i < n
            invariant
                i <= n,
                n == text@.len(),
                split_lines(text@.take(i as int)) == lines.deep_view().push(cur@),
            decreases n - i,
        {
            let c = text.get_char(i);
            proof {
                lemma_split_lines_snoc(text@.take(i as int), c);
                assert(text@.take(i + 1) =~~= text@.take(i as int).push(c));
            }
            if c == '\n' {
                let ghost prev_lines = lines.deep_view();
                let ghost prev_cur = cur@;
                lines.push(cur);
                cur = Vec::new();
                proof {
                    assert(lines.deep_view() =~~= prev_lines.push(prev_cur));
                    assert(split_lines(text@.take(i + 1)) =~~= lines.deep_view().push(cur@));
                }
            } else {
                let ghost prev_lines = lines.deep_view();
                let ghost prev_cur = cur@;
                cur.push(c);
                proof {
                    let s = prev_lines.push(prev_cur);
                    assert(split_lines(text@.take(i + 1)) =~~= s.update(
                        s.len() - 1,
                        s[s.len() - 1] + seq![c],
                    ));
                    assert(s.update(s.len() - 1, s[s.len() - 1] + seq![c]) =~~= prev_lines.push(
                        prev_cur + seq![c],
                    ));
                    assert(cur@ =~~= prev_cur + seq![c]);
                }
            }
            i = i + 1;
        }
        let ghost prev_lines = lines.deep_view();
        let ghost prev_cur = cur@;
        lines.push(cur);
        proof {
            assert(text@.take(n as int) =~~= text@);
            assert(lines.deep_view() =~~= prev_lines.push(prev_cur));
            lemma_split_lines_nonempty(text@);
        }
        Buffer { lines }
    }

    /// How many lines the buffer holds.
    pub fn line_count(&self) -> (n: usize)
        ensures
            n == self@.len(),
    {
        self.lines.len()
    }

    /// The line at `row`, or `OutOfRange` exactly when `row` lies past the
    /// last line.
    pub fn line(&self, row: usize) -> (r: Result<&Vec<char>, BufferError>)
        ensures
            (row as int) < self@.len() <==> r is Ok,
            r matches Ok(l) ==> l@ == self@[row as int],
            r matches Err(e) ==> e == BufferError::OutOfRange,
    {
        if row < self.lines.len() {
            Ok(&self.lines[row])
        } else {
            Err(BufferError::OutOfRange)
        }
    }

    /// The line at a row known to be in range.
    pub fn line_at(&self, row: usize) -> (l: &Vec<char>)
        requires
            (row as int) < self@.len(),
        ensures
            l@ == self@[row as int],
    {
        &self.lines[row]
    }

    /// Insert `ch` into line `row` at character offset `at`.
    pub fn insert_char(&mut self, row: usize, at: usize, ch: char)
        requires
            (row as int) < old(self)@.len(),
            at <= old(self)@[row as int].len(),
        ensures
            final(self)@ == old(self)@.update(
                row as int,
                old(self)@[row as int].insert(at as int, ch),
            ),
            final(self)@.len() == old(self)@.len(),
    {
        let ghost old_dv = self@;
        let mut line = self.lines.remove(row);
        line.insert(at, ch);
        self.lines.insert(row, line);
        proof {
            assert(final(self)@ =~~= old_dv.update(row as int, old_dv[row as int].insert(
                at as int,
                ch,
            )));
        }
    }

    /// Remove `count` characters from line `row`, starting at character
    /// offset `at`: the span of one grapheme cluster.
    pub fn remove_chars(&mut self, row: usize, at: usize, count: usize)
        requires
            (row as int) < old(self)@.len(),
            at + count <= old(self)@[row as int].len(),
        ensures
            final(self)@ == old(self)@.update(
                row as int,
                old(self)@[row as int].subrange(0, at as int) + old(self)@[row as int].subrange(
                    at + count,
                    old(self)@[row as int].len() as int,
                ),
            ),
            final(self)@.len() == old(self)@.len(),
    {
        let ghost old_dv = self@;
        let mut line = self.lines.remove(row);
        let mut tail = line.split_off(at);
        let mut keep = tail.split_off(count);
        let ghost keep0 = keep@;
        line.append(&mut keep);
        self.lines.insert(row, line);
        proof {
            let l = old_dv[row as int];
            assert(keep0 =~~= l.subrange(at + count, l.len() as int));
            assert(final(self)@ =~~= old_dv.update(row as int, l.subrange(0, at as int)
                + l.subrange(at + count, l.len() as int)));
        }
    }

    /// Split line `row` at character offset `at`: the prefix stays at `row`,
    /// the suffix becomes a new line at `row + 1`.
    pub fn split_line(&mut self, row: usize, at: usize)
        requires
            (row as int) < old(self)@.len(),
            at <= old(self)@[row as int].len(),
        ensures
            final(self)@ == old(self)@.update(
                row as int,
                old(self)@[row as int].take(at as int),
            ).insert(row + 1, old(self)@[row as int].skip(at as int)),
            final(self)@.len() == old(self)@.len() + 1,
    {
        let ghost old_dv = self@;
        let mut line = self.lines.remove(row);
        let tail = line.split_off(at);
        self.lines.insert(row, tail);
        self.lines.insert(row, line);
        proof {
            let l = old_dv[row as int];
            assert(l.subrange(0, at as int) =~~= l.take(at as int));
            assert(l.subrange(at as int, l.len() as int) =~~= l.skip(at as int));
            assert(final(self)@ =~~= old_dv.update(row as int, l.take(at as int)).insert(
                row + 1,
                l.skip(at as int),
            ));
        }
    }

    /// Append line `row` onto the end of line `row - 1` and drop line `row`.
    /// Leaves the buffer unchanged when `row` is the first line.
    pub fn merge_with_previous(&mut self, row: usize)
        requires
            (row as int) < old(self)@.len(),
        ensures
            row == 0 ==> *final(self) == *old(self),
            row > 0 ==> final(self)@ == old(self)@.update(
                row - 1,
                old(self)@[row - 1] + old(self)@[row as int],
            ).remove(row as int),
            row > 0 ==> final(self)@.len() == old(self)@.len() - 1,
    {
        if row > 0 {
            let ghost old_dv = self@;
            let mut cur = self.lines.remove(row);
            let mut prev = self.lines.remove(row - 1);
            prev.append(&mut cur);
            self.lines.insert(row - 1, prev);
            proof {
                assert(final(self)@ =~~= old_dv.update(row - 1, old_dv[row - 1]
                    + old_dv[row as int]).remove(row as int));
            }
        }
    }

    /// Remove line `row` outright, unless it is the only line, in which case
    /// it is replaced by an empty line: the buffer never becomes empty.
    pub fn delete_line(&mut self, row: usize)
        requires
            old(self).wf(),
            (row as int) < old(self)@.len(),
        ensures
            old(self)@.len() == 1 ==> final(self)@ == seq![Seq::<char>::empty()],
            old(self)@.len() > 1 ==> final(self)@ == old(self)@.remove(row as int),
            final(self).wf(),
    {
        let ghost old_dv = self@;
        if self.lines.len() == 1 {
            self.lines.remove(0);
            self.lines.push(Vec::new());
            proof {
                assert(final(self)@ =~~= seq![Seq::<char>::empty()]);
            }
        } else {
            self.lines.remove(row);
            proof {
                assert(final(self)@ =~~= old_dv.remove(row as int));
            }
        }
    }

    /// The whole document: the lines joined with `'\n'`.
    pub fn serialize(&self) -> (out: String)
        ensures
            out@ == join_lines(self@),
    {
        let ghost dv = self@;
        let mut out: Vec<char> = Vec::new();
        let mut i: usize = 0;
        proof {
            assert(dv.take(0) =~~= Seq::<Seq<char>>::empty());
            assert(out@ =~~= join_lines(dv.take(0)));
        }
        while i < self.lines.len()
            invariant
                i <= self.lines.len(),
                dv == self@,
                out@ == join_lines(dv.take(i as int)),
            decreases self.lines.len() - i,
        {
            if i > 0 {
                out.push('\n');
            }
            let ghost base = out@;
            let line = &self.lines[i];
            let mut j: usize = 0;
            proof {
                assert(out@ =~~= base + line@.take(0));
            }
            while j < line.len()
                invariant
                    j <= line@.len(),
                    out@ == base + line@.take(j as int),
                decreases line@.len() - j,
            {
                out.push(line[j]);
                proof {
                    assert(line@.take(j + 1) =~~= line@.take(j as int).push(line@[j as int]));
                    assert(out@ =~~= base + line@.take(j + 1));
                }
                j = j + 1;
            }
            proof {
                assert(line@.take(line@.len() as int) =~~= line@);
                assert(line@ == dv[i as int]);
                lemma_join_lines_snoc(dv.take(i as int), dv[i as int]);
                assert(dv.take(i + 1) =~~= dv.take(i as int).push(dv[i as int]));
                if i > 0 {
                    assert(out@ =~~= join_lines(dv.take(i as int)) + seq!['\n'] + dv[i as int]);
                } else {
                    assert(out@ =~~= dv[0]);
                }
            }
            i = i + 1;
        }
        proof {
            assert(dv.take(dv.len() as int) =~~= dv);
        }
        string_from_chars(&out)
    }
}

} // verus!
