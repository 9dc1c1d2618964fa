use vstd::prelude::*;

use crate::text::{join_lines, lemma_pieces, pieces, splice, split_lines};

verus! {

/// The document: an ordered sequence of lines, never empty.
pub struct TextBuffer {
    lines: Vec<Vec<char>>,
}

impl View for TextBuffer {
    type V = Seq<Seq<char>>;

    closed spec fn view(&self) -> Seq<Seq<char>> {
        self.lines@.map_values(|l: Vec<char>| l@)
    }
}

impl TextBuffer {
    #[verifier::type_invariant]
    spec fn has_a_line(self) -> bool {
        self.lines@.len() >= 1
    }

    /// A buffer holding one empty line.
    pub fn new() -> (r: TextBuffer)
        ensures
            r@ == seq![Seq::<char>::empty()],
    {
        let r = TextBuffer { lines: vec![Vec::new()] };
        assert(r@ =~= seq![Seq::<char>::empty()]);
        r
    }

    /// The document read from `text`: its lines between newlines, a final
    /// newline ending the last line rather than starting an empty one. An
    /// empty text gives one empty line.
    pub fn from_text(text: &Vec<char>) -> (r: TextBuffer)
        ensures
            r@ == split_lines(text@),
    {
        let mut lines: Vec<Vec<char>> = Vec::new();
        let mut cur: Vec<char> = Vec::new();
        let mut i: usize = 0;
        while i < text.len()
            invariant
                i <= text@.len(),
                lines@.map_values(|l: Vec<char>| l@).push(cur@) == pieces(text@.subrange(0, i as int)),
            decreases text@.len() - i,
        {
            let c = text[i];
            let ghost before = lines@.map_values(|l: Vec<char>| l@).push(cur@);
            assert(text@.subrange(0, i + 1).drop_last() =~= text@.subrange(0, i as int));
            if c == '\n' {
                lines.push(cur);
                cur = Vec::new();
                assert(lines@.map_values(|l: Vec<char>| l@).push(cur@) =~= before.push(Seq::empty()));
            } else {
                cur.push(c);
                assert(lines@.map_values(|l: Vec<char>| l@).push(cur@) =~= before.update(
                    before.len() - 1,
                    before.last().push(c),
                ));
            }
            i = i + 1;
        }
        assert(text@.subrange(0, i as int) =~= text@);
        let ghost all = pieces(text@);
        assert(all == lines@.map_values(|l: Vec<char>| l@).push(cur@));
        if cur.len() > 0 || lines.len() == 0 {
            lines.push(cur);
            assert(lines@.map_values(|l: Vec<char>| l@) =~= all);
            proof {
                if text@.len() > 0 && text@.last() == '\n' {
                    lemma_pieces(text@.drop_last());
                    lemma_pieces(text@);
                    assert(all.len() >= 2);
                    assert(all.last() == cur@);
                    assert(false);
                }
            }
        } else {
            assert(lines@.map_values(|l: Vec<char>| l@) =~= all.drop_last());
            proof {
                if text@.len() == 0 {
                    assert(all.len() == 1);
                } else if text@.last() != '\n' {
                    let t = text@.drop_last();
                    lemma_pieces(t);
                    assert(all.last() == pieces(t).last().push(text@.last()));
                }
            }
        }
        TextBuffer { lines }
    }

    /// The text of the document: each line followed by one newline.
    pub fn to_text(&self) -> (r: Vec<char>)
        ensures
            r@ == join_lines(self@),
    {
        let mut out: Vec<char> = Vec::new();
        let mut i: usize = 0;
        while i < self.lines.len()
            invariant
                i <= self@.len(),
                self@.len() == self.lines@.len(),
                out@ == join_lines(self@.subrange(0, i as int)),
            decreases self@.len() - i,
        {
            let line = &self.lines[i];
            let ghost start = out@;
            let mut j: usize = 0;
            while j < line.len()
                invariant
                    j <= line@.len(),
                    out@ == start + line@.subrange(0, j as int),
                decreases line@.len() - j,
            {
                out.push(line[j]);
                assert(line@.subrange(0, j + 1) =~= line@.subrange(0, j as int).push(line@[j as int]));
                j = j + 1;
            }
            out.push('\n');
            assert(self@.subrange(0, i + 1).drop_last() =~= self@.subrange(0, i as int));
            assert(line@.subrange(0, j as int) =~= line@);
            assert(out@ =~= join_lines(self@.subrange(0, i + 1)));
            i = i + 1;
        }
        assert(self@.subrange(0, i as int) =~= self@);
        out
    }

    /// The number of lines and the length of each line fit in `usize`.
    pub proof fn lemma_sizes(&self)
        ensures
            self@.len() <= usize::MAX,
            forall|i: int| 0 <= i < self@.len() ==> #[trigger] self@[i].len() <= usize::MAX,
    {
        assert(self.lines@.len() == self.lines.len());
        assert forall|i: int| 0 <= i < self@.len() implies #[trigger] self@[i].len() <= usize::MAX by {
            assert(self@[i].len() == self.lines@[i].len());
        }
    }

    /// The number of lines.
    pub fn line_count(&self) -> (r: usize)
        ensures
            r == self@.len(),
            r >= 1,
    {
        proof { use_type_invariant(self); }
        self.lines.len()
    }

    /// The length of line `index`, or zero where there is no such line.
    pub fn line_length(&self, index: usize) -> (r: usize)
        ensures
            r == (if index < self@.len() { self@[index as int].len() } else { 0 }),
    {
        if index < self.lines.len() {
            self.lines[index].len()
        } else {
            0
        }
    }

    /// Line `index`.
    pub fn line(&self, index: usize) -> (r: &Vec<char>)
        requires
            index < self@.len(),
        ensures
            r@ == self@[index as int],
    {
        &self.lines[index]
    }

    /// Inserts `ch` into line `index` before position `column`, or at the end
    /// of the line where `column` lies past it.
    pub fn insert_char(&mut self, index: usize, column: usize, ch: char)
        requires
            index < old(self)@.len(),
        ensures
            final(self)@ == old(self)@.update(
                index as int,
                old(self)@[index as int].insert(
                    if column <= old(self)@[index as int].len() { column as int } else { old(self)@[index as int].len() as int },
                    ch,
                ),
            ),
    {
        proof { use_type_invariant(&*self); }
        let len = self.lines[index].len();
        let at = if column <= len { column } else { len };
        self.lines[index].insert(at, ch);
        assert(self@ =~= old(self)@.update(index as int, old(self)@[index as int].insert(at as int, ch)));
    }
    /// Removes the character at `column` of line `index`; nothing happens
    /// where the line has no such position.
    pub fn delete_char(&mut self, index: usize, column: usize)
        requires
            index < old(self)@.len(),
        ensures
            final(self)@ == (if column < old(self)@[index as int].len() {
                old(self)@.update(index as int, old(self)@[index as int].remove(column as int))
            } else {
                old(self)@
            }),
    {
        proof { use_type_invariant(&*self); }
        if column < self.lines[index].len() {
            self.lines[index].remove(column);
            assert(self@ =~= old(self)@.update(index as int, old(self)@[index as int].remove(column as int)));
        }
    }

    /// Inserts `s` into line `index` before position `column`, or at the end
    /// of the line where `column` lies past it.
    pub fn insert_chars(&mut self, index: usize, column: usize, s: &Vec<char>)
        requires
            index < old(self)@.len(),
        ensures
            final(self)@ == old(self)@.update(
                index as int,
                splice(
                    old(self)@[index as int],
                    if column <= old(self)@[index as int].len() { column as int } else { old(self)@[index as int].len() as int },
                    s@,
                ),
            ),
    {
        proof { use_type_invariant(&*self); }
        let len = self.lines[index].len();
        let at = if column <= len { column } else { len };
        let ghost line = old(self)@[index as int];
        let mut k: usize = 0;
        while k < s.len()
            invariant
                k <= s@.len(),
                at <= line.len(),
                index < self.lines@.len(),
                self.lines@.len() == old(self).lines@.len(),
                forall|i: int| 0 <= i < self.lines@.len() && i != index ==> #[trigger] self.lines@[i] == old(self).lines@[i],
                self.lines@[index as int]@ == splice(line, at as int, s@.subrange(0, k as int)),
            decreases s@.len() - k,
        {
            let cur = self.lines[index].len();
            assert(cur == line.len() + k);
            self.lines[index].insert(at + k, s[k]);
            assert(s@.subrange(0, k + 1) =~= s@.subrange(0, k as int).push(s@[k as int]));
            assert(self.lines@[index as int]@ =~= splice(line, at as int, s@.subrange(0, k + 1)));
            k = k + 1;
        }
        assert(s@.subrange(0, k as int) =~= s@);
        assert(self@ =~= old(self)@.update(index as int, splice(line, at as int, s@)));
    }

    /// Cuts line `index` at `column`, keeping what lies before it; a column
    /// past the end leaves the line as it is.
    pub fn truncate_line(&mut self, index: usize, column: usize)
        requires
            index < old(self)@.len(),
        ensures
            final(self)@ == old(self)@.update(
                index as int,
                if column <= old(self)@[index as int].len() {
                    old(self)@[index as int].subrange(0, column as int)
                } else {
                    old(self)@[index as int]
                },
            ),
    {
        proof { use_type_invariant(&*self); }
        self.lines[index].truncate(column);
        assert(self@ =~= old(self)@.update(
            index as int,
            if column <= old(self)@[index as int].len() {
                old(self)@[index as int].subrange(0, column as int)
            } else {
                old(self)@[index as int]
            },
        ));
    }

    /// Splits line `index` at `column` (or at its end, where `column` lies
    /// past it): the line keeps the first half and the second half becomes a
    /// new line right after it. Returns both halves.
    pub fn split_line(&mut self, index: usize, column: usize) -> (r: (Vec<char>, Vec<char>))
        requires
            index < old(self)@.len(),
        ensures
            ({
                let line = old(self)@[index as int];
                let at = if column <= line.len() { column as int } else { line.len() as int };
                &&& r.0@ == line.subrange(0, at)
                &&& r.1@ == line.subrange(at, line.len() as int)
                &&& final(self)@ == old(self)@.update(index as int, r.0@).insert(index + 1, r.1@)
            }),
    {
        proof { use_type_invariant(&*self); }
        let len = self.lines[index].len();
        let at = if column <= len { column } else { len };
        let tail = self.lines[index].split_off(at);
        let head = self.lines[index].clone();
        assert(head@ =~= self.lines@[index as int]@);
        let second = tail.clone();
        assert(second@ =~= tail@);
        let mut lines = vec![Vec::new()];
        std::mem::swap(&mut self.lines, &mut lines);
        let n = lines.len();
        assert(n == old(self)@.len());
        lines.insert(index + 1, tail);
        self.lines = lines;
        assert(self@ =~= old(self)@.update(index as int, head@).insert(index + 1, second@));
        (head, second)
    }

    /// Appends line `index + 1` to line `index` and removes it. Returns the
    /// length that line `index` had before: the column of the join.
    pub fn join_line(&mut self, index: usize) -> (r: usize)
        requires
            index + 1 < old(self)@.len(),
        ensures
            r == old(self)@[index as int].len(),
            final(self)@ == old(self)@.update(
                index as int,
                old(self)@[index as int] + old(self)@[index + 1],
            ).remove(index + 1),
    {
        proof { use_type_invariant(&*self); }
        let at = self.lines[index].len();
        let mut lines = vec![Vec::new()];
        std::mem::swap(&mut self.lines, &mut lines);
        let n = lines.len();
        assert(n == old(self)@.len());
        let mut next = lines.remove(index + 1);
        lines[index].append(&mut next);
        self.lines = lines;
        assert(self@ =~= old(self)@.update(
            index as int,
            old(self)@[index as int] + old(self)@[index + 1],
        ).remove(index + 1));
        at
    }

    /// Inserts `content` as a new line before line `index` (at the end where
    /// `index` is the number of lines).
    pub fn insert_line(&mut self, index: usize, content: Vec<char>)
        requires
            index <= old(self)@.len(),
        ensures
            final(self)@ == old(self)@.insert(index as int, content@),
    {
        proof { use_type_invariant(&*self); }
        let mut lines = vec![Vec::new()];
        std::mem::swap(&mut self.lines, &mut lines);
        lines.insert(index, content);
        self.lines = lines;
        assert(self@ =~= old(self)@.insert(index as int, content@));
    }

    /// Removes line `index`. The last remaining line is never removed: it is
    /// emptied instead, so the buffer keeps at least one line.
    pub fn remove_line(&mut self, index: usize)
        requires
            index < old(self)@.len(),
        ensures
            final(self)@ == (if old(self)@.len() == 1 {
                seq![Seq::<char>::empty()]
            } else {
                old(self)@.remove(index as int)
            }),
            final(self)@.len() >= 1,
    {
        proof { use_type_invariant(&*self); }
        if self.lines.len() == 1 {
            self.lines[0].clear();
            assert(self@ =~= seq![Seq::<char>::empty()]);
        } else {
            let mut lines = vec![Vec::new()];
            std::mem::swap(&mut self.lines, &mut lines);
            lines.remove(index);
            self.lines = lines;
            assert(self@ =~= old(self)@.remove(index as int));
        }
    }
}

} // verus!
