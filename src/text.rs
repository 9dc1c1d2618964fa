use vstd::prelude::*;

verus! {

/// The text of `lines` as it is written out: each line followed by one newline.
pub open spec fn join_lines(lines: Seq<Seq<char>>) -> Seq<char>
    decreases lines.len(),
{
    if lines.len() == 0 {
        Seq::empty()
    } else {
        join_lines(lines.drop_last()) + lines.last().push('\n')
    }
}

/// `text` with a newline appended unless it already ends with one.
pub open spec fn terminated(text: Seq<char>) -> Seq<char> {
    if text.len() > 0 && text.last() == '\n' {
        text
    } else {
        text.push('\n')
    }
}

/// No line of `lines` holds a newline character.
pub open spec fn newline_free(lines: Seq<Seq<char>>) -> bool {
    forall|i: int, j: int|
        0 <= i < lines.len() && 0 <= j < lines[i].len() ==> #[trigger] lines[i][j] != '\n'
}

/// `line` with `s` inserted before position `at`.
pub open spec fn splice(line: Seq<char>, at: int, s: Seq<char>) -> Seq<char> {
    line.subrange(0, at) + s + line.subrange(at, line.len() as int)
}

/// The pieces of `text` between newlines, read one character at a time:
/// a newline starts a new, empty piece; any other character extends the
/// last piece. There is always at least one piece.
pub open spec fn pieces(text: Seq<char>) -> Seq<Seq<char>>
    decreases text.len(),
{
    if text.len() == 0 {
        seq![Seq::empty()]
    } else {
        let before = pieces(text.drop_last());
        if text.last() == '\n' {
            before.push(Seq::empty())
        } else {
            before.update(before.len() - 1, before.last().push(text.last()))
        }
    }
}

/// The lines of `text`: its pieces between newlines, without the empty
/// piece that a final newline leaves behind.
pub open spec fn split_lines(text: Seq<char>) -> Seq<Seq<char>> {
    if text.len() > 0 && text.last() == '\n' {
        pieces(text).drop_last()
    } else {
        pieces(text)
    }
}

/// The pieces of a text: at least one, none holding a newline, and joined
/// back together (newlines between them) they give the text.
pub proof fn lemma_pieces(text: Seq<char>)
    ensures
        pieces(text).len() >= 1,
        newline_free(pieces(text)),
        join_lines(pieces(text).drop_last()) + pieces(text).last() == text,
        text.len() > 0 && text.last() == '\n' ==> pieces(text).last().len() == 0,
    decreases text.len(),
{
    if text.len() > 0 {
        let t = text.drop_last();
        lemma_pieces(t);
        let before = pieces(t);
        let s = pieces(text);
        if text.last() == '\n' {
            assert(s.drop_last() =~= before);
            assert(text =~= t.push('\n'));
            assert(join_lines(before) =~= (join_lines(before.drop_last()) + before.last()).push('\n'));
            assert(join_lines(s.drop_last()) + s.last() =~= join_lines(before));
        } else {
            assert(s.drop_last() =~= before.drop_last());
            assert(text =~= t.push(text.last()));
            assert(s.last() == before.last().push(text.last()));
            assert(join_lines(s.drop_last()) + s.last() =~= (join_lines(before.drop_last()) + before.last()).push(text.last()));
            assert forall|i: int, j: int| 0 <= i < s.len() && 0 <= j < s[i].len() implies #[trigger] s[i][j] != '\n' by {
                if i == s.len() - 1 && j == s[i].len() - 1 {
                } else {
                    assert(s[i][j] == before[i][j]);
                }
            }
        }
    }
}

/// The lines of any text form a non-empty sequence of lines without newlines.
pub proof fn lemma_split_lines(text: Seq<char>)
    ensures
        split_lines(text).len() >= 1,
        newline_free(split_lines(text)),
{
    lemma_pieces(text);
    if text.len() > 0 && text.last() == '\n' {
        let t = text.drop_last();
        lemma_pieces(t);
        assert(pieces(text).drop_last() =~= pieces(t));
    }
}

/// Writing out the lines of a text gives the text back, with one newline
/// appended where it did not already end with one.
pub proof fn lemma_join_split(text: Seq<char>)
    ensures
        join_lines(split_lines(text)) == terminated(text),
{
    lemma_pieces(text);
    let s = pieces(text);
    if text.len() > 0 && text.last() == '\n' {
        assert(s.last() =~= Seq::<char>::empty());
        assert(join_lines(s.drop_last()) + s.last() =~= join_lines(s.drop_last()));
    } else {
        assert(s.len() >= 1);
        assert(join_lines(s) =~= join_lines(s.drop_last()) + s.last().push('\n'));
        assert(join_lines(s) =~= text.push('\n'));
    }
}

proof fn lemma_pieces_extend(p: Seq<char>, l: Seq<char>)
    requires
        forall|j: int| 0 <= j < l.len() ==> l[j] != '\n',
    ensures
        pieces(p + l) == pieces(p).update(pieces(p).len() - 1, pieces(p).last() + l),
    decreases l.len(),
{
    lemma_pieces(p);
    if l.len() == 0 {
        assert(p + l =~= p);
        assert(pieces(p).last() + l =~= pieces(p).last());
        assert(pieces(p).update(pieces(p).len() - 1, pieces(p).last()) =~= pieces(p));
    } else {
        let l0 = l.drop_last();
        lemma_pieces_extend(p, l0);
        assert((p + l).drop_last() =~= p + l0);
        assert((p + l).last() == l.last());
        assert(l[l.len() - 1] != '\n');
        let k = pieces(p).len() - 1;
        let before = pieces(p + l0);
        assert(before.len() == pieces(p).len());
        assert(before.last() == pieces(p).last() + l0);
        assert(pieces(p).last() + l0 + seq![l.last()] =~= pieces(p).last() + l);
        assert(pieces(p + l) == before.update(k, before.last().push(l.last())));
        assert(before.last().push(l.last()) =~= pieces(p).last() + l);
        assert(pieces(p + l) =~= pieces(p).update(pieces(p).len() - 1, pieces(p).last() + l));
    }
}

proof fn lemma_pieces_join(lines: Seq<Seq<char>>)
    requires
        newline_free(lines),
    ensures
        pieces(join_lines(lines)) == lines.push(Seq::empty()),
    decreases lines.len(),
{
    if lines.len() > 0 {
        let rest = lines.drop_last();
        let l = lines.last();
        assert(newline_free(rest)) by {
            assert forall|i: int, j: int| 0 <= i < rest.len() && 0 <= j < rest[i].len() implies #[trigger] rest[i][j] != '\n' by {
                assert(rest[i] == lines[i]);
            }
        }
        lemma_pieces_join(rest);
        assert forall|j: int| 0 <= j < l.len() implies l[j] != '\n' by {
            assert(l[j] == lines[lines.len() - 1][j]);
        }
        lemma_pieces_extend(join_lines(rest), l);
        let joined = join_lines(lines);
        assert(joined =~= (join_lines(rest) + l).push('\n'));
        assert(joined.drop_last() =~= join_lines(rest) + l);
        assert(Seq::<char>::empty() + l =~= l);
        assert(rest.push(Seq::empty()).update(rest.len() as int, Seq::<char>::empty() + l) =~= lines);
        assert(pieces(joined) =~= lines.push(Seq::empty()));
    }
}

/// Reading back the written-out text of a non-empty sequence of lines
/// without newlines gives the same lines.
pub proof fn lemma_split_join(lines: Seq<Seq<char>>)
    requires
        lines.len() >= 1,
        newline_free(lines),
    ensures
        split_lines(join_lines(lines)) == lines,
{
    lemma_pieces_join(lines);
    let joined = join_lines(lines);
    assert(joined.len() > 0 && joined.last() == '\n');
    assert(lines.push(Seq::empty()).drop_last() =~= lines);
}

} // verus!
