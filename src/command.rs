use vstd::prelude::*;

use crate::mode::Action;

verus! {

/// The characters of `s` before its first space.
pub open spec fn first_word(s: Seq<char>) -> Seq<char>
    decreases s.len(),
{
    if s.len() == 0 || s[0] == ' ' {
        Seq::empty()
    } else {
        seq![s[0]] + first_word(s.drop_first())
    }
}

/// The action a command line names by its first word: `w` and `write`
/// save, `wq` saves and quits, `q` and `quit` quit; anything else does
/// nothing.
pub open spec fn action_of(word: Seq<char>) -> Action {
    if word == seq!['w'] || word == seq!['w', 'r', 'i', 't', 'e'] {
        Action::Save
    } else if word == seq!['w', 'q'] {
        Action::SaveAndQuit
    } else if word == seq!['q'] || word == seq!['q', 'u', 'i', 't'] {
        Action::Quit
    } else {
        Action::Nothing
    }
}

/// The first word of a command line: what comes before its first space.
pub fn command_word(line: &Vec<char>) -> (r: Vec<char>)
    ensures
        r@ == first_word(line@),
{
    let mut out: Vec<char> = Vec::new();
    let mut i: usize = 0;
    assert(line@.subrange(0, line@.len() as int) =~= line@);
    assert(out@ + first_word(line@) =~= first_word(line@));
    while i < line.len()
        invariant
            i <= line@.len(),
            first_word(line@) == out@ + first_word(line@.subrange(i as int, line@.len() as int)),
        ensures
            first_word(line@) == out@,
        decreases line@.len() - i,
    {
        let ghost rest = line@.subrange(i as int, line@.len() as int);
        if line[i] == ' ' {
            assert(out@ + first_word(rest) =~= out@);
            break;
        }
        assert(rest.drop_first() =~= line@.subrange(i + 1, line@.len() as int));
        assert(rest[0] == line@[i as int]);
        out.push(line[i]);
        assert(out@ + first_word(line@.subrange(i + 1, line@.len() as int)) =~= out@.drop_last() + (seq![line@[i as int]] + first_word(rest.drop_first())));
        i = i + 1;
    }
    out
}

/// The action named by a command line.
pub fn parse_command(line: &Vec<char>) -> (r: Action)
    ensures
        r == action_of(first_word(line@)),
{
    let word = command_word(line);
    let n = word.len();
    if (n == 1 && word[0] == 'w') || (n == 5 && word[0] == 'w' && word[1] == 'r' && word[2] == 'i' && word[3] == 't' && word[4] == 'e') {
        assert(word@ =~= seq!['w'] || word@ =~= seq!['w', 'r', 'i', 't', 'e']);
        Action::Save
    } else if n == 2 && word[0] == 'w' && word[1] == 'q' {
        assert(word@ =~= seq!['w', 'q']);
        Action::SaveAndQuit
    } else if (n == 1 && word[0] == 'q') || (n == 4 && word[0] == 'q' && word[1] == 'u' && word[2] == 'i' && word[3] == 't') {
        assert(word@ =~= seq!['q'] || word@ =~= seq!['q', 'u', 'i', 't']);
        Action::Quit
    } else {
        Action::Nothing
    }
}

} // verus!
