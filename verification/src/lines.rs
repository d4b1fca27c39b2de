//! Texts made of lines, each ended by a line feed.

use vstd::prelude::*;

verus! {

/// The lines of a text joined into one, each followed by a line feed.
pub open spec fn join_lines(lines: Seq<Seq<char>>) -> Seq<char>
    decreases lines.len(),
{
    if lines.len() == 0 {
        Seq::empty()
    } else {
        join_lines(lines.drop_last()) + lines.last() + "\n"@
    }
}

/// Joining distributes over concatenation.
pub proof fn lemma_join_lines_concat(first: Seq<Seq<char>>, second: Seq<Seq<char>>)
    ensures
        join_lines(first + second) == join_lines(first) + join_lines(second),
    decreases second.len(),
{
    if second.len() == 0 {
        assert(first + second =~= first);
        assert(join_lines(first) + join_lines(second) =~= join_lines(first));
    } else {
        lemma_join_lines_concat(first, second.drop_last());
        assert((first + second).drop_last() =~= first + second.drop_last());
        assert((first + second).last() == second.last());
        assert(join_lines(first + second) =~= join_lines(first) + join_lines(second));
    }
}

/// A single line joined is the line and a line feed.
pub proof fn lemma_join_lines_single(line: Seq<char>)
    ensures
        join_lines(seq![line]) == line + "\n"@,
{
    let lines = seq![line];
    assert(lines.drop_last() =~= Seq::<Seq<char>>::empty());
    assert(join_lines(lines.drop_last()) =~= Seq::<char>::empty());
    assert(join_lines(lines) =~= line + "\n"@);
}

/// A text without a line feed.
pub open spec fn is_single_line(text: Seq<char>) -> bool {
    forall|i: int| 0 <= i < text.len() ==> text[i] != '\n'
}

/// The lines of `rest`, the first of them with `current` in front. A line
/// ends at a line feed; what follows the last line feed is a line only if
/// it is not empty.
pub open spec fn split_lines(current: Seq<char>, rest: Seq<char>) -> Seq<Seq<char>>
    decreases rest.len(),
{
    if rest.len() == 0 {
        if current.len() == 0 {
            Seq::empty()
        } else {
            seq![current]
        }
    } else if rest[0] == '\n' {
        seq![current] + split_lines(Seq::empty(), rest.skip(1))
    } else {
        split_lines(current.push(rest[0]), rest.skip(1))
    }
}

/// The lines that a text is read as.
pub open spec fn lines_of(text: Seq<char>) -> Seq<Seq<char>> {
    split_lines(Seq::empty(), text)
}

/// A text that starts with a line and a line feed is read as that line and
/// the lines of what follows.
pub proof fn lemma_split_first_line(current: Seq<char>, line: Seq<char>, rest: Seq<char>)
    requires
        is_single_line(line),
    ensures
        split_lines(current, line + "\n"@ + rest) == seq![current + line] + lines_of(rest),
    decreases line.len(),
{
    reveal_strlit("\n");
    let text = line + "\n"@ + rest;
    assert("\n"@ =~= seq!['\n']);
    if line.len() == 0 {
        assert(text[0] == '\n');
        assert(text.skip(1) =~= rest);
        assert(current + line =~= current);
    } else {
        assert(text[0] == line[0]);
        assert(text.skip(1) =~= line.skip(1) + "\n"@ + rest);
        assert(is_single_line(line.skip(1))) by {
            assert forall|i: int| 0 <= i < line.skip(1).len() implies line.skip(1)[i] != '\n' by {
                assert(line.skip(1)[i] == line[i + 1]);
            }
        }
        lemma_split_first_line(current.push(line[0]), line.skip(1), rest);
        assert(current.push(line[0]) + line.skip(1) =~= current + line);
    }
}

/// Lines without line feeds, joined and read again, are the same lines.
pub proof fn lemma_lines_of_joined(lines: Seq<Seq<char>>)
    requires
        forall|i: int| 0 <= i < lines.len() ==> is_single_line(#[trigger] lines[i]),
    ensures
        lines_of(join_lines(lines)) == lines,
    decreases lines.len(),
{
    if lines.len() == 0 {
        assert(lines =~= Seq::<Seq<char>>::empty());
    } else {
        let first = lines[0];
        let others = lines.skip(1);
        assert(lines =~= seq![first] + others);
        lemma_join_lines_concat(seq![first], others);
        lemma_join_lines_single(first);
        assert forall|i: int| 0 <= i < others.len() implies is_single_line(
            #[trigger] others[i],
        ) by {
            assert(others[i] == lines[i + 1]);
        }
        lemma_lines_of_joined(others);
        lemma_split_first_line(Seq::empty(), first, join_lines(others));
        assert(Seq::<char>::empty() + first =~= first);
    }
}

} // verus!
