use vstd::prelude::*;

verus! {

/// The characters of all `lines`, one after the other.
pub open spec fn joined(lines: Seq<String>) -> Seq<char>
    decreases lines.len(),
{
    if lines.len() == 0 {
        Seq::empty()
    } else {
        joined(lines.drop_last()) + lines.last()@
    }
}

/// `lines` cuts text into lines that each keep their line feed: no line is
/// empty, a line feed ends each line and stands nowhere else, and only the
/// last line may lack one.
pub open spec fn are_lines_with_endings(lines: Seq<String>) -> bool {
    &&& forall|i: int| 0 <= i < lines.len() ==> #[trigger] lines[i]@.len() > 0
    &&& forall|i: int, j: int|
        0 <= i < lines.len() && 0 <= j < lines[i]@.len() - 1 ==> #[trigger] lines[i]@[j] != '\n'
    &&& forall|i: int| 0 <= i < lines.len() - 1 ==> #[trigger] lines[i]@.last() == '\n'
}

/// The lines of `s`, each with its line feed: a line feed ends a line, and a
/// character after a line feed (or at the start) opens a new one.
pub open spec fn lines_of(s: Seq<char>) -> Seq<Seq<char>>
    decreases s.len(),
{
    if s.len() == 0 {
        Seq::empty()
    } else {
        let prev = lines_of(s.drop_last());
        let c = s.last();
        if prev.len() > 0 && prev.last().last() != '\n' {
            prev.drop_last().push(prev.last().push(c))
        } else {
            prev.push(seq![c])
        }
    }
}

/// The text of each line.
pub open spec fn line_views(lines: Seq<String>) -> Seq<Seq<char>> {
    lines.map_values(|l: String| l@)
}

proof fn lemma_joined_push(lines: Seq<String>, l: String)
    ensures
        joined(lines.push(l)) == joined(lines) + l@,
{
    assert(lines.push(l).drop_last() =~= lines);
}

/// Relies on String::push: appends one character.
pub assume_specification[ String::push ](s: &mut String, ch: char)
    ensures
        final(s)@ == old(s)@.push(ch),
;

/// Splits `s` into lines, each with its line feed, as a tokenizer that reads
/// one line at a time needs them.
pub fn lines_with_endings(s: &str) -> (r: Vec<String>)
    ensures
        joined(r@) == s@,
        are_lines_with_endings(r@),
        line_views(r@) == lines_of(s@),
{
    let mut r: Vec<String> = Vec::new();
    let mut line = String::new();
    let mut pending = false;
    for c in it: s.chars()
        invariant
            pending == (line@.len() > 0),
            it.seq() == s@,
            joined(r@) + line@ == s@.subrange(0, it.index() as int),
            are_lines_with_endings(r@),
            r@.len() > 0 ==> r@.last()@.last() == '\n',
            forall|j: int| 0 <= j < line@.len() ==> line@[j] != '\n',
            pending ==> lines_of(s@.subrange(0, it.index() as int)) == line_views(r@).push(line@),
            !pending ==> lines_of(s@.subrange(0, it.index() as int)) == line_views(r@),
    {
        let ghost before = line@;
        let ghost was_pending = pending;
        line.push(c);
        pending = true;
        proof {
            let pre = s@.subrange(0, it.index() as int);
            let next = s@.subrange(0, it.index() + 1);
            assert(c == it.seq()[it.index() as int]);
            assert(next =~= pre.push(c));
            assert(next.drop_last() =~= pre);
            assert(joined(r@) + line@ =~= (joined(r@) + before).push(c));
            let p = lines_of(pre);
            if was_pending {
                assert(p.last() == before);
                assert(before.last() != '\n');
                assert(p.drop_last() =~= line_views(r@));
                assert(lines_of(next) =~= line_views(r@).push(line@));
            } else {
                assert(before.len() == 0);
                assert(line@ =~= seq![c]);
                if p.len() > 0 {
                    assert(p.last() == r@.last()@);
                }
                assert(lines_of(next) =~= line_views(r@).push(line@));
            }
        }
        if c == '\n' {
            proof {
                lemma_joined_push(r@, line);
                assert(line_views(r@.push(line)) =~= line_views(r@).push(line@));
            }
            r.push(line);
            line = String::new();
            pending = false;
            proof {
                assert(joined(r@) + line@ =~= joined(r@));
            }
        }
    }
    proof {
        assert(s@.subrange(0, s@.len() as int) =~= s@);
    }
    if pending {
        proof {
            lemma_joined_push(r@, line);
            assert(line_views(r@.push(line)) =~= line_views(r@).push(line@));
        }
        r.push(line);
    } else {
        assert(joined(r@) + line@ =~= joined(r@));
    }
    r
}

} // verus!
