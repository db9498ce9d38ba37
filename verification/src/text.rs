//! Small helpers on text.

use vstd::prelude::*;

verus! {

/// The parts of `parts`, joined with `separator` between neighbours.
pub open spec fn join(parts: Seq<Seq<char>>, separator: Seq<char>) -> Seq<char>
    decreases parts.len(),
{
    if parts.len() == 0 {
        Seq::empty()
    } else if parts.len() == 1 {
        parts[0]
    } else {
        join(parts.drop_last(), separator) + separator + parts.last()
    }
}

/// The lines of `lines`, joined with one newline between neighbours.
pub open spec fn join_lines(lines: Seq<Seq<char>>) -> Seq<char> {
    join(lines, seq!['\n'])
}

/// Whether two string slices hold the same characters.
pub fn same_text(a: &str, b: &str) -> (r: bool)
    ensures
        r == (a@ == b@),
{
    a.to_owned() == b.to_owned()
}

/// Appends `part` to `out` as one more part of a joined text: after the
/// separator, unless it is the first. `any` says whether `out` holds a part
/// already.
pub(crate) fn push_joined(
    out: &mut String,
    any: bool,
    parts: Ghost<Seq<Seq<char>>>,
    separator: &str,
    part: &str,
)
    requires
        old(out)@ == join(parts@, separator@),
        any == (parts@.len() > 0),
    ensures
        final(out)@ == join(parts@.push(part@), separator@),
{
    proof {
        assert(parts@.push(part@).drop_last() =~= parts@);
    }
    if any {
        out.append(separator);
    }
    out.append(part);
}

/// Appends `line` to `out` as one more line: after a newline, unless it is
/// the first. `any` says whether `out` holds a line already.
pub(crate) fn push_line(out: &mut String, any: bool, lines: Ghost<Seq<Seq<char>>>, line: &str)
    requires
        old(out)@ == join_lines(lines@),
        any == (lines@.len() > 0),
    ensures
        final(out)@ == join_lines(lines@.push(line@)),
{
    proof {
        reveal_strlit("\n");
        assert("\n"@ =~= seq!['\n']);
    }
    push_joined(out, any, lines, "\n", line);
}

} // verus!
