//! Joining the text nodes of an element into one string.

use vstd::prelude::*;
use vstd::string::StringExecFns;

verus! {

/// The pieces of `parts` in order, with `sep` between each two neighbours.
pub open spec fn joined(parts: Seq<Seq<char>>, sep: Seq<char>) -> Seq<char>
    decreases parts.len(),
{
    if parts.len() == 0 {
        Seq::empty()
    } else if parts.len() == 1 {
        parts[0]
    } else {
        joined(parts.drop_last(), sep) + sep + parts.last()
    }
}

/// The first piece of `parts`, or the empty text where there is none.
pub open spec fn first_or_empty(parts: Seq<Seq<char>>) -> Seq<char> {
    if parts.len() == 0 {
        Seq::empty()
    } else {
        parts[0]
    }
}

/// Joins `parts` with `sep` between neighbours.
pub fn join_text(parts: &Vec<String>, sep: &str) -> (out: String)
    ensures
        out@ == joined(parts.deep_view(), sep@),
{
    let mut out = String::new();
    let mut i: usize = 0;
    while i < parts.len()
        invariant
            i <= parts.len(),
            out@ == joined(parts.deep_view().take(i as int), sep@),
        decreases parts.len() - i,
    {
        if i > 0 {
            out.append(sep);
        }
        out.append(parts[i].as_str());
        proof {
            let all = parts.deep_view();
            assert(all.take(i + 1).drop_last() == all.take(i as int));
            assert(all.take(i + 1).last() == parts[i as int]@);
        }
        i += 1;
    }
    proof {
        assert(parts.deep_view().take(i as int) == parts.deep_view());
    }
    out
}

/// The first text node of an element, or the empty string where it has none.
pub fn first_text(parts: &Vec<String>) -> (out: String)
    ensures
        out@ == first_or_empty(parts.deep_view()),
{
    if parts.len() == 0 {
        String::new()
    } else {
        parts[0].clone()
    }
}

} // verus!
