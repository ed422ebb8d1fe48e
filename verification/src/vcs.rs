//! Interpretation of version-control output consumed by the pipeline: the
//! current branch name and the commit subjects since a base reference.

use vstd::prelude::*;

use crate::text::{split_on, split_str, trim, trim_spec};

verus! {

/// A line with a trailing carriage return removed.
pub open spec fn line_without_cr(l: Seq<char>) -> Seq<char> {
    if l.len() > 0 && l[l.len() - 1] == '\r' {
        l.take(l.len() - 1)
    } else {
        l
    }
}

/// The lines of `s`: split on line feeds, a trailing empty piece dropped,
/// and a trailing carriage return removed from each line. Empty output has
/// no lines.
pub open spec fn lines_spec(s: Seq<char>) -> Seq<Seq<char>> {
    let p = split_on(s, '\n');
    let q = if p.len() > 0 && p[p.len() - 1].len() == 0 {
        p.take(p.len() - 1)
    } else {
        p
    };
    q.map_values(|l: Seq<char>| line_without_cr(l))
}

fn strip_trailing_cr(l: &str) -> (r: &str)
    ensures
        r@ == line_without_cr(l@),
{
    let n = l.unicode_len();
    if n > 0 && l.get_char(n - 1) == '\r' {
        let r = l.substring_char(0, n - 1);
        proof {
            assert(r@ =~= l@.take(l@.len() - 1));
        }
        r
    } else {
        l
    }
}

/// The commit subject lines between a base reference and the current
/// position, as printed by the log query: one subject per line.
pub fn parse_commit_subjects(output: &str) -> (r: Vec<String>)
    ensures
        r.deep_view() == lines_spec(output@),
{
    let pieces = split_str(output, '\n');
    let total = pieces.len();
    proof {
        assert(pieces.deep_view().len() == total);
    }
    let limit = if total > 0 && (&pieces[total - 1]).unicode_len() == 0 {
        total - 1
    } else {
        total
    };
    let mut out: Vec<String> = Vec::new();
    let mut i: usize = 0;
    while i < limit
        invariant
            i <= limit,
            limit <= total,
            total == pieces.deep_view().len(),
            out.deep_view().len() == i,
            forall|j: int|
                0 <= j < i ==> out.deep_view()[j] == line_without_cr(#[trigger] pieces.deep_view()[j]),
        decreases limit - i,
    {
        let line = strip_trailing_cr((&pieces[i]).as_str()).to_owned();
        out.push(line);
        i += 1;
    }
    proof {
        let p = split_on(output@, '\n');
        let q = if p.len() > 0 && p[p.len() - 1].len() == 0 {
            p.take(p.len() - 1)
        } else {
            p
        };
        assert(q.len() == limit);
        assert(out.deep_view() =~~= q.map_values(|l: Seq<char>| line_without_cr(l)));
    }
    out
}

/// The current branch name as printed by the branch query: the output with
/// outer whitespace trimmed.
pub fn parse_branch_name(output: &str) -> (r: String)
    ensures
        r@ == trim_spec(output@),
{
    trim(output).to_owned()
}

} // verus!
