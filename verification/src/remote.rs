//! The remote-repository side of the review workflow: resolving the target
//! repository from the version-control remote URL, and qualifying the head
//! reference for the fork workflow.

use vstd::prelude::*;

use crate::text::{lemma_split_on_len, split_on, split_str, trim, trim_spec};

verus! {

/// `s` begins with `p`.
pub open spec fn starts_with_spec(s: Seq<char>, p: Seq<char>) -> bool {
    p.len() <= s.len() && s.take(p.len() as int) == p
}

/// `s` ends with `p`.
pub open spec fn ends_with_spec(s: Seq<char>, p: Seq<char>) -> bool {
    p.len() <= s.len() && s.skip(s.len() - p.len()) == p
}

/// `s` with every copy of the prefix `p` removed from its front.
pub open spec fn strip_prefix_all(s: Seq<char>, p: Seq<char>) -> Seq<char>
    decreases s.len(),
{
    if p.len() > 0 && starts_with_spec(s, p) {
        strip_prefix_all(s.skip(p.len() as int), p)
    } else {
        s
    }
}

/// `s` with every copy of the suffix `p` removed from its back.
pub open spec fn strip_suffix_all(s: Seq<char>, p: Seq<char>) -> Seq<char>
    decreases s.len(),
{
    if p.len() > 0 && ends_with_spec(s, p) {
        strip_suffix_all(s.take(s.len() - p.len()), p)
    } else {
        s
    }
}

/// Owner and repository parsed from a remote URL. Both URL styles of the
/// hosting provider are supported: `https://github.com/owner/repo.git` and
/// `git@github.com:owner/repo.git`.
pub open spec fn parse_remote_spec(url: Seq<char>) -> Option<(Seq<char>, Seq<char>)> {
    let u = trim_spec(url);
    let body = if starts_with_spec(u, "https://"@) {
        strip_suffix_all(strip_prefix_all(u, "https://github.com/"@), ".git"@)
    } else {
        strip_suffix_all(strip_prefix_all(u, "git@github.com:"@), ".git"@)
    };
    let parts = split_on(body, '/');
    if parts.len() == 2 {
        Some((parts[0], parts[1]))
    } else {
        None
    }
}

/// The repository a pull request is opened against.
pub struct RepoTarget {
    pub owner: String,
    pub repo: String,
}

fn starts_with(s: &str, p: &str) -> (b: bool)
    ensures
        b == starts_with_spec(s@, p@),
{
    let np = p.unicode_len();
    let ns = s.unicode_len();
    if np > ns {
        return false;
    }
    let mut i: usize = 0;
    while i < np
        invariant
            i <= np,
            np <= ns,
            np == p@.len(),
            ns == s@.len(),
            forall|j: int| 0 <= j < i ==> s@[j] == p@[j],
        decreases np - i,
    {
        if s.get_char(i) != p.get_char(i) {
            proof {
                assert(s@.take(np as int)[i as int] != p@[i as int]);
            }
            return false;
        }
        i += 1;
    }
    proof {
        assert(s@.take(np as int) =~= p@);
    }
    true
}

fn ends_with(s: &str, p: &str) -> (b: bool)
    ensures
        b == ends_with_spec(s@, p@),
{
    let np = p.unicode_len();
    let ns = s.unicode_len();
    if np > ns {
        return false;
    }
    let off = ns - np;
    let mut i: usize = 0;
    while i < np
        invariant
            i <= np,
            np <= ns,
            off == ns - np,
            np == p@.len(),
            ns == s@.len(),
            forall|j: int| 0 <= j < i ==> s@[off + j] == p@[j],
        decreases np - i,
    {
        if s.get_char(off + i) != p.get_char(i) {
            proof {
                assert(s@.skip(s@.len() - p@.len())[i as int] != p@[i as int]);
            }
            return false;
        }
        i += 1;
    }
    proof {
        assert(s@.skip(s@.len() - p@.len()) =~= p@);
    }
    true
}

fn strip_prefix_repeated<'a>(s: &'a str, p: &str) -> (r: &'a str)
    ensures
        r@ == strip_prefix_all(s@, p@),
    decreases s@.len(),
{
    let np = p.unicode_len();
    if np > 0 && starts_with(s, p) {
        let n = s.unicode_len();
        let rest = s.substring_char(np, n);
        proof {
            assert(rest@ =~= s@.skip(p@.len() as int));
        }
        strip_prefix_repeated(rest, p)
    } else {
        s
    }
}

fn strip_suffix_repeated<'a>(s: &'a str, p: &str) -> (r: &'a str)
    ensures
        r@ == strip_suffix_all(s@, p@),
    decreases s@.len(),
{
    let np = p.unicode_len();
    if np > 0 && ends_with(s, p) {
        let n = s.unicode_len();
        let rest = s.substring_char(0, n - np);
        proof {
            assert(rest@ =~= s@.take(s@.len() - p@.len()));
        }
        strip_suffix_repeated(rest, p)
    } else {
        s
    }
}

/// Resolve the target repository from the remote URL, or nothing when the
/// URL does not name exactly an owner and a repository.
pub fn parse_remote_url(url: &str) -> (r: Option<RepoTarget>)
    ensures
        ({
            match parse_remote_spec(url@) {
                Option::Some(t) => r matches Some(rt) && rt.owner@ == t.0 && rt.repo@ == t.1,
                Option::None => r is None,
            }
        }),
{
    let u = trim(url);
    let body = if starts_with(u, "https://") {
        strip_suffix_repeated(strip_prefix_repeated(u, "https://github.com/"), ".git")
    } else {
        strip_suffix_repeated(strip_prefix_repeated(u, "git@github.com:"), ".git")
    };
    let parts = split_str(body, '/');
    proof {
        lemma_split_on_len(body@, '/');
        assert(parts.deep_view().len() == parts.len());
    }
    if parts.len() == 2 {
        let owner = (&parts[0]).clone();
        let repo = (&parts[1]).clone();
        Some(RepoTarget { owner, repo })
    } else {
        None
    }
}

/// The owner-qualified head reference used in the fork workflow:
/// `<acting-user>:<branch>`.
pub fn qualified_head(acting_user: &str, branch: &str) -> (r: String)
    ensures
        r@ == acting_user@ + ":"@ + branch@,
{
    let mut out = acting_user.to_owned();
    out.append(":");
    out.append(branch);
    out
}

} // verus!
