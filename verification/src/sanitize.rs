//! Sanitization of generated text.
//!
//! The backend is instructed not to wrap its output in markdown fences, but
//! may ignore that. When the trimmed text both starts and ends with a
//! triple-backtick fence, the fences are removed, every line is trimmed, and
//! empty lines are dropped. Otherwise only outer whitespace is trimmed: a
//! partial, one-sided fence is deliberately left alone.

use vstd::prelude::*;

use crate::text::{
    clean_lines_from, clean_lines_spec, fence_free, has_fence_at, is_fenced, join_lines,
    join_lines_from, lemma_clean_lines_clean, lemma_join_clean, lemma_split_pieces_fence_free,
    lemma_strip_ticks_fence_free, lemma_trim_empty, lemma_trim_idempotent, lemma_trim_of_clean,
    split_on, split_str, strip_ticks, strip_ticks_spec, trim, trim_spec,
};

verus! {

/// The sanitized form of a generated message.
pub open spec fn sanitize_spec(s: Seq<char>) -> Seq<char> {
    let t = trim_spec(s);
    if is_fenced(t) {
        join_lines(clean_lines_spec(split_on(strip_ticks_spec(t), '\n')))
    } else {
        t
    }
}

/// Remove unwanted formatting from a generated commit message.
pub fn clean_commit_message(message: &str) -> (r: String)
    ensures
        r@ == sanitize_spec(message@),
{
    let t = trim(message);
    let n = t.unicode_len();
    let fenced = n >= 3 && t.get_char(0) == '`' && t.get_char(1) == '`' && t.get_char(2) == '`'
        && t.get_char(n - 3) == '`' && t.get_char(n - 2) == '`' && t.get_char(n - 1) == '`';
    proof {
        assert(fenced == is_fenced(trim_spec(message@)));
    }
    if fenced {
        let stripped = strip_ticks(t);
        let lines = split_str(stripped.as_str(), '\n');
        let cleaned = clean_lines_from(&lines, 0);
        let joined = join_lines_from(&cleaned, 0);
        proof {
            assert(lines.deep_view().skip(0) =~~= lines.deep_view());
            assert(cleaned.deep_view().skip(0) =~~= cleaned.deep_view());
        }
        joined
    } else {
        t.to_owned()
    }
}

/// A message sanitized from a fenced response retains no triple-backtick
/// fence anywhere, in particular none at its boundaries.
pub proof fn lemma_sanitize_fenced_fence_free(s: Seq<char>)
    requires
        is_fenced(trim_spec(s)),
    ensures
        fence_free(sanitize_spec(s)),
{
    let t = trim_spec(s);
    lemma_strip_ticks_fence_free(t);
    lemma_split_pieces_fence_free(strip_ticks_spec(t), '\n');
    lemma_clean_lines_clean(split_on(strip_ticks_spec(t), '\n'));
    lemma_join_clean(clean_lines_spec(split_on(strip_ticks_spec(t), '\n')));
}

/// Sanitization is idempotent: applying it twice yields the same result as
/// applying it once, for fenced and unfenced inputs alike.
pub proof fn lemma_sanitize_idempotent(s: Seq<char>)
    ensures
        sanitize_spec(sanitize_spec(s)) == sanitize_spec(s),
{
    let t = trim_spec(s);
    if is_fenced(t) {
        let u = strip_ticks_spec(t);
        lemma_strip_ticks_fence_free(t);
        let ls = split_on(u, '\n');
        lemma_split_pieces_fence_free(u, '\n');
        let cl = clean_lines_spec(ls);
        lemma_clean_lines_clean(ls);
        let r = join_lines(cl);
        lemma_join_clean(cl);
        if r.len() == 0 {
            lemma_trim_empty();
            assert(sanitize_spec(r) =~= r);
        } else {
            lemma_trim_of_clean(r);
            assert(!is_fenced(r)) by {
                if is_fenced(r) {
                    assert(has_fence_at(r, 0));
                }
            }
            assert(sanitize_spec(r) == r);
        }
    } else {
        lemma_trim_idempotent(s);
        assert(sanitize_spec(t) == t);
    }
}

} // verus!
