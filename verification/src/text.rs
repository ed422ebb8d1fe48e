//! Character-level text model shared by the pipeline.
//!
//! All string-processing contracts of the library are stated over the spec
//! functions defined here: whitespace trimming, splitting on a separator,
//! joining lines, and removal of triple-backtick fences.

use vstd::prelude::*;

verus! {

/// The whitespace characters the pipeline trims: the ASCII blank, tab,
/// line feed and carriage return.
pub open spec fn is_ws_char(c: char) -> bool {
    c == ' ' || c == '\t' || c == '\n' || c == '\r'
}

/// `s` without its leading whitespace.
pub open spec fn trim_start_spec(s: Seq<char>) -> Seq<char>
    decreases s.len(),
{
    if s.len() > 0 && is_ws_char(s[0]) {
        trim_start_spec(s.skip(1))
    } else {
        s
    }
}

/// `s` without its trailing whitespace.
pub open spec fn trim_end_spec(s: Seq<char>) -> Seq<char>
    decreases s.len(),
{
    if s.len() > 0 && is_ws_char(s[s.len() - 1]) {
        trim_end_spec(s.take(s.len() - 1))
    } else {
        s
    }
}

/// `s` without leading and trailing whitespace.
pub open spec fn trim_spec(s: Seq<char>) -> Seq<char> {
    trim_end_spec(trim_start_spec(s))
}

pub proof fn lemma_trim_start_head(s: Seq<char>)
    ensures
        trim_start_spec(s).len() > 0 ==> !is_ws_char(trim_start_spec(s)[0]),
    decreases s.len(),
{
    if s.len() > 0 && is_ws_char(s[0]) {
        lemma_trim_start_head(s.skip(1));
    }
}

pub proof fn lemma_trim_end_last(s: Seq<char>)
    ensures
        trim_end_spec(s).len() > 0 ==> !is_ws_char(
            trim_end_spec(s)[trim_end_spec(s).len() - 1],
        ),
    decreases s.len(),
{
    if s.len() > 0 && is_ws_char(s[s.len() - 1]) {
        lemma_trim_end_last(s.take(s.len() - 1));
    }
}

/// Trimming from the end keeps the first character in place.
pub proof fn lemma_trim_end_head(s: Seq<char>)
    ensures
        trim_end_spec(s).len() > 0 ==> trim_end_spec(s)[0] == s[0],
    decreases s.len(),
{
    if s.len() > 0 && is_ws_char(s[s.len() - 1]) {
        lemma_trim_end_head(s.take(s.len() - 1));
    }
}

/// A string whose ends hold no whitespace is left unchanged by trimming.
pub proof fn lemma_trim_of_clean(s: Seq<char>)
    requires
        s.len() > 0,
        !is_ws_char(s[0]),
        !is_ws_char(s[s.len() - 1]),
    ensures
        trim_spec(s) == s,
{
    assert(trim_start_spec(s) == s);
    assert(trim_end_spec(s) == s);
}

pub proof fn lemma_trim_empty()
    ensures
        trim_spec(Seq::<char>::empty()) == Seq::<char>::empty(),
{
    assert(trim_start_spec(Seq::<char>::empty()) == Seq::<char>::empty());
}

/// Trimming is idempotent.
pub proof fn lemma_trim_idempotent(s: Seq<char>)
    ensures
        trim_spec(trim_spec(s)) == trim_spec(s),
{
    let t = trim_spec(s);
    if t.len() == 0 {
        lemma_trim_empty();
    } else {
        lemma_trim_start_head(s);
        lemma_trim_end_head(trim_start_spec(s));
        lemma_trim_end_last(trim_start_spec(s));
        lemma_trim_of_clean(t);
    }
}

/// A triple-backtick fence starts at position `i` of `s`.
pub open spec fn has_fence_at(s: Seq<char>, i: int) -> bool {
    0 <= i && i + 3 <= s.len() && s[i] == '`' && s[i + 1] == '`' && s[i + 2] == '`'
}

/// `s` holds no triple-backtick fence anywhere.
pub open spec fn fence_free(s: Seq<char>) -> bool {
    forall|i: int| !has_fence_at(s, i)
}

/// `t` both starts and ends with a triple-backtick fence.
pub open spec fn is_fenced(t: Seq<char>) -> bool {
    t.len() >= 3 && t[0] == '`' && t[1] == '`' && t[2] == '`' && t[t.len() - 3] == '`' && t[t.len()
        - 2] == '`' && t[t.len() - 1] == '`'
}

/// `s` with every occurrence of a triple backtick removed, scanning from the
/// left without overlap.
pub open spec fn strip_ticks_spec(s: Seq<char>) -> Seq<char>
    decreases s.len(),
{
    if s.len() < 3 {
        s
    } else if has_fence_at(s, 0) {
        strip_ticks_spec(s.skip(3))
    } else {
        seq![s[0]] + strip_ticks_spec(s.skip(1))
    }
}

/// When `s` does not open with a fence, stripping keeps its first character.
pub proof fn lemma_strip_ticks_head(s: Seq<char>)
    requires
        s.len() > 0,
        !has_fence_at(s, 0),
    ensures
        strip_ticks_spec(s).len() > 0,
        strip_ticks_spec(s)[0] == s[0],
{
}

/// The result of stripping holds no triple backtick.
pub proof fn lemma_strip_ticks_fence_free(s: Seq<char>)
    ensures
        fence_free(strip_ticks_spec(s)),
    decreases s.len(),
{
    if s.len() < 3 {
        assert forall|i: int| !has_fence_at(strip_ticks_spec(s), i) by {}
    } else if has_fence_at(s, 0) {
        lemma_strip_ticks_fence_free(s.skip(3));
    } else {
        lemma_strip_ticks_fence_free(s.skip(1));
        let t = strip_ticks_spec(s.skip(1));
        let out = strip_ticks_spec(s);
        assert(out == seq![s[0]] + t);
        assert forall|i: int| !has_fence_at(out, i) by {
            if has_fence_at(out, i) {
                if i >= 1 {
                    assert(has_fence_at(t, i - 1));
                } else {
                    // i == 0: out[0] == s[0], out[1] == t[0], out[2] == t[1].
                    assert(s[0] == '`');
                    assert(!(s[1] == '`' && s[2] == '`'));
                    if s[1] != '`' {
                        assert(!has_fence_at(s.skip(1), 0));
                        lemma_strip_ticks_head(s.skip(1));
                        assert(t[0] == s[1]);
                    } else {
                        // s[1] == '`' and s[2] != '`'
                        assert(!has_fence_at(s.skip(1), 0));
                        lemma_strip_ticks_head(s.skip(1));
                        assert(t[0] == s[1]);
                        // t[1] is the head of stripping s.skip(2), which is s[2].
                        if s.skip(1).len() < 3 {
                            assert(t == s.skip(1));
                            assert(t[1] == s[2]);
                        } else {
                            assert(t == seq![s.skip(1)[0]] + strip_ticks_spec(s.skip(1).skip(1)));
                            assert(s.skip(1).skip(1) =~= s.skip(2));
                            assert(!has_fence_at(s.skip(2), 0));
                            lemma_strip_ticks_head(s.skip(2));
                            assert(t[1] == s[2]);
                        }
                        assert(s[2] != '`');
                    }
                }
            }
        }
    }
}

/// `s` split on the separator `sep`; always at least one piece.
pub open spec fn split_on(s: Seq<char>, sep: char) -> Seq<Seq<char>>
    decreases s.len(),
{
    if s.len() == 0 {
        seq![Seq::<char>::empty()]
    } else if s[0] == sep {
        seq![Seq::<char>::empty()] + split_on(s.skip(1), sep)
    } else {
        let rest = split_on(s.skip(1), sep);
        seq![seq![s[0]] + rest[0]] + rest.skip(1)
    }
}

pub proof fn lemma_split_on_len(s: Seq<char>, sep: char)
    ensures
        split_on(s, sep).len() >= 1,
    decreases s.len(),
{
    if s.len() > 0 {
        lemma_split_on_len(s.skip(1), sep);
    }
}

/// The first piece of a split is a prefix of `s`.
pub proof fn lemma_split_first_prefix(s: Seq<char>, sep: char)
    ensures
        split_on(s, sep)[0].len() <= s.len(),
        forall|j: int|
            0 <= j < split_on(s, sep)[0].len() ==> #[trigger] split_on(s, sep)[0][j] == s[j],
    decreases s.len(),
{
    if s.len() == 0 {
    } else if s[0] == sep {
    } else {
        lemma_split_first_prefix(s.skip(1), sep);
        lemma_split_on_len(s.skip(1), sep);
    }
}

/// Splitting a fence-free string yields fence-free pieces.
pub proof fn lemma_split_pieces_fence_free(s: Seq<char>, sep: char)
    requires
        fence_free(s),
    ensures
        forall|k: int|
            0 <= k < split_on(s, sep).len() ==> fence_free(#[trigger] split_on(s, sep)[k]),
    decreases s.len(),
{
    let ps = split_on(s, sep);
    if s.len() == 0 {
        assert forall|k: int| 0 <= k < ps.len() implies fence_free(ps[k]) by {
            assert forall|i: int| !has_fence_at(ps[k], i) by {}
        }
    } else {
        assert(fence_free(s.skip(1))) by {
            assert forall|i: int| !has_fence_at(s.skip(1), i) by {
                if has_fence_at(s.skip(1), i) {
                    assert(has_fence_at(s, i + 1));
                }
            }
        }
        lemma_split_pieces_fence_free(s.skip(1), sep);
        let rest = split_on(s.skip(1), sep);
        lemma_split_on_len(s.skip(1), sep);
        if s[0] == sep {
            assert forall|k: int| 0 <= k < ps.len() implies fence_free(ps[k]) by {
                if k == 0 {
                    assert forall|i: int| !has_fence_at(ps[0], i) by {}
                } else {
                    assert(ps[k] == rest[k - 1]);
                }
            }
        } else {
            assert forall|k: int| 0 <= k < ps.len() implies fence_free(ps[k]) by {
                if k == 0 {
                    let p0 = ps[0];
                    assert(p0 == seq![s[0]] + rest[0]);
                    assert forall|i: int| !has_fence_at(p0, i) by {
                        if has_fence_at(p0, i) {
                            if i >= 1 {
                                assert(has_fence_at(rest[0], i - 1));
                            } else {
                                lemma_split_first_prefix(s.skip(1), sep);
                                assert(p0[1] == rest[0][0]);
                                assert(p0[2] == rest[0][1]);
                                assert(rest[0][0] == s.skip(1)[0]);
                                assert(rest[0][1] == s.skip(1)[1]);
                                assert(has_fence_at(s, 0));
                            }
                        }
                    }
                } else {
                    assert(ps[k] == rest[k]);
                }
            }
        }
    }
}

/// Each line trimmed, empty lines dropped.
pub open spec fn clean_lines_spec(ls: Seq<Seq<char>>) -> Seq<Seq<char>>
    decreases ls.len(),
{
    if ls.len() == 0 {
        Seq::<Seq<char>>::empty()
    } else {
        let t = trim_spec(ls[0]);
        let rest = clean_lines_spec(ls.skip(1));
        if t.len() > 0 {
            seq![t] + rest
        } else {
            rest
        }
    }
}

/// A sequence of lines each of which is nonempty, has no whitespace at
/// either end, and holds no triple backtick.
pub open spec fn all_lines_clean(ls: Seq<Seq<char>>) -> bool {
    forall|k: int|
        0 <= k < ls.len() ==> {
            let l = #[trigger] ls[k];
            l.len() > 0 && !is_ws_char(l[0]) && !is_ws_char(l[l.len() - 1]) && fence_free(l)
        }
}

/// Trimming keeps a string fence-free.
pub proof fn lemma_trim_fence_free(s: Seq<char>)
    requires
        fence_free(s),
    ensures
        fence_free(trim_spec(s)),
{
    lemma_trim_start_fence_free(s);
    lemma_trim_end_fence_free(trim_start_spec(s));
}

proof fn lemma_trim_start_fence_free(s: Seq<char>)
    requires
        fence_free(s),
    ensures
        fence_free(trim_start_spec(s)),
    decreases s.len(),
{
    if s.len() > 0 && is_ws_char(s[0]) {
        assert(fence_free(s.skip(1))) by {
            assert forall|i: int| !has_fence_at(s.skip(1), i) by {
                if has_fence_at(s.skip(1), i) {
                    assert(has_fence_at(s, i + 1));
                }
            }
        }
        lemma_trim_start_fence_free(s.skip(1));
    }
}

proof fn lemma_trim_end_fence_free(s: Seq<char>)
    requires
        fence_free(s),
    ensures
        fence_free(trim_end_spec(s)),
    decreases s.len(),
{
    if s.len() > 0 && is_ws_char(s[s.len() - 1]) {
        let t = s.take(s.len() - 1);
        assert(fence_free(t)) by {
            assert forall|i: int| !has_fence_at(t, i) by {
                if has_fence_at(t, i) {
                    assert(has_fence_at(s, i));
                }
            }
        }
        lemma_trim_end_fence_free(t);
    }
}

/// Cleaning fence-free lines yields clean lines.
pub proof fn lemma_clean_lines_clean(ls: Seq<Seq<char>>)
    requires
        forall|k: int| 0 <= k < ls.len() ==> fence_free(#[trigger] ls[k]),
    ensures
        all_lines_clean(clean_lines_spec(ls)),
    decreases ls.len(),
{
    if ls.len() > 0 {
        assert forall|k: int| 0 <= k < ls.skip(1).len() implies fence_free(
            #[trigger] ls.skip(1)[k],
        ) by {
            assert(ls.skip(1)[k] == ls[k + 1]);
        }
        lemma_clean_lines_clean(ls.skip(1));
        let t = trim_spec(ls[0]);
        let rest = clean_lines_spec(ls.skip(1));
        if t.len() > 0 {
            lemma_trim_start_head(ls[0]);
            lemma_trim_end_head(trim_start_spec(ls[0]));
            lemma_trim_end_last(trim_start_spec(ls[0]));
            lemma_trim_fence_free(ls[0]);
            let out = clean_lines_spec(ls);
            assert(out == seq![t] + rest);
            assert forall|k: int| 0 <= k < out.len() implies {
                let l = #[trigger] out[k];
                l.len() > 0 && !is_ws_char(l[0]) && !is_ws_char(l[l.len() - 1]) && fence_free(l)
            } by {
                if k >= 1 {
                    assert(out[k] == rest[k - 1]);
                }
            }
        }
    }
}

/// The lines joined with a line feed between each pair.
pub open spec fn join_lines(ls: Seq<Seq<char>>) -> Seq<char>
    decreases ls.len(),
{
    if ls.len() == 0 {
        Seq::<char>::empty()
    } else if ls.len() == 1 {
        ls[0]
    } else {
        ls[0] + seq!['\n'] + join_lines(ls.skip(1))
    }
}

/// Joining clean lines yields a string that is nonempty when lines exist,
/// clean at both ends, and fence-free.
pub proof fn lemma_join_clean(ls: Seq<Seq<char>>)
    requires
        all_lines_clean(ls),
    ensures
        ls.len() > 0 ==> join_lines(ls).len() > 0,
        ls.len() > 0 ==> !is_ws_char(join_lines(ls)[0]),
        ls.len() > 0 ==> !is_ws_char(join_lines(ls)[join_lines(ls).len() - 1]),
        fence_free(join_lines(ls)),
    decreases ls.len(),
{
    let out = join_lines(ls);
    if ls.len() == 0 {
        assert forall|i: int| !has_fence_at(out, i) by {}
    } else if ls.len() == 1 {
        assert(out == ls[0]);
    } else {
        assert forall|k: int| 0 <= k < ls.skip(1).len() implies {
            let l = #[trigger] ls.skip(1)[k];
            l.len() > 0 && !is_ws_char(l[0]) && !is_ws_char(l[l.len() - 1]) && fence_free(l)
        } by {
            assert(ls.skip(1)[k] == ls[k + 1]);
        }
        lemma_join_clean(ls.skip(1));
        let a = ls[0];
        let b = join_lines(ls.skip(1));
        let la = a.len() as int;
        assert(out == a + seq!['\n'] + b);
        assert(out[0] == a[0]);
        assert(out[out.len() - 1] == b[b.len() - 1]);
        assert forall|i: int| !has_fence_at(out, i) by {
            if has_fence_at(out, i) {
                if i + 3 <= la {
                    assert(has_fence_at(a, i));
                } else if i <= la {
                    // The occurrence covers the separator at index la.
                    assert(out[la] == '\n');
                    assert(i == la || i + 1 == la || i + 2 == la);
                } else {
                    assert(out[i] == b[i - la - 1]);
                    assert(out[i + 1] == b[i - la]);
                    assert(out[i + 2] == b[i - la + 1]);
                    assert(has_fence_at(b, i - la - 1));
                }
            }
        }
    }
}

/// Whether `c` is one of the whitespace characters the pipeline trims.
pub fn char_is_ws(c: char) -> (b: bool)
    ensures
        b == is_ws_char(c),
{
    c == ' ' || c == '\t' || c == '\n' || c == '\r'
}

/// `s` without its leading whitespace.
pub fn trim_start(s: &str) -> (r: &str)
    ensures
        r@ == trim_start_spec(s@),
    decreases s@.len(),
{
    let n = s.unicode_len();
    if n > 0 {
        let c = s.get_char(0);
        if char_is_ws(c) {
            let rest = s.substring_char(1, n);
            proof {
                assert(rest@ =~= s@.skip(1));
            }
            return trim_start(rest);
        }
    }
    s
}

/// `s` without its trailing whitespace.
pub fn trim_end(s: &str) -> (r: &str)
    ensures
        r@ == trim_end_spec(s@),
    decreases s@.len(),
{
    let n = s.unicode_len();
    if n > 0 {
        let c = s.get_char(n - 1);
        if char_is_ws(c) {
            let rest = s.substring_char(0, n - 1);
            proof {
                assert(rest@ =~= s@.take(s@.len() - 1));
            }
            return trim_end(rest);
        }
    }
    s
}

/// `s` without leading and trailing whitespace.
pub fn trim(s: &str) -> (r: &str)
    ensures
        r@ == trim_spec(s@),
{
    trim_end(trim_start(s))
}

/// `s` with every triple backtick removed.
pub fn strip_ticks(s: &str) -> (r: String)
    ensures
        r@ == strip_ticks_spec(s@),
    decreases s@.len(),
{
    let n = s.unicode_len();
    if n < 3 {
        s.to_owned()
    } else if s.get_char(0) == '`' && s.get_char(1) == '`' && s.get_char(2) == '`' {
        let rest = s.substring_char(3, n);
        proof {
            assert(rest@ =~= s@.skip(3));
        }
        strip_ticks(rest)
    } else {
        let head = s.substring_char(0, 1);
        let rest = s.substring_char(1, n);
        proof {
            assert(rest@ =~= s@.skip(1));
        }
        let tail = strip_ticks(rest);
        let mut out = head.to_owned();
        out.append(tail.as_str());
        proof {
            assert(out@ =~= seq![s@[0]] + strip_ticks_spec(s@.skip(1)));
        }
        out
    }
}

/// `s` split on the separator `sep`.
pub fn split_str(s: &str, sep: char) -> (r: Vec<String>)
    ensures
        r.deep_view() == split_on(s@, sep),
    decreases s@.len(),
{
    let n = s.unicode_len();
    if n == 0 {
        let mut v: Vec<String> = Vec::new();
        v.push(String::new());
        proof {
            assert(v.deep_view() =~~= split_on(s@, sep));
        }
        v
    } else if s.get_char(0) == sep {
        let rest = s.substring_char(1, n);
        proof {
            assert(rest@ =~= s@.skip(1));
        }
        let mut v = split_str(rest, sep);
        v.insert(0, String::new());
        proof {
            assert(v.deep_view() =~~= seq![Seq::<char>::empty()] + split_on(s@.skip(1), sep));
        }
        v
    } else {
        let head = s.substring_char(0, 1);
        let rest = s.substring_char(1, n);
        proof {
            assert(rest@ =~= s@.skip(1));
            lemma_split_on_len(s@.skip(1), sep);
        }
        let mut v = split_str(rest, sep);
        let old_first = v.remove(0);
        let mut first = head.to_owned();
        first.append(old_first.as_str());
        v.insert(0, first);
        proof {
            let tail_split = split_on(s@.skip(1), sep);
            assert(v.deep_view() =~~= seq![seq![s@[0]] + tail_split[0]] + tail_split.skip(1));
        }
        v
    }
}

/// Each line of `lines`, from index `i` on, trimmed, with empty lines dropped.
pub fn clean_lines_from(lines: &Vec<String>, i: usize) -> (r: Vec<String>)
    requires
        i <= lines.len(),
    ensures
        r.deep_view() == clean_lines_spec(lines.deep_view().skip(i as int)),
    decreases lines.len() - i,
{
    proof {
        assert(lines.deep_view().len() == lines.len());
    }
    if i == lines.len() {
        let v: Vec<String> = Vec::new();
        proof {
            assert(v.deep_view() =~~= clean_lines_spec(lines.deep_view().skip(i as int)));
        }
        v
    } else {
        let t = trim((&lines[i]).as_str()).to_owned();
        let mut rest = clean_lines_from(lines, i + 1);
        proof {
            assert(lines.deep_view().skip(i as int).skip(1) =~~= lines.deep_view().skip(
                i as int + 1,
            ));
            assert(lines.deep_view().skip(i as int)[0] == lines.deep_view()[i as int]);
        }
        if t.unicode_len() > 0 {
            rest.insert(0, t);
            proof {
                let dv = lines.deep_view().skip(i as int);
                assert(rest.deep_view() =~~= seq![trim_spec(dv[0])] + clean_lines_spec(dv.skip(1)));
            }
            rest
        } else {
            rest
        }
    }
}

/// The lines of `lines`, from index `i` on, joined with a line feed.
pub fn join_lines_from(lines: &Vec<String>, i: usize) -> (r: String)
    requires
        i <= lines.len(),
    ensures
        r@ == join_lines(lines.deep_view().skip(i as int)),
    decreases lines.len() - i,
{
    proof {
        assert(lines.deep_view().len() == lines.len());
    }
    if i == lines.len() {
        String::new()
    } else if i + 1 == lines.len() {
        let r = (&lines[i]).clone();
        proof {
            assert(lines.deep_view().skip(i as int)[0] == lines.deep_view()[i as int]);
        }
        r
    } else {
        let mut out = (&lines[i]).clone();
        out.append("\n");
        let tail = join_lines_from(lines, i + 1);
        out.append(tail.as_str());
        proof {
            reveal_strlit("\n");
            let dv = lines.deep_view().skip(i as int);
            assert(dv[0] == lines.deep_view()[i as int]);
            assert(dv.skip(1) =~~= lines.deep_view().skip(i as int + 1));
            assert("\n"@ =~= seq!['\n']);
            assert(out@ =~= dv[0] + seq!['\n'] + join_lines(dv.skip(1)));
        }
        out
    }
}

} // verus!
