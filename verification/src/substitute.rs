use vstd::prelude::*;

use crate::color::{
    color_escape_seq, color_escape_str, color_token_seq, color_token_str, reset_seq, reset_str,
    CrabFetchColor,
};

verus! {

/// Left-to-right, non-overlapping replacement of every occurrence of `pat`
/// in `s` by `rep`. An empty pattern replaces nothing.
pub open spec fn spec_replace(s: Seq<char>, pat: Seq<char>, rep: Seq<char>) -> Seq<char>
    decreases s.len(),
{
    if pat.len() == 0 || s.len() < pat.len() {
        s
    } else if s.take(pat.len() as int) == pat {
        rep + spec_replace(s.skip(pat.len() as int), pat, rep)
    } else {
        s.take(1) + spec_replace(s.skip(1), pat, rep)
    }
}

/// Whether `pat` occurs as a contiguous subsequence of `s`.
pub open spec fn contains_seq(s: Seq<char>, pat: Seq<char>) -> bool {
    exists|i: int|
        0 <= i && i + pat.len() <= s.len() && #[trigger] s.subrange(i, i + pat.len() as int)
            == pat
}

/// The text pass leaves a template without the token untouched: if `pat` does
/// not occur in `s`, replacement returns `s` unchanged.
pub proof fn lemma_replace_absent(s: Seq<char>, pat: Seq<char>, rep: Seq<char>)
    requires
        !contains_seq(s, pat),
    ensures
        spec_replace(s, pat, rep) == s,
    decreases s.len(),
{
    if pat.len() == 0 {
        assert(contains_seq(s, pat)) by {
            assert(s.subrange(0, 0 + pat.len() as int) =~= pat);
        }
    } else if s.len() < pat.len() {
    } else {
        if s.take(pat.len() as int) == pat {
            assert(contains_seq(s, pat)) by {
                assert(s.subrange(0, 0 + pat.len() as int) =~= s.take(pat.len() as int));
            }
        } else {
            assert forall|i: int|
                0 <= i && i + pat.len() <= s.skip(1).len() implies #[trigger] s.skip(1).subrange(
                i,
                i + pat.len() as int,
            ) != pat by {
                assert(s.skip(1).subrange(i, i + pat.len() as int) =~= s.subrange(
                    i + 1,
                    i + 1 + pat.len() as int,
                ));
            }
            lemma_replace_absent(s.skip(1), pat, rep);
            assert(s.take(1) + s.skip(1) =~= s);
        }
    }
}

/// Whether `pat` occurs in `s` starting at character index `i`.
fn matches_at(s: &str, i: usize, pat: &str, n: usize, m: usize) -> (r: bool)
    requires
        n == s@.len(),
        m == pat@.len(),
        i + m <= n,
    ensures
        r == (s@.subrange(i as int, i as int + m as int) == pat@),
{
    let mut j: usize = 0;
    while j < m
        invariant
            n == s@.len(),
            m == pat@.len(),
            i + m <= n,
            j <= m,
            forall|k: int| 0 <= k < j ==> s@[i + k] == pat@[k],
        decreases m - j,
    {
        if s.get_char(i + j) != pat.get_char(j) {
            assert(s@.subrange(i as int, i as int + m as int)[j as int] != pat@[j as int]);
            return false;
        }
        j += 1;
    }
    assert(s@.subrange(i as int, i as int + m as int) =~= pat@);
    true
}

/// Replaces every occurrence of `pat` in `s` by `rep`, scanning left to right
/// and never rescanning replaced text, exactly as `spec_replace` states.
pub fn replace_all(s: &str, pat: &str, rep: &str) -> (r: String)
    ensures
        r@ == spec_replace(s@, pat@, rep@),
{
    let n: usize = s.unicode_len();
    let m: usize = pat.unicode_len();
    if m == 0 {
        return s.to_owned();
    }
    let mut out: String = String::new();
    let mut i: usize = 0;
    proof {
        assert(s@.skip(0) =~= s@);
        assert(Seq::<char>::empty() + spec_replace(s@, pat@, rep@) =~= spec_replace(
            s@,
            pat@,
            rep@,
        ));
    }
    while i < n
        invariant
            n == s@.len(),
            m == pat@.len(),
            1 <= m,
            i <= n,
            spec_replace(s@, pat@, rep@) == out@ + spec_replace(s@.skip(i as int), pat@, rep@),
        decreases n - i,
    {
        let ghost rest = s@.skip(i as int);
        if m <= n - i && matches_at(s, i, pat, n, m) {
            proof {
                assert(rest.take(m as int) =~= s@.subrange(i as int, i as int + m as int));
                assert(rest.skip(m as int) =~= s@.skip(i as int + m as int));
                assert(spec_replace(rest, pat@, rep@) == rep@ + spec_replace(
                    s@.skip(i as int + m as int),
                    pat@,
                    rep@,
                ));
                assert(out@ + (rep@ + spec_replace(s@.skip(i as int + m as int), pat@, rep@))
                    =~= (out@ + rep@) + spec_replace(s@.skip(i as int + m as int), pat@, rep@));
            }
            out.append(rep);
            i += m;
        } else {
            let c = s.substring_char(i, i + 1);
            proof {
                assert(rest.take(1) =~= s@.subrange(i as int, i as int + 1));
                assert(rest.skip(1) =~= s@.skip(i as int + 1));
                if rest.len() < m {
                    assert(spec_replace(rest, pat@, rep@) == rest);
                    assert(spec_replace(rest.skip(1), pat@, rep@) == rest.skip(1));
                    assert(rest =~= rest.take(1) + rest.skip(1));
                } else {
                    assert(rest.take(m as int) =~= s@.subrange(i as int, i as int + m as int));
                    assert(rest.take(m as int) != pat@);
                }
                assert(spec_replace(rest, pat@, rep@) == rest.take(1) + spec_replace(
                    s@.skip(i as int + 1),
                    pat@,
                    rep@,
                ));
                assert(out@ + (rest.take(1) + spec_replace(s@.skip(i as int + 1), pat@, rep@))
                    =~= (out@ + rest.take(1)) + spec_replace(s@.skip(i as int + 1), pat@, rep@));
            }
            out.append(c);
            i += 1;
        }
    }
    proof {
        assert(s@.skip(n as int) =~= Seq::<char>::empty());
        assert(spec_replace(s@.skip(n as int), pat@, rep@) == Seq::<char>::empty());
        assert(out@ + Seq::<char>::empty() =~= out@);
    }
    out
}

/// One step of the colour pass: the occurrences of one colour's token give
/// way to that colour's escape sequence.
pub open spec fn spec_apply_color(s: Seq<char>, c: CrabFetchColor) -> Seq<char> {
    spec_replace(s, color_token_seq(c), color_escape_seq(c))
}

/// The text part of the colour pass: every colour token, taken colour by
/// colour in a fixed order, becomes its escape sequence.
pub open spec fn spec_color_text(s: Seq<char>) -> Seq<char> {
    let s = spec_apply_color(s, CrabFetchColor::Black);
    let s = spec_apply_color(s, CrabFetchColor::Red);
    let s = spec_apply_color(s, CrabFetchColor::Green);
    let s = spec_apply_color(s, CrabFetchColor::Yellow);
    let s = spec_apply_color(s, CrabFetchColor::Blue);
    let s = spec_apply_color(s, CrabFetchColor::Magenta);
    let s = spec_apply_color(s, CrabFetchColor::Cyan);
    let s = spec_apply_color(s, CrabFetchColor::White);
    let s = spec_apply_color(s, CrabFetchColor::BrightBlack);
    let s = spec_apply_color(s, CrabFetchColor::BrightRed);
    let s = spec_apply_color(s, CrabFetchColor::BrightGreen);
    let s = spec_apply_color(s, CrabFetchColor::BrightYellow);
    let s = spec_apply_color(s, CrabFetchColor::BrightBlue);
    let s = spec_apply_color(s, CrabFetchColor::BrightMagenta);
    let s = spec_apply_color(s, CrabFetchColor::BrightCyan);
    let s = spec_apply_color(s, CrabFetchColor::BrightWhite);
    let s = spec_apply_color(s, CrabFetchColor::Clear);
    s
}

/// The whole colour pass: expand the colour tokens, then append one reset
/// sequence unconditionally.
pub open spec fn spec_color_pass(s: Seq<char>) -> Seq<char> {
    spec_color_text(s) + reset_seq()
}

/// The colour pass appends the reset sequence exactly once, whatever the
/// input: its output is the token-expanded text followed by one reset, and so
/// always ends with the reset sequence.
pub proof fn lemma_color_pass_appends_reset(s: Seq<char>)
    ensures
        spec_color_pass(s) == spec_color_text(s) + reset_seq(),
        spec_color_pass(s).len() >= reset_seq().len(),
        spec_color_pass(s).skip(spec_color_pass(s).len() - reset_seq().len()) == reset_seq(),
{
    let r = spec_color_pass(s);
    assert(r.skip(r.len() - reset_seq().len()) =~= reset_seq());
}

/// One step of the executable colour pass.
fn apply_color(s: &str, c: &CrabFetchColor) -> (r: String)
    ensures
        r@ == spec_apply_color(s@, *c),
{
    replace_all(s, color_token_str(c), color_escape_str(c))
}

/// Replaces every recognised colour token in `value` with its terminal
/// escape sequence and appends a reset sequence, exactly as
/// `spec_color_pass` states. This pass runs strictly after the text pass, so
/// colour tokens a template inserted are expanded like any others.
pub fn replace_color_tokens(value: &str) -> (r: String)
    ensures
        r@ == spec_color_pass(value@),
{
    let s = apply_color(value, &CrabFetchColor::Black);
    let s = apply_color(s.as_str(), &CrabFetchColor::Red);
    let s = apply_color(s.as_str(), &CrabFetchColor::Green);
    let s = apply_color(s.as_str(), &CrabFetchColor::Yellow);
    let s = apply_color(s.as_str(), &CrabFetchColor::Blue);
    let s = apply_color(s.as_str(), &CrabFetchColor::Magenta);
    let s = apply_color(s.as_str(), &CrabFetchColor::Cyan);
    let s = apply_color(s.as_str(), &CrabFetchColor::White);
    let s = apply_color(s.as_str(), &CrabFetchColor::BrightBlack);
    let s = apply_color(s.as_str(), &CrabFetchColor::BrightRed);
    let s = apply_color(s.as_str(), &CrabFetchColor::BrightGreen);
    let s = apply_color(s.as_str(), &CrabFetchColor::BrightYellow);
    let s = apply_color(s.as_str(), &CrabFetchColor::BrightBlue);
    let s = apply_color(s.as_str(), &CrabFetchColor::BrightMagenta);
    let s = apply_color(s.as_str(), &CrabFetchColor::BrightCyan);
    let s = apply_color(s.as_str(), &CrabFetchColor::BrightWhite);
    let s = apply_color(s.as_str(), &CrabFetchColor::Clear);
    let out = s.concat(reset_str());
    out
}

} // verus!
