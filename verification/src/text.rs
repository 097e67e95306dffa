//! Character-sequence utilities: substring search and whitespace-separated
//! token membership, as used by the attribute- and class-matching rules of
//! the extractor.

use vstd::prelude::*;

verus! {

/// `t` occurs in `s` starting at position `i`.
pub open spec fn is_match_at(s: Seq<char>, t: Seq<char>, i: int) -> bool {
    &&& 0 <= i
    &&& i + t.len() <= s.len()
    &&& s.subrange(i, i + t.len() as int) == t
}

/// `t` occurs somewhere in `s` as a contiguous subsequence.
pub open spec fn contains_seq(s: Seq<char>, t: Seq<char>) -> bool {
    exists|i: int| is_match_at(s, t, i)
}

/// ASCII whitespace, the separator of an HTML class list.
pub open spec fn is_space_char(c: char) -> bool {
    c == ' ' || c == '\t' || c == '\n' || c == '\r' || c == '\u{0c}'
}

/// `t` occurs in `s` at `i` and is delimited on both sides by ASCII
/// whitespace or by an end of `s`.
pub open spec fn is_token_at(s: Seq<char>, t: Seq<char>, i: int) -> bool {
    &&& is_match_at(s, t, i)
    &&& (i == 0 || is_space_char(s[i - 1]))
    &&& (i + t.len() == s.len() || is_space_char(s[i + t.len() as int]))
}

/// `t` is one of the whitespace-separated tokens of `s`. For a nonempty `t`
/// that itself holds no whitespace this coincides with membership in the
/// list obtained by splitting `s` on ASCII whitespace.
pub open spec fn has_token(s: Seq<char>, t: Seq<char>) -> bool {
    t.len() > 0 && exists|i: int| is_token_at(s, t, i)
}

/// Whether `c` is ASCII whitespace.
pub fn is_space(c: char) -> (r: bool)
    ensures
        r == is_space_char(c),
{
    c == ' ' || c == '\t' || c == '\n' || c == '\r' || c == '\u{0c}'
}

/// Whether `t` occurs in `s` at position `i`.
pub fn matches_at(s: &str, i: usize, t: &str) -> (r: bool)
    requires
        i + t@.len() <= s@.len(),
    ensures
        r == is_match_at(s@, t@, i as int),
{
    let slen: usize = s.unicode_len();
    let tlen: usize = t.unicode_len();
    let mut j: usize = 0;
    while j < tlen
        invariant
            slen == s@.len(),
            tlen == t@.len(),
            i + tlen <= slen,
            j <= tlen,
            forall|k: int| 0 <= k < j ==> s@[i + k] == t@[k],
        decreases tlen - j,
    {
        let c1 = s.get_char(i + j);
        let c2 = t.get_char(j);
        if c1 != c2 {
            proof {
                if is_match_at(s@, t@, i as int) {
                    assert(s@.subrange(i as int, i + t@.len() as int)[j as int] == t@[j as int]);
                }
            }
            return false;
        }
        j += 1;
    }
    proof {
        assert(s@.subrange(i as int, i + t@.len() as int) =~= t@);
    }
    true
}

/// Whether `a` and `b` hold the same characters.
pub fn str_eq(a: &str, b: &str) -> (r: bool)
    ensures
        r == (a@ == b@),
{
    let al: usize = a.unicode_len();
    let bl: usize = b.unicode_len();
    if al != bl {
        return false;
    }
    let r = matches_at(a, 0, b);
    proof {
        if r {
            assert(a@.subrange(0, b@.len() as int) =~= a@);
        }
        if a@ == b@ {
            assert(a@.subrange(0, b@.len() as int) =~= b@);
        }
    }
    r
}

/// Whether `t` occurs somewhere in `s`.
pub fn str_contains(s: &str, t: &str) -> (r: bool)
    ensures
        r == contains_seq(s@, t@),
{
    let slen: usize = s.unicode_len();
    let tlen: usize = t.unicode_len();
    if tlen > slen {
        return false;
    }
    if tlen == 0 {
        proof {
            assert(s@.subrange(0, 0) =~= t@);
            assert(is_match_at(s@, t@, 0));
        }
        return true;
    }
    let mut i: usize = 0;
    while i <= slen - tlen
        invariant
            slen == s@.len(),
            tlen == t@.len(),
            0 < tlen <= slen,
            i <= slen - tlen + 1,
            forall|k: int| 0 <= k < i ==> !is_match_at(s@, t@, k),
        decreases slen - i,
    {
        if matches_at(s, i, t) {
            return true;
        }
        i += 1;
    }
    proof {
        assert(forall|k: int| k > slen - tlen ==> !is_match_at(s@, t@, k));
    }
    false
}

/// Whether `t` is a whitespace-delimited token of `s`.
pub fn str_has_token(s: &str, t: &str) -> (r: bool)
    ensures
        r == has_token(s@, t@),
{
    let slen: usize = s.unicode_len();
    let tlen: usize = t.unicode_len();
    if tlen == 0 || tlen > slen {
        return false;
    }
    let mut i: usize = 0;
    while i <= slen - tlen
        invariant
            slen == s@.len(),
            tlen == t@.len(),
            0 < tlen <= slen,
            i <= slen - tlen + 1,
            forall|k: int| 0 <= k < i ==> !is_token_at(s@, t@, k),
        decreases slen - i,
    {
        if matches_at(s, i, t) {
            let left_ok = i == 0 || is_space(s.get_char(i - 1));
            let right_ok = i + tlen == slen || is_space(s.get_char(i + tlen));
            if left_ok && right_ok {
                proof {
                    assert(is_token_at(s@, t@, i as int));
                }
                return true;
            }
        }
        i += 1;
    }
    proof {
        assert(forall|k: int| k > slen - tlen ==> !is_token_at(s@, t@, k));
    }
    false
}

} // verus!
