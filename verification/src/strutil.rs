//! Small verified utilities over character sequences and strings, used by the
//! flattening engine and the whitespace normalizer.

use vstd::prelude::*;
use vstd::string::*;

verus! {

/// The whitespace class used by the flattening rules: the usual ASCII
/// whitespace characters.
pub open spec fn is_space(c: char) -> bool {
    c == ' ' || c == '\t' || c == '\n' || c == '\r' || c == '\u{000B}' || c == '\u{000C}'
}

/// Executable test for [`is_space`].
pub fn space_char(c: char) -> (r: bool)
    ensures
        r == is_space(c),
{
    c == ' ' || c == '\t' || c == '\n' || c == '\r' || c == '\u{000B}' || c == '\u{000C}'
}

/// Character-for-character equality of two string slices.
pub fn str_eq(a: &str, b: &str) -> (r: bool)
    ensures
        r == (a@ == b@),
{
    let alen = a.unicode_len();
    let blen = b.unicode_len();
    if alen != blen {
        proof {
            assert(a@.len() != b@.len());
        }
        return false;
    }
    let mut i: usize = 0;
    while i < alen
        invariant
            alen == a@.len(),
            alen == b@.len(),
            i <= alen,
            forall|j: int| 0 <= j < i ==> a@[j] == b@[j],
        decreases alen - i,
    {
        if a.get_char(i) != b.get_char(i) {
            return false;
        }
        i = i + 1;
    }
    proof {
        assert(a@ =~= b@);
    }
    true
}

/// The first position at or after `i` holding `c`, or the length of `s` when
/// no such position exists.
pub open spec fn find_char_from(s: Seq<char>, c: char, i: int) -> int
    decreases s.len() - i,
{
    if i < 0 || i >= s.len() {
        s.len() as int
    } else if s[i] == c {
        i
    } else {
        find_char_from(s, c, i + 1)
    }
}

/// Executable search for the first occurrence of `c`, as [`find_char_from`]
/// describes it.
pub fn find_char(s: &str, c: char) -> (r: usize)
    ensures
        r as int == find_char_from(s@, c, 0),
        r <= s@.len(),
{
    let len = s.unicode_len();
    let mut i: usize = 0;
    while i < len
        invariant
            len == s@.len(),
            i <= len,
            find_char_from(s@, c, 0) == find_char_from(s@, c, i as int),
        decreases len - i,
    {
        if s.get_char(i) == c {
            return i;
        }
        i = i + 1;
    }
    i
}

/// The largest position strictly below `i` holding `c`, or `-1` when no such
/// position exists.
pub open spec fn rfind_char_before(s: Seq<char>, c: char, i: int) -> int
    decreases i,
{
    if i <= 0 {
        -1
    } else if s[i - 1] == c {
        i - 1
    } else {
        rfind_char_before(s, c, i - 1)
    }
}

/// Whether `p` occurs in `s` starting exactly at position `i`.
pub open spec fn matches_at(s: Seq<char>, p: Seq<char>, i: int) -> bool {
    0 <= i && i + p.len() <= s.len() && s.subrange(i, i + p.len() as int) == p
}

/// Whether `p` occurs somewhere in `s`.
pub open spec fn contains_seq(s: Seq<char>, p: Seq<char>) -> bool {
    exists|k: int| matches_at(s, p, k)
}

/// Whether `s` begins with `p`.
pub open spec fn starts_with_seq(s: Seq<char>, p: Seq<char>) -> bool {
    matches_at(s, p, 0)
}

/// Executable test for [`matches_at`].
pub fn matches_at_str(s: &str, pat: &str, i: usize) -> (r: bool)
    ensures
        r == matches_at(s@, pat@, i as int),
{
    let slen = s.unicode_len();
    let plen = pat.unicode_len();
    if i > slen || plen > slen - i {
        return false;
    }
    let mut j: usize = 0;
    while j < plen
        invariant
            slen == s@.len(),
            plen == pat@.len(),
            i + plen <= slen,
            j <= plen,
            forall|k: int| 0 <= k < j ==> s@[i + k] == pat@[k],
        decreases plen - j,
    {
        if s.get_char(i + j) != pat.get_char(j) {
            proof {
                assert(s@.subrange(i as int, i + plen as int)[j as int] != pat@[j as int]);
            }
            return false;
        }
        j = j + 1;
    }
    proof {
        assert(s@.subrange(i as int, i + plen as int) =~= pat@);
    }
    true
}

/// Executable test for [`starts_with_seq`].
pub fn starts_with_str(s: &str, pat: &str) -> (r: bool)
    ensures
        r == starts_with_seq(s@, pat@),
{
    matches_at_str(s, pat, 0)
}

/// Executable test for [`contains_seq`].
pub fn contains_str(s: &str, pat: &str) -> (r: bool)
    ensures
        r == contains_seq(s@, pat@),
{
    let slen = s.unicode_len();
    let plen = pat.unicode_len();
    if plen > slen {
        proof {
            assert(forall|k: int| !matches_at(s@, pat@, k));
        }
        return false;
    }
    let bound = slen - plen;
    let mut k: usize = 0;
    while k < bound
        invariant
            slen == s@.len(),
            plen == pat@.len(),
            plen <= slen,
            bound == slen - plen,
            k <= bound,
            forall|k2: int| 0 <= k2 < k ==> !matches_at(s@, pat@, k2),
        decreases bound - k,
    {
        if matches_at_str(s, pat, k) {
            proof {
                assert(contains_seq(s@, pat@));
            }
            return true;
        }
        k = k + 1;
    }
    if matches_at_str(s, pat, bound) {
        proof {
            assert(contains_seq(s@, pat@));
        }
        return true;
    }
    proof {
        assert(forall|k2: int| !matches_at(s@, pat@, k2));
    }
    false
}

/// Everything after the first space of `t`; empty when `t` holds no space.
pub open spec fn after_first_space(t: Seq<char>) -> Seq<char> {
    let j = find_char_from(t, ' ', 0);
    if j < t.len() {
        t.subrange(j + 1, t.len() as int)
    } else {
        Seq::empty()
    }
}

/// Executable counterpart of [`after_first_space`].
pub fn split_after_first_space(t: &str) -> (r: String)
    ensures
        r@ == after_first_space(t@),
{
    let len = t.unicode_len();
    let j = find_char(t, ' ');
    if j < len {
        String::from_str(t.substring_char(j + 1, len))
    } else {
        String::new()
    }
}

/// Everything after the last `|` of `t`; the whole of `t` when it holds no
/// `|`, as the sole pipe-separated segment.
pub open spec fn after_last_pipe(t: Seq<char>) -> Seq<char> {
    let j = rfind_char_before(t, '|', t.len() as int);
    if j >= 0 {
        t.subrange(j + 1, t.len() as int)
    } else {
        t
    }
}

/// Executable counterpart of [`after_last_pipe`].
pub fn split_after_last_pipe(t: &str) -> (r: String)
    ensures
        r@ == after_last_pipe(t@),
{
    let len = t.unicode_len();
    let mut i = len;
    while i > 0
        invariant
            len == t@.len(),
            i <= len,
            rfind_char_before(t@, '|', len as int) == rfind_char_before(t@, '|', i as int),
        decreases i,
    {
        if t.get_char(i - 1) == '|' {
            return String::from_str(t.substring_char(i, len));
        }
        i = i - 1;
    }
    String::from_str(t)
}

} // verus!
