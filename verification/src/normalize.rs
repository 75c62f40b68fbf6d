//! The final whitespace pass: after a page's text is assembled, every
//! newline followed by a run of whitespace (possibly holding further
//! newlines) collapses to a single newline. The pass runs once over the
//! fully flattened page, so the fragment rules may each emit their own line
//! breaks independently.

use vstd::prelude::*;
use vstd::string::*;

use crate::strutil::{is_space, space_char};

verus! {

/// The first position at or after `i` whose character is not whitespace, or
/// the length of `s` when the rest is all whitespace.
pub open spec fn skip_ws(s: Seq<char>, i: int) -> int
    decreases s.len() - i,
{
    if i < 0 || i >= s.len() {
        s.len() as int
    } else if is_space(s[i]) {
        skip_ws(s, i + 1)
    } else {
        i
    }
}

/// Bounds and meaning of [`skip_ws`]: it lands at or after `i`, within the
/// text, on a non-whitespace character, and everything it skipped was
/// whitespace.
pub proof fn lemma_skip_ws(s: Seq<char>, i: int)
    requires
        0 <= i <= s.len(),
    ensures
        i <= skip_ws(s, i) <= s.len(),
        skip_ws(s, i) < s.len() ==> !is_space(s[skip_ws(s, i)]),
        forall|j: int| i <= j < skip_ws(s, i) ==> is_space(s[j]),
    decreases s.len() - i,
{
    if i < s.len() && is_space(s[i]) {
        lemma_skip_ws(s, i + 1);
    }
}

/// The normalized form of `s` from position `i` on: each newline is kept and
/// the whitespace run after it is dropped; every other character is kept.
pub open spec fn normalize_from(s: Seq<char>, i: int) -> Seq<char>
    decreases s.len() - i,
{
    if i < 0 || i >= s.len() {
        Seq::empty()
    } else if s[i] == '\n' {
        proof {
            lemma_skip_ws(s, i + 1);
        }
        seq![s[i]] + normalize_from(s, skip_ws(s, i + 1))
    } else {
        seq![s[i]] + normalize_from(s, i + 1)
    }
}

/// The normalized form of a whole text.
pub open spec fn normalize_text(s: Seq<char>) -> Seq<char> {
    normalize_from(s, 0)
}

/// A text is normalized when no newline is followed by whitespace.
pub open spec fn is_normalized(s: Seq<char>) -> bool {
    forall|j: int| 0 <= j && j + 1 < s.len() && #[trigger] s[j] == '\n' ==> !is_space(s[j + 1])
}

proof fn lemma_normalize_identity_from(s: Seq<char>, i: int)
    requires
        0 <= i <= s.len(),
        is_normalized(s),
    ensures
        normalize_from(s, i) == s.subrange(i, s.len() as int),
    decreases s.len() - i,
{
    if i >= s.len() {
        assert(normalize_from(s, i) =~= s.subrange(i, s.len() as int));
    } else if s[i] == '\n' {
        lemma_skip_ws(s, i + 1);
        if i + 1 < s.len() {
            assert(!is_space(s[i + 1]));
        }
        assert(skip_ws(s, i + 1) == i + 1);
        lemma_normalize_identity_from(s, i + 1);
        assert(seq![s[i]] + s.subrange(i + 1, s.len() as int) =~= s.subrange(i, s.len() as int));
    } else {
        lemma_normalize_identity_from(s, i + 1);
        assert(seq![s[i]] + s.subrange(i + 1, s.len() as int) =~= s.subrange(i, s.len() as int));
    }
}

/// Law: normalizing an already-normalized text returns the identical text.
pub proof fn lemma_normalize_normalized_identity(s: Seq<char>)
    requires
        is_normalized(s),
    ensures
        normalize_text(s) == s,
{
    lemma_normalize_identity_from(s, 0);
    assert(s.subrange(0, s.len() as int) =~= s);
}

proof fn lemma_normalize_output_from(s: Seq<char>, i: int)
    requires
        0 <= i <= s.len(),
    ensures
        is_normalized(normalize_from(s, i)),
        i < s.len() ==> normalize_from(s, i).len() > 0 && normalize_from(s, i)[0] == s[i],
    decreases s.len() - i,
{
    if i >= s.len() {
    } else if s[i] == '\n' {
        lemma_skip_ws(s, i + 1);
        let k = skip_ws(s, i + 1);
        lemma_normalize_output_from(s, k);
        let tail = normalize_from(s, k);
        let r = seq![s[i]] + tail;
        assert forall|j: int| 0 <= j && j + 1 < r.len() && #[trigger] r[j] == '\n' implies !is_space(
            r[j + 1],
        ) by {
            if j == 0 {
                assert(k < s.len());
                assert(r[1] == tail[0]);
                assert(tail[0] == s[k]);
                assert(!is_space(s[k]));
            } else {
                assert(r[j] == tail[j - 1]);
                assert(r[j + 1] == tail[j]);
            }
        }
    } else {
        lemma_normalize_output_from(s, i + 1);
        let tail = normalize_from(s, i + 1);
        let r = seq![s[i]] + tail;
        assert forall|j: int| 0 <= j && j + 1 < r.len() && #[trigger] r[j] == '\n' implies !is_space(
            r[j + 1],
        ) by {
            if j == 0 {
                assert(r[0] == s[i]);
                assert(s[i] != '\n');
            } else {
                assert(r[j] == tail[j - 1]);
                assert(r[j + 1] == tail[j]);
            }
        }
    }
}

/// Law: the normalizer's output is normalized, so normalizing is idempotent.
pub proof fn lemma_normalize_idempotent(s: Seq<char>)
    ensures
        is_normalized(normalize_text(s)),
        normalize_text(normalize_text(s)) == normalize_text(s),
{
    lemma_normalize_output_from(s, 0);
    lemma_normalize_normalized_identity(normalize_text(s));
}

/// Collapses every newline-plus-whitespace run of `s` into a single newline.
pub fn normalize(s: &str) -> (r: String)
    ensures
        r@ == normalize_text(s@),
{
    normalize_from_pos(s, 0)
}

/// The normalizer from position `i` on, as [`normalize_from`] describes it.
fn normalize_from_pos(s: &str, i: usize) -> (r: String)
    ensures
        r@ == normalize_from(s@, i as int),
    decreases s@.len() - i,
{
    let len = s.unicode_len();
    if i >= len {
        return String::new();
    }
    let c = s.get_char(i);
    let piece = s.substring_char(i, i + 1);
    proof {
        assert(piece@ =~= seq![s@[i as int]]);
    }
    if c == '\n' {
        proof {
            lemma_skip_ws(s@, i + 1);
        }
        let mut k = i + 1;
        while k < len && space_char(s.get_char(k))
            invariant
                len == s@.len(),
                i + 1 <= k <= len,
                skip_ws(s@, i + 1) == skip_ws(s@, k as int),
            decreases len - k,
        {
            k = k + 1;
        }
        let rest = normalize_from_pos(s, k);
        String::from_str(piece).concat(rest.as_str())
    } else {
        let rest = normalize_from_pos(s, i + 1);
        String::from_str(piece).concat(rest.as_str())
    }
}

} // verus!
