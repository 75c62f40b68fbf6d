//! The crate's trusted boundary: thin wrappers around outside functions whose
//! contracts Verus believes without proof.

use vstd::prelude::*;

verus! {

/// The lower-cased form of a character sequence, as `str::to_lowercase`
/// computes it. Unicode case folding takes pages to state, so the result only
/// gets a name here; every contract that depends on it speaks of this name.
pub uninterp spec fn lower_of(s: Seq<char>) -> Seq<char>;

/// Relies on `str::to_lowercase`: the result depends on the characters of
/// `s` alone, and an empty string stays empty.
#[verifier::external_body]
pub fn lowercase(s: &str) -> (r: String)
    ensures
        r@ == lower_of(s@),
        s@.len() == 0 ==> r@.len() == 0,
{
    s.to_lowercase()
}

/// Relies on `String::push`: appends the given character to the end of the
/// string.
#[verifier::external_body]
pub fn push_char(s: &mut String, c: char)
    ensures
        final(s)@ == old(s)@.push(c),
{
    s.push(c);
}

} // verus!
