//! Cache keys and the expiration that every cache entry is written with.

use vstd::prelude::*;

verus! {

/// Seconds after which a stored record can no longer be read.
pub const CACHE_TTL_SECONDS: u64 = 3600;

/// The ASCII lower-case form of one character: `'A'..='Z'` move to
/// `'a'..='z'`, every other character stays.
pub open spec fn lower_char(c: char) -> char {
    if 'A' <= c && c <= 'Z' {
        ((c as u32) + 32) as char
    } else {
        c
    }
}

/// The ASCII lower-case form of a text, character by character.
pub open spec fn lower(s: Seq<char>) -> Seq<char> {
    Seq::new(s.len(), |i: int| lower_char(s[i]))
}

/// `str::to_ascii_lowercase` of the standard library. Trusted: the result has
/// the letters `A` to `Z` replaced by `a` to `z` and every other character
/// unchanged.
#[verifier::external_body]
fn ascii_lowercase(s: &str) -> (r: String)
    ensures
        r@ == lower(s@),
{
    s.to_ascii_lowercase()
}

/// The key under which the record of a place is cached: its name in ASCII
/// lower case.
pub fn cache_key(name: &str) -> (key: String)
    ensures
        key@ == lower(name@),
{
    ascii_lowercase(name)
}

/// Lower-casing keeps the length and leaves a lower-cased text as it is.
pub proof fn lemma_lower_idempotent(s: Seq<char>)
    ensures
        lower(s).len() == s.len(),
        lower(lower(s)) == lower(s),
{
    assert(lower(lower(s)) =~= lower(s));
}

} // verus!
