//! Case-insensitive text matching used by the window filter: case folding
//! and substring search, both delegated to the standard library.

use vstd::prelude::*;

verus! {

/// The case-folded form of a character sequence, as `str::to_lowercase`
/// produces it. The result depends on the characters alone.
pub uninterp spec fn lower_of(s: Seq<char>) -> Seq<char>;

/// `p` occurs as a contiguous run of characters inside `s`.
pub open spec fn contains_seq(s: Seq<char>, p: Seq<char>) -> bool {
    exists|i: int|
        0 <= i && i + p.len() <= s.len() && #[trigger] s.subrange(i, i + p.len()) == p
}

/// Relies on `str::to_lowercase`: the result is the Unicode lowercase
/// mapping of the input, a function of the characters alone.
#[verifier::external_body]
pub fn fold_case(s: &str) -> (r: String)
    ensures
        r@ == lower_of(s@),
{
    s.to_lowercase()
}

/// Relies on `str::contains` with a `&str` pattern: true exactly when the
/// pattern's characters occur contiguously in the string (a byte-level
/// match in valid UTF-8 always falls on character boundaries).
#[verifier::external_body]
pub fn contains_substr(s: &str, p: &str) -> (r: bool)
    ensures
        r == contains_seq(s@, p@),
{
    s.contains(p)
}

} // verus!
