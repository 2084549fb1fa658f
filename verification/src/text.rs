//! Text as sequences of characters: what it means for one text to occur in
//! another.

use vstd::prelude::*;

verus! {

/// `needle` occurs in `hay` as a run of consecutive characters. The empty
/// text occurs in every text.
pub open spec fn contains_text(hay: Seq<char>, needle: Seq<char>) -> bool {
    exists|i: int|
        0 <= i && i + needle.len() <= hay.len() && #[trigger] hay.subrange(
            i,
            i + needle.len(),
        ) == needle
}

/// Trusted: `str::contains` of the standard library, with a string as the
/// pattern. Its documentation says that it returns `true` if the pattern
/// matches a sub-slice of the string; the contract states this over the
/// characters of both strings, which for well-formed UTF-8 is the same.
#[verifier::external_body]
pub(crate) fn str_contains(hay: &str, needle: &str) -> (r: bool)
    ensures
        r == contains_text(hay@, needle@),
{
    hay.contains(needle)
}

} // verus!
