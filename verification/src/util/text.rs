//! Searching in text.

use vstd::prelude::*;

verus! {

/// `needle` stands somewhere in `text`, character for character.
pub open spec fn occurs_in(needle: Seq<char>, text: Seq<char>) -> bool {
    exists|i: int|
        0 <= i && i + needle.len() <= text.len() && #[trigger] text.subrange(
            i,
            i + needle.len(),
        ) == needle
}

/// Calls `str::contains` with a string as the pattern. Trusted: the result
/// says whether the pattern matches a part of the text, as std documents it.
#[verifier::external_body]
pub(crate) fn contains(text: &str, needle: &str) -> (found: bool)
    ensures
        found == occurs_in(needle@, text@),
{
    text.contains(needle)
}

} // verus!
