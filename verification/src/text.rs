//! Text comparisons that the standard library performs.
use vstd::prelude::*;

verus! {

/// Whether `suffix` ends `text`, as a statement over their characters.
pub open spec fn is_suffix(text: Seq<char>, suffix: Seq<char>) -> bool {
    suffix.len() <= text.len() && text.subrange(text.len() - suffix.len(), text.len() as int)
        == suffix
}

/// Calls `str::eq`. Trusted: two string slices compare equal exactly when
/// they hold the same characters.
#[verifier::external_body]
pub(crate) fn same_text(a: &str, b: &str) -> (same: bool)
    ensures
        same == (a@ == b@),
{
    a == b
}

/// Calls `str::ends_with` with a string pattern. Trusted: the result says
/// whether the pattern's characters are the last characters of the text.
#[verifier::external_body]
pub(crate) fn ends_with(text: &str, suffix: &str) -> (ends: bool)
    ensures
        ends == is_suffix(text@, suffix@),
{
    text.ends_with(suffix)
}

} // verus!
