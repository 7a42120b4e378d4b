//! Text comparisons that the rules of the pipeline are written over.
use vstd::prelude::*;

verus! {

/// Whether `pattern` occurs in `text` as a run of consecutive characters.
pub open spec fn occurs_in(pattern: Seq<char>, text: Seq<char>) -> bool {
    exists|at: int|
        0 <= at && at + pattern.len() <= text.len() && #[trigger] text.subrange(
            at,
            at + pattern.len(),
        ) == pattern
}

/// `text` with every occurrence of `from` replaced by `to`, the occurrences
/// taken from the left and never overlapping.
pub open spec fn replaced(text: Seq<char>, from: Seq<char>, to: Seq<char>) -> Seq<char>
    recommends
        from.len() > 0,
    decreases text.len(),
{
    if from.len() == 0 || text.len() < from.len() {
        text
    } else if text.subrange(0, from.len() as int) == from {
        to + replaced(text.subrange(from.len() as int, text.len() as int), from, to)
    } else {
        seq![text[0]] + replaced(text.subrange(1, text.len() as int), from, to)
    }
}

/// Trusted: `str`'s `==`, which std documents as equality of the two strings'
/// contents.
#[verifier::external_body]
pub(crate) fn text_eq(left: &str, right: &str) -> (same: bool)
    ensures
        same == (left@ == right@),
{
    left == right
}

/// Trusted: `str::contains` with a string pattern, which std documents as
/// `true` exactly when the pattern matches a sub-slice of the string.
#[verifier::external_body]
pub(crate) fn text_contains(text: &str, pattern: &str) -> (found: bool)
    ensures
        found == occurs_in(pattern@, text@),
{
    text.contains(pattern)
}

/// Trusted: `str::replace` with a non-empty string pattern, which std
/// documents as a new string in which all non-overlapping matches of the
/// pattern, found from the left, are replaced.
#[verifier::external_body]
pub(crate) fn text_replace(text: &str, from: &str, to: &str) -> (out: String)
    requires
        from@.len() > 0,
    ensures
        out@ == replaced(text@, from@, to@),
{
    text.replace(from, to)
}

} // verus!
