use vstd::prelude::*;

verus! {

/// `pattern` occurs in `text` as a run of consecutive characters.
pub open spec fn has_substring(text: Seq<char>, pattern: Seq<char>) -> bool {
    exists|from: int, to: int|
        0 <= from <= to <= text.len() && #[trigger] text.subrange(from, to) == pattern
}

/// What `str::replace` makes of `text` when every match of `from` is replaced by `to`.
pub uninterp spec fn replaced(text: Seq<char>, from: Seq<char>, to: Seq<char>) -> Seq<char>;

/// `str::contains` with a string as the pattern: whether some sub-slice of `text` is equal to
/// `pattern`.
#[verifier::external_body]
pub(crate) fn contains(text: &str, pattern: &str) -> (found: bool)
    ensures
        found == has_substring(text@, pattern@),
{
    text.contains(pattern)
}

/// `str::replace` with a string as the pattern. The result is a function of the three strings;
/// the contract gives it a name and says no more of it.
#[verifier::external_body]
pub(crate) fn replace(text: &str, from: &str, to: &str) -> (out: String)
    ensures
        out@ == replaced(text@, from@, to@),
{
    text.replace(from, to)
}

} // verus!
