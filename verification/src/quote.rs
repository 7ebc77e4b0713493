//! Quoted, escaped text of a string, as `{:?}` prints it.

use vstd::prelude::*;

verus! {

/// What std's `Debug` for `str` writes for the characters `s`: the string
/// between double quotes, with the characters that std escapes written as
/// escapes. Which characters those are is std's business and is not restated
/// here; the text depends on `s` alone.
pub uninterp spec fn quoted_text(s: Seq<char>) -> Seq<char>;

/// Formats `s` with `{:?}`, which calls `<str as core::fmt::Debug>::fmt`.
/// Trusted: the result is the text that `quoted_text` names.
#[verifier::external_body]
pub(crate) fn quote(s: &str) -> (quoted: String)
    ensures
        quoted@ == quoted_text(s@),
{
    format!("{:?}", s)
}

} // verus!
