//! Regular expressions.

use vstd::prelude::*;

verus! {

/// What the first capture group holds in the leftmost match of a pattern in a
/// text, as the `regex` crate finds it.  `None` where the pattern matches
/// nowhere in the text, where the group took no part in the match, and where
/// the pattern is no regular expression.
pub uninterp spec fn first_capture(pattern: Seq<char>, text: Seq<char>) -> Option<Seq<char>>;

/// Compiles a pattern with `regex::Regex::new`, searches the text with
/// `Regex::captures` and copies what group 1 matched.  The result is the text
/// named [`first_capture`].
#[verifier::external_body]
pub(crate) fn capture_first(pattern: &str, text: &str) -> (capture: Option<String>)
    ensures
        capture.deep_view() == first_capture(pattern@, text@),
{
    let regex = regex::Regex::new(pattern).ok()?;
    let found = regex.captures(text)?;
    found.get(1).map(|group| group.as_str().to_owned())
}

} // verus!
