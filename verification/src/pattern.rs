//! Regular expressions, through the `regex` crate.

use vstd::prelude::*;

verus! {

/// What the first capture group of the regular expression `pattern` holds
/// in the leftmost match within `text`: `None` where `pattern` is no valid
/// expression, where nothing in `text` matches, and where the group took no
/// part in the match.
pub uninterp spec fn regex_capture(pattern: Seq<char>, text: Seq<char>) -> Option<Seq<char>>;

/// Compiles `pattern` with `regex::Regex::new`, searches `text` with
/// `Regex::captures` and copies out group 1 of the match.
///
/// Trusted: the result is the named `regex_capture` of the two texts. A
/// search depends on nothing but the expression and the text searched.
#[verifier::external_body]
pub(crate) fn first_capture(pattern: &str, text: &str) -> (r: Option<String>)
    ensures
        r.deep_view() == regex_capture(pattern@, text@),
{
    let compiled = regex::Regex::new(pattern).ok()?;
    compiled.captures(text)?.get(1).map(|m| m.as_str().to_string())
}

} // verus!
