//! Regular expressions, as the `regex` crate understands them.

use vstd::prelude::*;

verus! {

/// What the `regex` crate answers when `haystack` is searched for a match of
/// the regular expression `pattern`: `Some(true)` where there is a match
/// anywhere in `haystack`, `Some(false)` where there is none, and `None`
/// where the crate does not accept `pattern` as a regular expression.
pub uninterp spec fn regex_search(pattern: Seq<char>, haystack: Seq<char>) -> Option<bool>;

/// Compiles `pattern` with `regex::Regex::new` and asks `Regex::is_match`
/// whether `haystack` holds a match. Both depend on the two texts alone; the
/// answer is the one named by [`regex_search`], and nothing more is claimed
/// of it.
#[verifier::external_body]
pub(crate) fn regex_is_match(pattern: &str, haystack: &str) -> (found: Option<bool>)
    ensures
        found == regex_search(pattern@, haystack@),
{
    match regex::Regex::new(pattern) {
        Ok(compiled) => Some(compiled.is_match(haystack)),
        Err(_) => None,
    }
}

} // verus!
