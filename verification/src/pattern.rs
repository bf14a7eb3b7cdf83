//! Pattern search, as the `regex` crate does it.

use vstd::prelude::*;

verus! {

/// The answer of the `regex` crate for a pattern and a text: `None` where the
/// pattern does not compile, otherwise whether it matches somewhere in the text.
pub uninterp spec fn regex_match(pattern: Seq<char>, text: Seq<char>) -> Option<bool>;

/// Compiles `pattern` with `regex::Regex::new` and searches `text` with
/// `regex::Regex::is_match`.
///
/// Trusted: the answer depends on the two strings alone. What the pattern
/// language means is left to the `regex` crate and not restated here.
#[verifier::external_body]
pub(crate) fn regex_is_match(pattern: &str, text: &str) -> (found: Option<bool>)
    ensures
        found == regex_match(pattern@, text@),
{
    match regex::Regex::new(pattern) {
        Ok(re) => Some(re.is_match(text)),
        Err(_) => None,
    }
}

} // verus!
