//! Matching a text against a regular expression.

use vstd::prelude::*;

verus! {

/// What matching `text` against the regular expression `pattern` gives:
/// whether some part of `text` matches, or `None` where `pattern` is no
/// regular expression.
pub uninterp spec fn regex_match(pattern: Seq<char>, text: Seq<char>) -> Option<bool>;

/// Compiles `pattern` with `regex::Regex::new` and asks `Regex::is_match`
/// whether `text` holds a match. The contract only gives the answer its name:
/// it depends on the two texts alone, and nothing is claimed of what it is for
/// a given pattern.
#[verifier::external_body]
pub(crate) fn regex_is_match(pattern: &str, text: &str) -> (r: Option<bool>)
    ensures
        r == regex_match(pattern@, text@),
{
    match regex::Regex::new(pattern) {
        Ok(compiled) => Some(compiled.is_match(text)),
        Err(_) => None,
    }
}

} // verus!
