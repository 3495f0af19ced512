//! Regular expressions that string inputs have to match.
use vstd::prelude::*;

verus! {

/// Why `regex::Regex::new` refuses a pattern; `None` where it accepts it.
pub uninterp spec fn pattern_problem(pattern: Seq<char>) -> Option<Seq<char>>;

/// Whether `regex::Regex::is_match` finds the pattern in the text.
pub uninterp spec fn pattern_found(pattern: Seq<char>, text: Seq<char>) -> bool;

/// `regex::Regex::new`: refuses a pattern with the message that has a name, or
/// accepts it.
#[verifier::external_body]
pub(crate) fn check_pattern(pattern: &str) -> (r: Result<(), String>)
    ensures
        match r {
            Ok(()) => pattern_problem(pattern@) is None,
            Err(message) => pattern_problem(pattern@) == Some(message@),
        },
{
    match regex::Regex::new(pattern) {
        Ok(_) => Ok(()),
        Err(error) => Err(error.to_string()),
    }
}

/// `regex::Regex::is_match`, for a pattern that `regex::Regex::new` accepts:
/// whether the pattern occurs in the text depends on the two alone.
#[verifier::external_body]
pub(crate) fn find_pattern(pattern: &str, text: &str) -> (r: bool)
    requires
        pattern_problem(pattern@) is None,
    ensures
        r == pattern_found(pattern@, text@),
{
    regex::Regex::new(pattern).expect("an accepted pattern").is_match(text)
}

} // verus!
