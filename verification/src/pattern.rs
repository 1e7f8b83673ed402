//! Regular expressions of the payload and topic filters.
//!
//! The expressions are those of the `regex` crate. The library never looks
//! inside one: it asks whether a pattern compiles and whether it matches.

use crate::text::text_view;
use vstd::prelude::*;

verus! {

/// What the regex engine reports when asked to compile `pattern`: nothing
/// when the pattern compiles, else its message.
pub uninterp spec fn regex_error_of(pattern: Seq<char>) -> Option<Seq<char>>;

/// Whether `pattern` matches somewhere in `text`, for a pattern that
/// compiles; nothing for one that does not.
pub uninterp spec fn regex_match_of(pattern: Seq<char>, text: Seq<char>) -> Option<bool>;

/// The pattern compiles.
pub open spec fn is_valid_regex(pattern: Seq<char>) -> bool {
    regex_error_of(pattern) is None
}

/// Wraps `Regex::new` of the regex crate and keeps only the message of its
/// error; the message is only named, not described.
#[verifier::external_body]
pub(crate) fn regex_error(pattern: &str) -> (message: Option<String>)
    ensures
        text_view(message) == regex_error_of(pattern@),
{
    match regex::Regex::new(pattern) {
        Ok(_) => None,
        Err(e) => Some(e.to_string()),
    }
}

/// Wraps `Regex::new` and `Regex::is_match` of the regex crate; the result
/// is only named. Beside the name it is claimed that a pattern has a match
/// result exactly when it compiles.
#[verifier::external_body]
pub(crate) fn regex_is_match(pattern: &str, text: &str) -> (found: Option<bool>)
    ensures
        found == regex_match_of(pattern@, text@),
        found is Some <==> regex_error_of(pattern@) is None,
{
    match regex::Regex::new(pattern) {
        Ok(re) => Some(re.is_match(text)),
        Err(_) => None,
    }
}

} // verus!
