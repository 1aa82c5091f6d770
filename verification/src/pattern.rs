//! Regular expressions, as the `regex` crate evaluates them.
//!
//! Verified code never looks inside a compiled expression.  It hands a
//! pattern and a haystack to one of the three calls below and reasons about
//! the answer through an uninterpreted function of the two texts.

use vstd::prelude::*;

verus! {

/// The error of the `regex` crate.  It is carried to the caller as it came.
#[verifier::external_type_specification]
#[verifier::external_body]
pub struct ExRegexError(regex::Error);

/// Whether `regex::Regex::new` accepts `pattern`: the pattern is well formed
/// and its program fits the size limit that the crate sets by default.
pub uninterp spec fn regex_compiles(pattern: Seq<char>) -> bool;

/// Whether `regex::Regex::is_match` finds a match of `pattern` anywhere in
/// `haystack`.  Meaningful where `regex_compiles(pattern)`.
pub uninterp spec fn regex_is_match(pattern: Seq<char>, haystack: Seq<char>) -> bool;

/// The text that capture group `group` spans in the leftmost match of
/// `pattern` in `haystack`, as `regex::Regex::captures_iter` reports it
/// first; `None` where there is no match, where the group took no part in
/// it, and where the pattern has no such group.  Meaningful where
/// `regex_compiles(pattern)`.
pub uninterp spec fn regex_first_capture(
    pattern: Seq<char>,
    haystack: Seq<char>,
    group: nat,
) -> Option<Seq<char>>;

/// Calls `regex::Regex::new` and drops the compiled expression.
///
/// Trusted: the call succeeds exactly on the patterns that
/// [`regex_compiles`] names.
#[verifier::external_body]
pub(crate) fn check_pattern(pattern: &str) -> (r: Result<(), regex::Error>)
    ensures
        r is Ok <==> regex_compiles(pattern@),
{
    regex::Regex::new(pattern).map(|_| ())
}

/// Calls `regex::Regex::new`, then `regex::Regex::is_match` on the haystack.
///
/// Trusted: compiling fails exactly where [`regex_compiles`] is false, and
/// otherwise the answer is the one that [`regex_is_match`] names.
#[verifier::external_body]
pub(crate) fn search(pattern: &str, haystack: &str) -> (r: Result<bool, regex::Error>)
    ensures
        r is Ok <==> regex_compiles(pattern@),
        r matches Ok(found) ==> found == regex_is_match(pattern@, haystack@),
{
    regex::Regex::new(pattern).map(|re| re.is_match(haystack))
}

/// Calls `regex::Regex::new`, then takes the first item of
/// `regex::Regex::captures_iter` and from it `regex::Captures::get(group)`,
/// copying the text of the group with `regex::Match::as_str`.
///
/// Trusted: compiling fails exactly where [`regex_compiles`] is false, and
/// otherwise the text is the one that [`regex_first_capture`] names.
#[verifier::external_body]
pub(crate) fn first_capture(pattern: &str, haystack: &str, group: usize) -> (r: Result<
    Option<String>,
    regex::Error,
>)
    ensures
        r is Ok <==> regex_compiles(pattern@),
        r matches Ok(found) ==> match found {
            Some(text) => regex_first_capture(pattern@, haystack@, group as nat) == Some(text@),
            None => regex_first_capture(pattern@, haystack@, group as nat) is None,
        },
{
    let re = regex::Regex::new(pattern)?;
    let found = re.captures_iter(haystack).next().and_then(|c| c.get(group));
    Ok(found.map(|m| m.as_str().to_owned()))
}

} // verus!
