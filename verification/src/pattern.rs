//! Matching a text against a regular expression, done by the `regex` crate.

use vstd::prelude::*;

verus! {

/// The error of the `regex` crate for a pattern that it does not accept.
#[verifier::external_type_specification]
#[verifier::external_body]
pub struct ExPatternError(regex::Error);

/// Whether `regex::Regex::new` accepts `pattern`.
pub uninterp spec fn pattern_compiles(pattern: Seq<char>) -> bool;

/// What `regex::Regex::captures` finds for the leftmost match of `pattern`
/// in `haystack`: `None` where nothing matches, else one entry per capture
/// group, the whole match first, with `None` for a group that took no part.
pub uninterp spec fn captures_of(pattern: Seq<char>, haystack: Seq<char>) -> Option<
    Seq<Option<Seq<char>>>,
>;

/// Compiles `pattern` with `regex::Regex::new` and searches `haystack` with
/// `regex::Regex::captures`; each group is copied out as text. The contract
/// only names the two results: nothing is claimed about which patterns
/// compile or what a pattern matches.
#[verifier::external_body]
pub(crate) fn captures(pattern: &str, haystack: &str) -> (found: Result<
    Option<Vec<Option<String>>>,
    regex::Error,
>)
    ensures
        found is Ok <==> pattern_compiles(pattern@),
        found matches Ok(groups) ==> groups.deep_view() == captures_of(pattern@, haystack@),
{
    let re = regex::Regex::new(pattern)?;
    Ok(
        re.captures(haystack).map(
            |caps| caps.iter().map(|group| group.map(|m| m.as_str().to_string())).collect(),
        ),
    )
}

} // verus!
