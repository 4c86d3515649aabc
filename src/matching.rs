//! The regular-expression engine, behind the contracts that the rest of the
//! library relies on.
use vstd::prelude::*;

verus! {

/// `regex::Regex`, a compiled matcher, carried through opaquely.
#[verifier::external_type_specification]
#[verifier::external_body]
pub struct ExRegex(regex::Regex);

/// `regex::Error`, why a pattern did not compile, carried through opaquely.
#[verifier::external_type_specification]
#[verifier::external_body]
pub struct ExRegexError(regex::Error);

/// Whether a pattern compiles, matching without regard to case.
pub uninterp spec fn compiles_case_insensitive(pattern: Seq<char>) -> bool;

/// Capture group 1 of the leftmost match of a pattern in a text; `None` where
/// the pattern is invalid, nothing matches, or the group took no part.
pub uninterp spec fn first_group_capture(pattern: Seq<char>, text: Seq<char>) -> Option<Seq<char>>;

/// Relies on `regex::RegexBuilder::new(..).case_insensitive(true).build()`:
/// whether it succeeds depends on the pattern alone.
#[verifier::external_body]
pub(crate) fn build_case_insensitive(pattern: &str) -> (r: Result<regex::Regex, regex::Error>)
    ensures
        r is Ok <==> compiles_case_insensitive(pattern@),
{
    regex::RegexBuilder::new(pattern).case_insensitive(true).build()
}

/// Relies on `regex::Regex::new` and `Regex::captures`: group 1 of the
/// leftmost match, which depends on the pattern and the text alone.
#[verifier::external_body]
pub(crate) fn capture_first_group(pattern: &str, text: &str) -> (r: Option<String>)
    ensures
        match r {
            Some(s) => first_group_capture(pattern@, text@) == Some(s@),
            None => first_group_capture(pattern@, text@) is None,
        },
{
    let re = regex::Regex::new(pattern).ok()?;
    let caps = re.captures(text)?;
    caps.get(1).map(|m| m.as_str().to_string())
}

} // verus!
