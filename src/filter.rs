//! Content filters: regular expressions over message text.

use vstd::prelude::*;

verus! {

/// `regex::Regex`, a compiled pattern, held opaque.
#[verifier::external_type_specification]
#[verifier::external_body]
pub struct ExRegex(regex::Regex);

/// `regex::Error`, why a pattern did not compile, held opaque.
#[verifier::external_type_specification]
#[verifier::external_body]
pub struct ExRegexError(regex::Error);

/// Whether a pattern is accepted by the regex crate's default compiler.
pub uninterp spec fn regex_compiles(pattern: Seq<char>) -> bool;

/// Whether the regex of a pattern matches anywhere in a text.
pub uninterp spec fn regex_matches(pattern: Seq<char>, text: Seq<char>) -> bool;

/// A compiled content filter, together with the pattern it was compiled from.
pub struct ContentFilter {
    pattern: String,
    regex: regex::Regex,
}

impl ContentFilter {
    /// The pattern this filter was compiled from.
    pub closed spec fn pattern(&self) -> Seq<char> {
        self.pattern@
    }
}

/// Relies on `regex::Regex::new`: it compiles `pattern`, or fails with the
/// crate's error, as the pattern alone decides.
#[verifier::external_body]
pub(crate) fn compile(pattern: &str) -> (r: Result<ContentFilter, regex::Error>)
    ensures
        r is Ok <==> regex_compiles(pattern@),
        r matches Ok(f) ==> f.pattern() == pattern@,
{
    regex::Regex::new(pattern).map(|regex| ContentFilter { pattern: pattern.to_string(), regex })
}

/// Relies on `regex::Regex::is_match`: whether the filter's regex matches
/// anywhere in `text`.
#[verifier::external_body]
pub(crate) fn is_match(filter: &ContentFilter, text: &str) -> (r: bool)
    ensures
        r == regex_matches(filter.pattern(), text@),
{
    filter.regex.is_match(text)
}

} // verus!
