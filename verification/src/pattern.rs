//! The search pattern behind the filter: a case-insensitive regular
//! expression from the `regex` crate. The compiled pattern is opaque here;
//! these names and wrappers state exactly as much as the crate's interface
//! promises: whether a pattern text compiles, and what a match test depends
//! on, are functions of the texts alone.

use vstd::prelude::*;

verus! {

#[verifier::external_type_specification]
#[verifier::external_body]
pub struct ExRegex(regex::Regex);

/// Whether `pattern` compiles as a regular expression under the default
/// builder limits. `regex::RegexBuilder::build` succeeds or fails on the
/// pattern text alone.
pub uninterp spec fn regex_valid(pattern: Seq<char>) -> bool;

/// The pattern text a compiled [`regex::Regex`] holds.
pub uninterp spec fn pattern_of(re: regex::Regex) -> Seq<char>;

/// Whether the case-insensitive regular expression compiled from `pattern`
/// matches somewhere in `text`. `regex::Regex::is_match` is a function of
/// the compiled pattern and the haystack alone.
pub uninterp spec fn regex_accepts(pattern: Seq<char>, text: Seq<char>) -> bool;

/// Relies on `regex::RegexBuilder::build` with `case_insensitive(true)`:
/// it returns `Ok` exactly when the pattern text is a valid regular
/// expression within the default size limits, and the compiled regex holds
/// that pattern.
#[verifier::external_body]
pub(crate) fn compile_ci(pattern: &str) -> (r: Option<regex::Regex>)
    ensures
        r is Some <==> regex_valid(pattern@),
        (r matches Some(re) ==> pattern_of(re) == pattern@),
{
    regex::RegexBuilder::new(pattern).case_insensitive(true).build().ok()
}

/// Relies on `regex::Regex::is_match`: true exactly when the regex matches
/// somewhere in `text`, a function of the regex's pattern and `text` alone.
#[verifier::external_body]
pub(crate) fn regex_is_match(re: &regex::Regex, text: &str) -> (r: bool)
    ensures
        r == regex_accepts(pattern_of(*re), text@),
{
    re.is_match(text)
}

} // verus!
