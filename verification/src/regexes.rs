//! Trusted boundary to the `regex` crate.
//!
//! A compiled `regex::Regex` is opaque to the verifier; it carries exactly
//! the pattern text it was compiled from (`Regex::as_str` returns it).
//! `regex_text` names that text, and the two uninterpreted predicates name
//! the results of `Regex::new` and `Regex::is_match`, both of which are
//! pure functions of the pattern text and the searched string alone.

use vstd::prelude::*;

verus! {

#[verifier::external_type_specification]
#[verifier::external_body]
pub struct ExRegex(regex::Regex);

/// The pattern text a compiled `regex::Regex` holds.
pub uninterp spec fn regex_text(re: regex::Regex) -> Seq<char>;

/// Whether `regex::Regex::new` accepts the pattern text.
pub uninterp spec fn regex_ok(pattern: Seq<char>) -> bool;

/// What `regex::Regex::is_match` returns for a pattern text and a string.
pub uninterp spec fn regex_match(pattern: Seq<char>, text: Seq<char>) -> bool;

/// Relies on `regex::Regex::new`: it succeeds exactly on well-formed regex
/// syntax (within the default size limits), and the compiled regex keeps
/// the given text as its source.
#[verifier::external_body]
pub(crate) fn regex_compile(pattern: &str) -> (r: Option<regex::Regex>)
    ensures
        r is Some <==> regex_ok(pattern@),
        r is Some ==> regex_text(r.unwrap()) == pattern@,
{
    regex::Regex::new(pattern).ok()
}

/// Relies on `regex::Regex::is_match`: the result is a function of the
/// regex's source text and the searched string alone.
#[verifier::external_body]
pub(crate) fn regex_is_match(re: &regex::Regex, text: &str) -> (r: bool)
    ensures
        r == regex_match(regex_text(*re), text@),
{
    re.is_match(text)
}

} // verus!
