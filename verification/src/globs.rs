//! Trusted boundary to the `glob` crate.
//!
//! A compiled `glob::Pattern` is opaque to the verifier; it carries exactly
//! the pattern text it was compiled from (the crate stores the text in the
//! `original` field and returns it from `Pattern::as_str`). `glob_text`
//! names that text, and the two uninterpreted predicates name the results
//! of `Pattern::new` and `Pattern::matches`, both of which are pure
//! functions of the pattern text and the matched string alone.

use vstd::prelude::*;

verus! {

#[verifier::external_type_specification]
#[verifier::external_body]
pub struct ExGlobPattern(glob::Pattern);

/// The pattern text a compiled `glob::Pattern` holds.
pub uninterp spec fn glob_text(p: glob::Pattern) -> Seq<char>;

/// Whether `glob::Pattern::new` accepts the pattern text.
pub uninterp spec fn glob_ok(pattern: Seq<char>) -> bool;

/// What `glob::Pattern::matches_with` returns for a pattern text and a
/// path, with `*` and `?` kept from crossing path separators (`**` still
/// crosses them).
pub uninterp spec fn glob_match(pattern: Seq<char>, path: Seq<char>) -> bool;

/// Relies on `glob::Pattern::new`: it succeeds exactly on well-formed glob
/// syntax, and the compiled pattern keeps the given text as its source.
#[verifier::external_body]
pub(crate) fn glob_compile(pattern: &str) -> (r: Option<glob::Pattern>)
    ensures
        r is Some <==> glob_ok(pattern@),
        r is Some ==> glob_text(r.unwrap()) == pattern@,
{
    glob::Pattern::new(pattern).ok()
}

/// Relies on `glob::Pattern::matches_with`: the result is a function of
/// the pattern's source text, the matched string and the fixed options
/// alone. The options make `/` literal, so `*` stays within one path
/// component while `**` spans components.
#[verifier::external_body]
pub(crate) fn glob_matches(p: &glob::Pattern, path: &str) -> (r: bool)
    ensures
        r == glob_match(glob_text(*p), path@),
{
    let options = glob::MatchOptions {
        case_sensitive: true,
        require_literal_separator: true,
        require_literal_leading_dot: false,
    };
    p.matches_with(path, options)
}

} // verus!
