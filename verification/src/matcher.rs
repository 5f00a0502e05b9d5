//! Resolution of a convention string to a compiled matcher.
//!
//! A convention string is either one of the predefined names, or a literal
//! regular expression wrapped in a leading and a trailing `/`. Anything
//! else is a configuration error, surfaced when the convention is first
//! needed. Predefined conventions are decided by verified scans; a custom
//! regex is compiled by the `regex` crate and kept for reuse.

use vstd::prelude::*;
use vstd::string::StrSliceExecFns;
use crate::conventions::{check_predefined, predefined_matches, Predefined};
use crate::names::str_eq;
use crate::regexes::{regex_compile, regex_is_match, regex_match, regex_ok, regex_text};

verus! {

/// A compiled matcher: the immutable form a convention string resolves to.
#[derive(Debug)]
pub enum Matcher {
    Predefined(Predefined),
    Custom(regex::Regex),
}

/// An error in a convention string, found when the convention is first
/// resolved.
#[derive(Debug)]
pub enum ConventionError {
    /// The string is neither a predefined name nor `/regex/` syntax.
    UnknownConvention { convention: String },
    /// The string is `/regex/` syntax but its interior does not compile.
    InvalidRegex { convention: String, literal: String },
}

/// The predefined convention a name denotes, if any.
pub open spec fn spec_predefined_of(name: Seq<char>) -> Option<Predefined> {
    if name == "any"@ {
        Some(Predefined::Any)
    } else if name == "kebab"@ {
        Some(Predefined::Kebab)
    } else if name == "snake"@ {
        Some(Predefined::Snake)
    } else if name == "upper_snake"@ {
        Some(Predefined::UpperSnake)
    } else if name == "camel"@ {
        Some(Predefined::Camel)
    } else if name == "pascal"@ {
        Some(Predefined::Pascal)
    } else {
        None
    }
}

/// Whether a convention string is custom-regex syntax: wrapped in a
/// leading and a trailing `/`.
pub open spec fn is_custom_form(conv: Seq<char>) -> bool {
    conv.len() >= 2 && conv[0] == '/' && conv.last() == '/'
}

/// The regex literal inside a custom-form convention string.
pub open spec fn custom_body(conv: Seq<char>) -> Seq<char> {
    conv.subrange(1, conv.len() - 1)
}

/// Whether a convention string resolves to a matcher: a predefined name,
/// or custom-regex syntax whose interior compiles.
pub open spec fn resolvable(conv: Seq<char>) -> bool {
    if is_custom_form(conv) {
        regex_ok(custom_body(conv))
    } else {
        spec_predefined_of(conv) is Some
    }
}

/// What a resolvable convention string accepts.
pub open spec fn conv_matches(conv: Seq<char>, s: Seq<char>) -> bool {
    if is_custom_form(conv) {
        regex_match(custom_body(conv), s)
    } else {
        match spec_predefined_of(conv) {
            Some(p) => predefined_matches(p, s),
            None => false,
        }
    }
}

/// Whether `m` is the matcher the convention string `conv` resolves to.
pub open spec fn matcher_wf(m: Matcher, conv: Seq<char>) -> bool {
    match m {
        Matcher::Predefined(p) => !is_custom_form(conv) && spec_predefined_of(conv) == Some(p),
        Matcher::Custom(re) => is_custom_form(conv) && regex_ok(custom_body(conv)) && regex_text(
            re,
        ) == custom_body(conv),
    }
}

/// What a matcher accepts.
pub open spec fn matcher_sem(m: Matcher, s: Seq<char>) -> bool {
    match m {
        Matcher::Predefined(p) => predefined_matches(p, s),
        Matcher::Custom(re) => regex_match(regex_text(re), s),
    }
}

/// The matcher a convention string resolves to accepts exactly what the
/// convention string accepts, and only resolvable strings have matchers.
pub proof fn lemma_matcher_wf_sem(m: Matcher, conv: Seq<char>, s: Seq<char>)
    requires
        matcher_wf(m, conv),
    ensures
        resolvable(conv),
        matcher_sem(m, s) == conv_matches(conv, s),
{
}

/// The error a failing convention string produces: the offending string
/// itself, and for custom-regex syntax also the literal that failed.
pub open spec fn convention_error_spec(conv: Seq<char>, e: ConventionError) -> bool {
    if is_custom_form(conv) {
        &&& !regex_ok(custom_body(conv))
        &&& e matches ConventionError::InvalidRegex { convention, literal } && convention@ == conv
            && literal@ == custom_body(conv)
    } else {
        &&& spec_predefined_of(conv) is None
        &&& e matches ConventionError::UnknownConvention { convention } && convention@ == conv
    }
}

/// The predefined convention `name` denotes, if any.
pub fn predefined_of(name: &str) -> (r: Option<Predefined>)
    ensures
        r == spec_predefined_of(name@),
{
    if str_eq(name, "any") {
        Some(Predefined::Any)
    } else if str_eq(name, "kebab") {
        Some(Predefined::Kebab)
    } else if str_eq(name, "snake") {
        Some(Predefined::Snake)
    } else if str_eq(name, "upper_snake") {
        Some(Predefined::UpperSnake)
    } else if str_eq(name, "camel") {
        Some(Predefined::Camel)
    } else if str_eq(name, "pascal") {
        Some(Predefined::Pascal)
    } else {
        None
    }
}

/// Resolves a convention string to a freshly compiled matcher, or to the
/// error that makes it unresolvable.
pub fn new_matcher_for_convention(convention: &str) -> (r: Result<Matcher, ConventionError>)
    ensures
        r is Ok <==> resolvable(convention@),
        r is Ok ==> matcher_wf(r->Ok_0, convention@),
        r is Err ==> convention_error_spec(convention@, r->Err_0),
{
    let n = convention.unicode_len();
    if n >= 2 && convention.get_char(0) == '/' && convention.get_char(n - 1) == '/' {
        let body = convention.substring_char(1, n - 1);
        match regex_compile(body) {
            Some(re) => Ok(Matcher::Custom(re)),
            None => Err(
                ConventionError::InvalidRegex {
                    convention: convention.to_owned(),
                    literal: body.to_owned(),
                },
            ),
        }
    } else {
        match predefined_of(convention) {
            Some(p) => Ok(Matcher::Predefined(p)),
            None => Err(ConventionError::UnknownConvention { convention: convention.to_owned() }),
        }
    }
}

/// Evaluates a matcher against a string.
pub fn matcher_is_match(m: &Matcher, s: &str) -> (r: bool)
    ensures
        r == matcher_sem(*m, s@),
{
    match m {
        Matcher::Predefined(p) => check_predefined(*p, s),
        Matcher::Custom(re) => regex_is_match(re, s),
    }
}

} // verus!
