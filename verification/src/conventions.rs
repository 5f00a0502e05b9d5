//! The predefined naming conventions and their meaning.
//!
//! Each predefined convention is an anchored rule on the characters of a
//! file's checked base name. The rules are stated as spec functions over
//! `Seq<char>` and decided by verified character scans.

use vstd::prelude::*;
use vstd::string::StrSliceExecFns;

verus! {

/// The closed set of predefined convention names.
#[derive(Clone, Copy, PartialEq, Eq, Structural, Debug)]
pub enum Predefined {
    Any,
    Kebab,
    Snake,
    UpperSnake,
    Camel,
    Pascal,
}

pub open spec fn is_lower(c: char) -> bool {
    'a' <= c && c <= 'z'
}

pub open spec fn is_upper(c: char) -> bool {
    'A' <= c && c <= 'Z'
}

pub open spec fn is_digit(c: char) -> bool {
    '0' <= c && c <= '9'
}

/// Kebab case: at least two characters, a lowercase letter first, a
/// lowercase letter or digit last, and only lowercase letters, digits or
/// hyphens in between.
pub open spec fn kebab_spec(s: Seq<char>) -> bool {
    &&& s.len() >= 2
    &&& is_lower(s[0])
    &&& is_lower(s.last()) || is_digit(s.last())
    &&& forall|i: int|
        0 < i < s.len() - 1 ==> is_lower(#[trigger] s[i]) || is_digit(s[i]) || s[i] == '-'
}

/// Snake case: the same shape as kebab case with `_` instead of `-`.
pub open spec fn snake_spec(s: Seq<char>) -> bool {
    &&& s.len() >= 2
    &&& is_lower(s[0])
    &&& is_lower(s.last()) || is_digit(s.last())
    &&& forall|i: int|
        0 < i < s.len() - 1 ==> is_lower(#[trigger] s[i]) || is_digit(s[i]) || s[i] == '_'
}

/// Upper snake case: an uppercase letter first, then uppercase letters,
/// digits or underscores.
pub open spec fn upper_snake_spec(s: Seq<char>) -> bool {
    &&& s.len() >= 1
    &&& is_upper(s[0])
    &&& forall|i: int|
        0 < i < s.len() ==> is_upper(#[trigger] s[i]) || is_digit(s[i]) || s[i] == '_'
}

/// Camel case: a lowercase letter first, then letters or digits.
pub open spec fn camel_spec(s: Seq<char>) -> bool {
    &&& s.len() >= 1
    &&& is_lower(s[0])
    &&& forall|i: int|
        0 < i < s.len() ==> is_lower(#[trigger] s[i]) || is_upper(s[i]) || is_digit(s[i])
}

/// Pascal case: an uppercase letter first, then letters or digits.
pub open spec fn pascal_spec(s: Seq<char>) -> bool {
    &&& s.len() >= 1
    &&& is_upper(s[0])
    &&& forall|i: int|
        0 < i < s.len() ==> is_lower(#[trigger] s[i]) || is_upper(s[i]) || is_digit(s[i])
}

/// What each predefined convention accepts.
pub open spec fn predefined_matches(p: Predefined, s: Seq<char>) -> bool {
    match p {
        Predefined::Any => true,
        Predefined::Kebab => kebab_spec(s),
        Predefined::Snake => snake_spec(s),
        Predefined::UpperSnake => upper_snake_spec(s),
        Predefined::Camel => camel_spec(s),
        Predefined::Pascal => pascal_spec(s),
    }
}

fn char_is_lower(c: char) -> (r: bool)
    ensures
        r == is_lower(c),
{
    'a' <= c && c <= 'z'
}

fn char_is_upper(c: char) -> (r: bool)
    ensures
        r == is_upper(c),
{
    'A' <= c && c <= 'Z'
}

fn char_is_digit(c: char) -> (r: bool)
    ensures
        r == is_digit(c),
{
    '0' <= c && c <= '9'
}

/// Decides whether `s` satisfies the predefined convention `p`.
pub fn check_predefined(p: Predefined, s: &str) -> (r: bool)
    ensures
        r == predefined_matches(p, s@),
{
    match p {
        Predefined::Any => true,
        Predefined::Kebab => check_separated_lower(s, '-'),
        Predefined::Snake => check_separated_lower(s, '_'),
        Predefined::UpperSnake => check_upper_snake(s),
        Predefined::Camel => check_word(s, false),
        Predefined::Pascal => check_word(s, true),
    }
}

/// Decides the shared shape of kebab and snake case, with `sep` as the
/// interior separator character.
fn check_separated_lower(s: &str, sep: char) -> (r: bool)
    ensures
        r == (s@.len() >= 2 && is_lower(s@[0]) && (is_lower(s@.last()) || is_digit(s@.last()))
            && forall|i: int|
            0 < i < s@.len() - 1 ==> is_lower(#[trigger] s@[i]) || is_digit(s@[i]) || s@[i]
                == sep),
{
    let n = s.unicode_len();
    if n < 2 {
        return false;
    }
    if !char_is_lower(s.get_char(0)) {
        return false;
    }
    let last = s.get_char(n - 1);
    if !(char_is_lower(last) || char_is_digit(last)) {
        return false;
    }
    let mut i: usize = 1;
    while i < n - 1
        invariant
            1 <= i <= n - 1,
            n == s@.len(),
            n >= 2,
            forall|j: int| 0 < j < i ==> is_lower(#[trigger] s@[j]) || is_digit(s@[j]) || s@[j] == sep,
        decreases n - 1 - i,
    {
        let c = s.get_char(i);
        if !(char_is_lower(c) || char_is_digit(c) || c == sep) {
            return false;
        }
        i = i + 1;
    }
    true
}

fn check_upper_snake(s: &str) -> (r: bool)
    ensures
        r == upper_snake_spec(s@),
{
    let n = s.unicode_len();
    if n == 0 {
        return false;
    }
    if !char_is_upper(s.get_char(0)) {
        return false;
    }
    let mut i: usize = 1;
    while i < n
        invariant
            1 <= i <= n,
            n == s@.len(),
            forall|j: int| 0 < j < i ==> is_upper(#[trigger] s@[j]) || is_digit(s@[j]) || s@[j] == '_',
        decreases n - i,
    {
        let c = s.get_char(i);
        if !(char_is_upper(c) || char_is_digit(c) || c == '_') {
            return false;
        }
        i = i + 1;
    }
    true
}

/// Decides camel case (`upper_first` false) and pascal case (`upper_first`
/// true): a letter of the given case first, then letters or digits.
fn check_word(s: &str, upper_first: bool) -> (r: bool)
    ensures
        r == (s@.len() >= 1 && (if upper_first {
            is_upper(s@[0])
        } else {
            is_lower(s@[0])
        }) && forall|i: int|
            0 < i < s@.len() ==> is_lower(#[trigger] s@[i]) || is_upper(s@[i]) || is_digit(s@[i])),
{
    let n = s.unicode_len();
    if n == 0 {
        return false;
    }
    let first = s.get_char(0);
    let first_ok = if upper_first {
        char_is_upper(first)
    } else {
        char_is_lower(first)
    };
    if !first_ok {
        return false;
    }
    let mut i: usize = 1;
    while i < n
        invariant
            1 <= i <= n,
            n == s@.len(),
            forall|j: int|
                0 < j < i ==> is_lower(#[trigger] s@[j]) || is_upper(s@[j]) || is_digit(s@[j]),
        decreases n - i,
    {
        let c = s.get_char(i);
        if !(char_is_lower(c) || char_is_upper(c) || char_is_digit(c)) {
            return false;
        }
        i = i + 1;
    }
    true
}

} // verus!
