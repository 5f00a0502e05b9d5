//! Extraction of the checked name from a path.
//!
//! The checked name of a path is its final path component (trailing path
//! separators ignored) truncated at the first `.` that appears after the
//! component's first character: everything from that dot on counts as
//! extension and is discarded, so a multi-part extension is stripped whole.
//! This truncation rule is fixed, not configurable.

use vstd::prelude::*;
use vstd::string::StrSliceExecFns;

verus! {

/// `p` with every trailing `/` removed.
pub open spec fn drop_trailing_slashes(p: Seq<char>) -> Seq<char>
    decreases p.len(),
{
    if p.len() > 0 && p.last() == '/' {
        drop_trailing_slashes(p.drop_last())
    } else {
        p
    }
}

/// The suffix of `p` after its last `/` (all of `p` when it has none).
pub open spec fn after_last_slash(p: Seq<char>) -> Seq<char>
    decreases p.len(),
{
    if p.len() == 0 {
        p
    } else if p.last() == '/' {
        Seq::<char>::empty()
    } else {
        after_last_slash(p.drop_last()).push(p.last())
    }
}

/// The final path component of `p`: the part after the last `/`, with
/// trailing `/` ignored.
pub open spec fn base_name(p: Seq<char>) -> Seq<char> {
    after_last_slash(drop_trailing_slashes(p))
}

/// Whether a path has a checkable base name: a nonempty final component
/// that is neither `.` nor `..`.
pub open spec fn has_base_name(p: Seq<char>) -> bool {
    let b = base_name(p);
    &&& b.len() > 0
    &&& b != seq!['.']
    &&& b != seq!['.', '.']
}

/// `s` truncated at its first `.` at or after position `i` (all of `s`
/// when there is none).
pub open spec fn truncate_from(s: Seq<char>, i: int) -> Seq<char>
    decreases s.len() - i,
{
    if i < 0 || i >= s.len() {
        s
    } else if s[i] == '.' {
        s.subrange(0, i)
    } else {
        truncate_from(s, i + 1)
    }
}

/// The checked form of a base name: truncated at the first `.` after the
/// first character.
pub open spec fn checked_name(s: Seq<char>) -> Seq<char> {
    truncate_from(s, 1)
}

proof fn lemma_truncate_step(s: Seq<char>, i: int)
    requires
        1 <= i,
        i < s.len() ==> s[i] != '.',
    ensures
        truncate_from(s, i) == truncate_from(s, i + 1),
{
}

proof fn lemma_drop_trailing_exact(p: Seq<char>, end: int)
    requires
        0 <= end <= p.len(),
        forall|k: int| end <= k < p.len() ==> p[k] == '/',
        end > 0 ==> p[end - 1] != '/',
    ensures
        drop_trailing_slashes(p) == p.subrange(0, end),
    decreases p.len(),
{
    if p.len() > end {
        assert(p.last() == '/');
        lemma_drop_trailing_exact(p.drop_last(), end);
        assert(p.drop_last().subrange(0, end) =~= p.subrange(0, end));
    } else {
        if p.len() > 0 && p.last() == '/' {
            assert(false);
        }
        assert(p.subrange(0, end) =~= p);
    }
}

proof fn lemma_after_last_exact(p: Seq<char>, start: int, end: int)
    requires
        0 <= start <= end <= p.len(),
        forall|k: int| start <= k < end ==> p[k] != '/',
        start > 0 ==> p[start - 1] == '/',
    ensures
        after_last_slash(p.subrange(0, end)) == p.subrange(start, end),
    decreases end - start,
{
    let t = p.subrange(0, end);
    if end == start {
        if end == 0 {
            assert(t.len() == 0);
            assert(p.subrange(start, end) =~= t);
        } else {
            assert(t.last() == p[end - 1]);
            assert(t.last() == '/');
            assert(p.subrange(start, end) =~= Seq::<char>::empty());
        }
    } else {
        assert(t.last() == p[end - 1]);
        assert(t.last() != '/');
        lemma_after_last_exact(p, start, end - 1);
        assert(t.drop_last() =~= p.subrange(0, end - 1));
        assert(p.subrange(start, end - 1).push(p[end - 1]) =~= p.subrange(start, end));
    }
}

/// The final path component of `path`, with trailing `/` ignored.
pub fn base_name_of(path: &str) -> (r: &str)
    ensures
        r@ == base_name(path@),
{
    let n = path.unicode_len();
    let mut end: usize = n;
    while end > 0 && path.get_char(end - 1) == '/'
        invariant
            0 <= end <= n,
            n == path@.len(),
            forall|k: int| end <= k < n ==> path@[k] == '/',
        decreases end,
    {
        end = end - 1;
    }
    proof {
        lemma_drop_trailing_exact(path@, end as int);
    }
    let mut start: usize = end;
    while start > 0 && path.get_char(start - 1) != '/'
        invariant
            0 <= start <= end,
            end <= n,
            n == path@.len(),
            forall|k: int| start <= k < end ==> path@[k] != '/',
        decreases start,
    {
        start = start - 1;
    }
    proof {
        lemma_after_last_exact(path@, start as int, end as int);
    }
    path.substring_char(start, end)
}

/// `name` truncated at its first `.` after the first character.
pub fn truncated(name: &str) -> (r: &str)
    ensures
        r@ == checked_name(name@),
{
    let n = name.unicode_len();
    let mut i: usize = 1;
    while i < n
        invariant
            1 <= i,
            i <= n || n == 0,
            n == name@.len(),
            truncate_from(name@, 1) == truncate_from(name@, i as int),
        decreases n - i,
    {
        if name.get_char(i) == '.' {
            return name.substring_char(0, i);
        }
        proof {
            lemma_truncate_step(name@, i as int);
        }
        i = i + 1;
    }
    proof {
        if i < name@.len() {
            assert(false);
        }
    }
    name
}

/// Decides `has_base_name`: whether `path` has a nonempty final component
/// other than `.` and `..`.
pub fn has_checkable_base_name(path: &str) -> (r: bool)
    ensures
        r == has_base_name(path@),
{
    let b = base_name_of(path);
    let n = b.unicode_len();
    if n == 0 {
        return false;
    }
    if n == 1 && b.get_char(0) == '.' {
        proof {
            assert(b@ =~= seq!['.']);
        }
        return false;
    }
    if n == 2 && b.get_char(0) == '.' && b.get_char(1) == '.' {
        proof {
            assert(b@ =~= seq!['.', '.']);
        }
        return false;
    }
    proof {
        if b@ == seq!['.'] {
            assert(b@.len() == 1 && b@[0] == '.');
        }
        if b@ == seq!['.', '.'] {
            assert(b@.len() == 2 && b@[0] == '.' && b@[1] == '.');
        }
    }
    true
}

/// Decides whether two strings hold the same characters.
pub fn str_eq(a: &str, b: &str) -> (r: bool)
    ensures
        r == (a@ == b@),
{
    let na = a.unicode_len();
    let nb = b.unicode_len();
    if na != nb {
        return false;
    }
    let mut i: usize = 0;
    while i < na
        invariant
            0 <= i <= na,
            na == a@.len(),
            na == b@.len(),
            forall|j: int| 0 <= j < i ==> a@[j] == b@[j],
        decreases na - i,
    {
        if a.get_char(i) != b.get_char(i) {
            return false;
        }
        i = i + 1;
    }
    proof {
        assert(a@ =~= b@);
    }
    true
}

} // verus!
