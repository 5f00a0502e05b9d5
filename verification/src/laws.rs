//! Laws of convention resolution.
//!
//! These proof functions state, over the specification-level outcome of a
//! check, what the resolution engine guarantees about override precedence
//! and about configurations without overrides.

use vstd::prelude::*;
use crate::config::{check_outcome, lemma_selected_at, selected_convention};
use crate::globs::glob_match;
use crate::names::{base_name, checked_name};

verus! {

/// With no overrides, the outcome of a check depends only on the default
/// convention and the checked base name of the path: two paths whose
/// checked base names agree get the same outcome.
pub proof fn lemma_default_governs(default: Seq<char>, path1: Seq<char>, path2: Seq<char>)
    requires
        checked_name(base_name(path1)) == checked_name(base_name(path2)),
    ensures
        check_outcome(Seq::<(Seq<char>, Seq<char>)>::empty(), default, path1) == check_outcome(
            Seq::<(Seq<char>, Seq<char>)>::empty(),
            default,
            path2,
        ),
{
}

/// Override precedence: when `i` is the first override whose glob pattern
/// matches the path, the path's convention is that override's, and the
/// outcome equals the outcome under that single override alone — the
/// overrides listed after it, matching or not, change nothing.
pub proof fn lemma_first_override_governs(
    ovs: Seq<(Seq<char>, Seq<char>)>,
    default: Seq<char>,
    path: Seq<char>,
    i: int,
)
    requires
        0 <= i < ovs.len(),
        glob_match(ovs[i].0, path),
        forall|k: int| 0 <= k < i ==> !glob_match(#[trigger] ovs[k].0, path),
    ensures
        selected_convention(ovs, default, path) == ovs[i].1,
        check_outcome(ovs, default, path) == check_outcome(seq![ovs[i]], default, path),
{
    lemma_selected_at(ovs, default, path, i);
    let single = seq![ovs[i]];
    assert(single[0] == ovs[i]);
    assert(selected_convention(single, default, path) == ovs[i].1);
}

} // verus!
