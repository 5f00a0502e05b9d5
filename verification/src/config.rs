//! Raw and validated configuration.
//!
//! A raw `Config` holds a default convention string and an ordered list of
//! overrides, each binding a glob pattern to a convention string. Validation
//! compiles every glob pattern (failing fast on the first malformed one,
//! naming it and its position) and compiles the default convention's matcher
//! eagerly, since it is always reachable; each override's matcher is
//! compiled lazily, on the first path that selects it, and cached for the
//! rest of the run.

use vstd::prelude::*;
use crate::globs::{glob_compile, glob_match, glob_matches, glob_ok, glob_text};
use crate::matcher::{
    conv_matches, convention_error_spec, lemma_matcher_wf_sem, matcher_is_match, matcher_wf,
    new_matcher_for_convention, resolvable, ConventionError, Matcher,
};
use crate::names::{base_name, base_name_of, checked_name, has_base_name, truncated};

verus! {

/// The default section of a raw configuration: a convention string.
pub struct SubConfig {
    pub convention: String,
}

/// One raw override: a glob pattern and the convention string it selects.
pub struct SubConfigByPattern {
    pub pattern: String,
    pub convention: String,
}

/// A raw configuration, as read from the configuration document: a default
/// convention and an optional ordered list of overrides.
pub struct Config {
    pub default: SubConfig,
    pub for_patterns: Option<Vec<SubConfigByPattern>>,
}

impl Config {
    /// The overrides as (pattern text, convention text) pairs, in order.
    pub closed spec fn overrides_view(&self) -> Seq<(Seq<char>, Seq<char>)> {
        match self.for_patterns {
            Some(v) => v@.map(|i: int, sc: SubConfigByPattern| (sc.pattern@, sc.convention@)),
            None => Seq::<(Seq<char>, Seq<char>)>::empty(),
        }
    }

    /// The default convention string.
    pub closed spec fn default_view(&self) -> Seq<char> {
        self.default.convention@
    }
}

/// An error found while validating a raw configuration.
#[derive(Debug)]
pub enum ConfigError {
    /// The default convention string does not resolve.
    InvalidDefaultConvention(ConventionError),
    /// An override's glob pattern does not compile; `index` is its position
    /// in the override list.
    InvalidPattern { pattern: String, index: usize },
}

/// Whether every override's glob pattern compiles.
pub open spec fn all_globs_ok(ovs: Seq<(Seq<char>, Seq<char>)>) -> bool {
    forall|i: int| 0 <= i < ovs.len() ==> glob_ok(#[trigger] ovs[i].0)
}

/// The error a failing raw configuration produces: a default convention
/// that does not resolve is reported first; otherwise the first override
/// whose glob pattern does not compile is named with its position.
pub open spec fn config_error_spec(
    default: Seq<char>,
    ovs: Seq<(Seq<char>, Seq<char>)>,
    e: ConfigError,
) -> bool {
    if !resolvable(default) {
        e matches ConfigError::InvalidDefaultConvention(ce) && convention_error_spec(default, ce)
    } else {
        e matches ConfigError::InvalidPattern { pattern, index }
            && index < ovs.len()
            && pattern@ == ovs[index as int].0
            && !glob_ok(ovs[index as int].0)
            && forall|k: int| 0 <= k < index ==> glob_ok(#[trigger] ovs[k].0)
    }
}

/// One validated override: the compiled glob pattern, the convention
/// string it selects, and the convention's lazily cached matcher.
pub struct ValidatedOverride {
    pattern: glob::Pattern,
    convention: String,
    cached_matcher: Option<Matcher>,
}

impl ValidatedOverride {
    /// The override as a (pattern text, convention text) pair.
    pub closed spec fn view_pair(&self) -> (Seq<char>, Seq<char>) {
        (glob_text(self.pattern), self.convention@)
    }

    /// Whether the cache slot is consistent: a cached matcher is the one
    /// this override's convention string resolves to.
    pub closed spec fn wf(&self) -> bool {
        self.cached_matcher matches Some(m) ==> matcher_wf(m, self.convention@)
    }
}

/// A validated configuration: the default convention with its eagerly
/// compiled matcher, and the ordered override list.
pub struct ValidatedConfig {
    default_convention: String,
    default_matcher: Matcher,
    overrides: Vec<ValidatedOverride>,
}

/// The convention string an override list and a default select for a path:
/// the convention of the first override whose glob pattern matches the
/// path, or the default when none does.
pub open spec fn selected_convention(
    ovs: Seq<(Seq<char>, Seq<char>)>,
    default: Seq<char>,
    path: Seq<char>,
) -> Seq<char>
    decreases ovs.len(),
{
    if ovs.len() == 0 {
        default
    } else if glob_match(ovs[0].0, path) {
        ovs[0].1
    } else {
        selected_convention(ovs.drop_first(), default, path)
    }
}

/// What checking a path against a configuration yields: `Some(b)` when the
/// selected convention resolves and accepts (`b` true) or rejects the
/// path's checked name, `None` when the selected convention does not
/// resolve.
pub open spec fn check_outcome(
    ovs: Seq<(Seq<char>, Seq<char>)>,
    default: Seq<char>,
    path: Seq<char>,
) -> Option<bool> {
    let sel = selected_convention(ovs, default, path);
    if resolvable(sel) {
        Some(conv_matches(sel, checked_name(base_name(path))))
    } else {
        None
    }
}

/// When `i` is the first override whose glob pattern matches the path, the
/// selected convention is that override's.
pub proof fn lemma_selected_at(
    ovs: Seq<(Seq<char>, Seq<char>)>,
    default: Seq<char>,
    path: Seq<char>,
    i: int,
)
    requires
        0 <= i < ovs.len(),
        glob_match(ovs[i].0, path),
        forall|k: int| 0 <= k < i ==> !glob_match(#[trigger] ovs[k].0, path),
    ensures
        selected_convention(ovs, default, path) == ovs[i].1,
    decreases i,
{
    if i > 0 {
        assert(!glob_match(ovs[0].0, path));
        let tail = ovs.drop_first();
        assert(tail[i - 1] == ovs[i]);
        assert(forall|k: int| 0 <= k < i - 1 ==> tail[k] == ovs[k + 1]);
        lemma_selected_at(tail, default, path, i - 1);
    }
}

/// When no override's glob pattern matches the path, the selected
/// convention is the default.
pub proof fn lemma_selected_default(
    ovs: Seq<(Seq<char>, Seq<char>)>,
    default: Seq<char>,
    path: Seq<char>,
)
    requires
        forall|k: int| 0 <= k < ovs.len() ==> !glob_match(#[trigger] ovs[k].0, path),
    ensures
        selected_convention(ovs, default, path) == default,
    decreases ovs.len(),
{
    if ovs.len() > 0 {
        let tail = ovs.drop_first();
        assert(forall|k: int| 0 <= k < tail.len() ==> tail[k] == ovs[k + 1]);
        lemma_selected_default(tail, default, path);
    }
}

impl ValidatedConfig {
    /// The overrides as (pattern text, convention text) pairs, in order.
    pub closed spec fn overrides_view(&self) -> Seq<(Seq<char>, Seq<char>)> {
        self.overrides@.map(|i: int, o: ValidatedOverride| o.view_pair())
    }

    /// The default convention string.
    pub closed spec fn default_view(&self) -> Seq<char> {
        self.default_convention@
    }

    /// The configuration's invariant: the default matcher is the one the
    /// default convention string resolves to, and every filled cache slot
    /// holds the matcher its override's convention string resolves to.
    pub closed spec fn wf(&self) -> bool {
        &&& matcher_wf(self.default_matcher, self.default_convention@)
        &&& forall|i: int| 0 <= i < self.overrides@.len() ==> (#[trigger] self.overrides@[i]).wf()
    }

    /// Whether override `i`'s matcher cache slot is filled.
    pub closed spec fn cached_at(&self, i: int) -> bool {
        self.overrides@[i].cached_matcher is Some
    }

    /// The validated override at position `i`, cache slot included.
    pub closed spec fn override_at(&self, i: int) -> ValidatedOverride {
        self.overrides@[i]
    }

    /// Validates a raw configuration: resolves the default convention
    /// eagerly and compiles every override's glob pattern, in order,
    /// failing on the first malformed one. Override conventions are not
    /// resolved here; their cache slots start empty.
    pub fn try_from(value: Config) -> (r: Result<ValidatedConfig, ConfigError>)
        ensures
            r is Ok <==> resolvable(value.default_view()) && all_globs_ok(value.overrides_view()),
            r is Ok ==> ({
                let c = r->Ok_0;
                &&& c.wf()
                &&& c.default_view() == value.default_view()
                &&& c.overrides_view() == value.overrides_view()
                &&& forall|i: int| 0 <= i < c.overrides_view().len() ==> !c.cached_at(i)
            }),
            r is Err ==> config_error_spec(
                value.default_view(),
                value.overrides_view(),
                r->Err_0,
            ),
    {
        let default_matcher = match new_matcher_for_convention(value.default.convention.as_str()) {
            Ok(m) => m,
            Err(e) => {
                return Err(ConfigError::InvalidDefaultConvention(e));
            },
        };
        let mut overrides: Vec<ValidatedOverride> = Vec::new();
        match &value.for_patterns {
            None => {},
            Some(pcs) => {
                let ghost ovs = value.overrides_view();
                proof {
                    assert(value.for_patterns matches Some(v) && v == *pcs);
                    assert forall|j: int| 0 <= j < pcs@.len() implies #[trigger] ovs[j] == (
                        pcs@[j].pattern@,
                        pcs@[j].convention@,
                    ) by {
                        assert(ovs[j] == pcs@.map(
                            |i: int, sc: SubConfigByPattern| (sc.pattern@, sc.convention@),
                        )[j]);
                    }
                }
                let mut i: usize = 0;
                while i < pcs.len()
                    invariant
                        0 <= i <= pcs@.len(),
                        ovs == value.overrides_view(),
                        resolvable(value.default_view()),
                        ovs.len() == pcs@.len(),
                        forall|j: int| 0 <= j < pcs@.len() ==> #[trigger] ovs[j] == (
                        pcs@[j].pattern@,
                        pcs@[j].convention@,
                        ),
                        overrides@.len() == i,
                        forall|j: int|
                            0 <= j < i ==> (#[trigger] overrides@[j]).view_pair() == ovs[j],
                        forall|j: int|
                            0 <= j < i ==> (#[trigger] overrides@[j]).cached_matcher is None,
                        forall|j: int| 0 <= j < i ==> glob_ok(#[trigger] ovs[j].0),
                    decreases pcs@.len() - i,
                {
                    let pc = &pcs[i];
                    match glob_compile(pc.pattern.as_str()) {
                        Some(pattern) => {
                            overrides.push(
                                ValidatedOverride {
                                    pattern,
                                    convention: pc.convention.clone(),
                                    cached_matcher: None,
                                },
                            );
                        },
                        None => {
                            proof {
                                assert(ovs[i as int] == (
                                    pcs@[i as int].pattern@,
                                    pcs@[i as int].convention@,
                                ));
                                assert(!glob_ok(ovs[i as int].0));
                                assert(!all_globs_ok(ovs));
                            }
                            return Err(
                                ConfigError::InvalidPattern { pattern: pc.pattern.clone(), index: i },
                            );
                        },
                    }
                    i = i + 1;
                }
            },
        }
        let result = ValidatedConfig {
            default_convention: value.default.convention,
            default_matcher,
            overrides,
        };
        proof {
            assert(result.overrides_view() =~= value.overrides_view());
        }
        Ok(result)
    }

    /// The position of the first override whose glob pattern matches the
    /// path, if any.
    fn selected_index(&self, path: &str) -> (r: Option<usize>)
        ensures
            match r {
                Some(i) => {
                    &&& i < self.overrides_view().len()
                    &&& glob_match(self.overrides_view()[i as int].0, path@)
                    &&& forall|k: int|
                        0 <= k < i ==> !glob_match(
                            (#[trigger] self.overrides_view()[k]).0,
                            path@,
                        )
                },
                None => forall|k: int|
                    0 <= k < self.overrides_view().len() ==> !glob_match(
                        (#[trigger] self.overrides_view()[k]).0,
                        path@,
                    ),
            },
    {
        let n = self.overrides.len();
        let mut i: usize = 0;
        while i < n
            invariant
                0 <= i <= n,
                n == self.overrides@.len(),
                self.overrides_view().len() == n,
                forall|k: int|
                    0 <= k < i ==> !glob_match((#[trigger] self.overrides_view()[k]).0, path@),
            decreases n - i,
        {
            let o = &self.overrides[i];
            if glob_matches(&o.pattern, path) {
                proof {
                    assert(self.overrides_view()[i as int].0 == glob_text(o.pattern));
                }
                return Some(i);
            }
            i = i + 1;
        }
        None
    }

    /// Fills override `i`'s matcher cache slot if it is empty, resolving
    /// the override's convention string; an already filled slot is reused
    /// untouched. Fails exactly when the convention string does not
    /// resolve, leaving the configuration unchanged.
    fn ensure_cached(&mut self, i: usize) -> (r: Result<(), ConventionError>)
        requires
            old(self).wf(),
            i < old(self).overrides@.len(),
        ensures
            final(self).wf(),
            final(self).default_convention == old(self).default_convention,
            final(self).default_matcher == old(self).default_matcher,
            final(self).overrides_view() == old(self).overrides_view(),
            forall|j: int|
                0 <= j < old(self).overrides@.len() && j != i ==> final(self).overrides@[j] == old(
                    self,
                ).overrides@[j],
            old(self).cached_at(i as int) ==> *final(self) == *old(self),
            r is Ok <==> resolvable(old(self).overrides_view()[i as int].1),
            r is Ok ==> final(self).cached_at(i as int),
            r is Err ==> *final(self) == *old(self) && convention_error_spec(
                old(self).overrides_view()[i as int].1,
                r->Err_0,
            ),
    {
        if self.overrides[i].cached_matcher.is_some() {
            proof {
                assert(old(self).overrides@[i as int].wf());
                assert(matcher_wf(
                    old(self).overrides@[i as int].cached_matcher->Some_0,
                    old(self).overrides@[i as int].convention@,
                ));
            }
            return Ok(());
        }
        let m = match new_matcher_for_convention(self.overrides[i].convention.as_str()) {
            Ok(m) => m,
            Err(e) => {
                proof {
                    assert(old(self).overrides_view()[i as int].1 == old(
                        self,
                    ).overrides@[i as int].convention@);
                }
                return Err(e);
            },
        };
        let slot = &mut self.overrides[i];
        slot.cached_matcher = Some(m);
        proof {
            assert(final(self).overrides_view() =~= old(self).overrides_view());
        }
        Ok(())
    }

    /// Evaluates the matcher cached at override `i` against a string.
    fn eval_override(&self, i: usize, s: &str) -> (r: bool)
        requires
            self.wf(),
            i < self.overrides@.len(),
            self.cached_at(i as int),
            resolvable(self.overrides_view()[i as int].1),
        ensures
            r == conv_matches(self.overrides_view()[i as int].1, s@),
    {
        let o = &self.overrides[i];
        match &o.cached_matcher {
            Some(m) => {
                proof {
                    lemma_matcher_wf_sem(*m, o.convention@, s@);
                }
                matcher_is_match(m, s)
            },
            None => {
                proof {
                    assert(false);
                }
                false
            },
        }
    }

    /// Selects the convention for a path, resolves its matcher (reusing
    /// the cache where it is filled, filling it otherwise) and evaluates
    /// the path's checked base name against it. A path without a checkable
    /// base name is an input invariant violation and is excluded.
    pub fn resolve_and_check(&mut self, path: &str) -> (r: Result<bool, ConventionError>)
        requires
            old(self).wf(),
            has_base_name(path@),
        ensures
            final(self).wf(),
            final(self).overrides_view() == old(self).overrides_view(),
            final(self).default_view() == old(self).default_view(),
            forall|j: int|
                0 <= j < old(self).overrides_view().len() && old(self).cached_at(j)
                    ==> final(self).override_at(j) == old(self).override_at(j),
            r is Ok <==> check_outcome(
                old(self).overrides_view(),
                old(self).default_view(),
                path@,
            ) is Some,
            r is Ok ==> Some(r->Ok_0) == check_outcome(
                old(self).overrides_view(),
                old(self).default_view(),
                path@,
            ),
            r is Err ==> convention_error_spec(
                selected_convention(old(self).overrides_view(), old(self).default_view(), path@),
                r->Err_0,
            ),
    {
        let name = truncated(base_name_of(path));
        match self.selected_index(path) {
            Some(i) => {
                proof {
                    lemma_selected_at(
                        old(self).overrides_view(),
                        old(self).default_view(),
                        path@,
                        i as int,
                    );
                }
                match self.ensure_cached(i) {
                    Ok(()) => Ok(self.eval_override(i, name)),
                    Err(e) => Err(e),
                }
            },
            None => {
                proof {
                    lemma_selected_default(
                        old(self).overrides_view(),
                        old(self).default_view(),
                        path@,
                    );
                    lemma_matcher_wf_sem(
                        self.default_matcher,
                        self.default_convention@,
                        name@,
                    );
                }
                Ok(matcher_is_match(&self.default_matcher, name))
            },
        }
    }
}

} // verus!
