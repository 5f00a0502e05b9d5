//! Checks whether file names follow a configured naming convention
//! (kebab-case, snake_case, PascalCase, ...), with per-glob-pattern
//! overrides and user-supplied regular expressions.
//!
//! A configuration names a default convention and an ordered list of
//! overrides, each binding a glob pattern to a convention. For each path,
//! the first override whose pattern matches the path selects the
//! convention, the default applies otherwise, and the path's base name —
//! truncated at its first interior dot, so compound extensions count as
//! extension — is evaluated against the convention's matcher. Matchers are
//! compiled once and cached: the default's eagerly at validation, each
//! override's on the first path that selects it.

pub mod config;
pub mod conventions;
pub mod globs;
pub mod laws;
pub mod matcher;
pub mod names;
pub mod regexes;

use vstd::prelude::*;
use crate::config::{
    all_globs_ok, check_outcome, config_error_spec, selected_convention, Config, ConfigError,
    ValidatedConfig, ValidatedOverride,
};
use crate::matcher::{convention_error_spec, resolvable, ConventionError};
use crate::names::has_base_name;

verus! {

/// The command-line choice the checker runs with: the directory whose tree
/// is to be checked.
pub struct CliOption {
    pub path: String,
}

/// The checker: the chosen target directory and the validated
/// configuration with its matcher cache.
pub struct Ficon {
    option: CliOption,
    validated_config: ValidatedConfig,
}

impl Ficon {
    /// The checker's invariant: its configuration is well formed.
    pub closed spec fn wf(&self) -> bool {
        self.validated_config.wf()
    }

    /// The overrides as (pattern text, convention text) pairs, in order.
    pub closed spec fn overrides_view(&self) -> Seq<(Seq<char>, Seq<char>)> {
        self.validated_config.overrides_view()
    }

    /// The default convention string.
    pub closed spec fn default_view(&self) -> Seq<char> {
        self.validated_config.default_view()
    }

    /// The target directory string.
    pub closed spec fn target_view(&self) -> Seq<char> {
        self.option.path@
    }

    /// Whether override `i`'s matcher cache slot is filled.
    pub closed spec fn cached_at(&self, i: int) -> bool {
        self.validated_config.cached_at(i)
    }

    /// The validated override at position `i`, cache slot included.
    pub closed spec fn override_at(&self, i: int) -> ValidatedOverride {
        self.validated_config.override_at(i)
    }

    /// Builds a checker from the chosen options and a raw configuration,
    /// validating the configuration: the default convention must resolve
    /// and every override's glob pattern must compile.
    pub fn new(option: CliOption, config: Config) -> (r: Result<Ficon, ConfigError>)
        ensures
            r is Ok <==> resolvable(config.default_view()) && all_globs_ok(
                config.overrides_view(),
            ),
            r is Ok ==> ({
                let f = r->Ok_0;
                &&& f.wf()
                &&& f.default_view() == config.default_view()
                &&& f.overrides_view() == config.overrides_view()
                &&& f.target_view() == option.path@
                &&& forall|i: int| 0 <= i < f.overrides_view().len() ==> !f.cached_at(i)
            }),
            r is Err ==> config_error_spec(
                config.default_view(),
                config.overrides_view(),
                r->Err_0,
            ),
    {
        match ValidatedConfig::try_from(config) {
            Ok(validated_config) => Ok(Ficon { option, validated_config }),
            Err(e) => Err(e),
        }
    }

    /// The directory whose tree is to be checked.
    pub fn target_dir(&self) -> (r: &str)
        ensures
            r@ == self.target_view(),
    {
        self.option.path.as_str()
    }

    /// Checks one path: selects its convention (first matching override,
    /// else the default), resolves the convention's matcher — reusing the
    /// cache, so a convention is never compiled twice — and evaluates the
    /// path's checked base name. The outcome is a function of the
    /// configuration's view and the path alone, and the view is preserved,
    /// so checking the same path again yields the same result.
    pub fn check(&mut self, path: &str) -> (r: Result<bool, ConventionError>)
        requires
            old(self).wf(),
            has_base_name(path@),
        ensures
            final(self).wf(),
            final(self).overrides_view() == old(self).overrides_view(),
            final(self).default_view() == old(self).default_view(),
            final(self).target_view() == old(self).target_view(),
            forall|j: int|
                0 <= j < old(self).overrides_view().len() && old(self).cached_at(j)
                    ==> final(self).override_at(j) == old(self).override_at(j),
            r is Ok <==> check_outcome(
                old(self).overrides_view(),
                old(self).default_view(),
                path@,
            ) is Some,
            r is Ok ==> Some(r->Ok_0) == check_outcome(
                old(self).overrides_view(),
                old(self).default_view(),
                path@,
            ),
            r is Err ==> convention_error_spec(
                selected_convention(old(self).overrides_view(), old(self).default_view(), path@),
                r->Err_0,
            ),
    {
        self.validated_config.resolve_and_check(path)
    }
}

} // verus!
