//! Validation of raw configurations: glob compilation, fail-fast order,
//! and eager resolution of the default convention.

use ficon::config::{Config, ConfigError, SubConfig, SubConfigByPattern, ValidatedConfig};
use ficon::matcher::ConventionError;
use ficon::{CliOption, Ficon};

fn cfg(default: &str, overrides: &[(&str, &str)]) -> Config {
    let for_patterns = if overrides.is_empty() {
        None
    } else {
        Some(
            overrides
                .iter()
                .map(|(pattern, convention)| SubConfigByPattern {
                    pattern: pattern.to_string(),
                    convention: convention.to_string(),
                })
                .collect(),
        )
    };
    Config {
        default: SubConfig {
            convention: default.to_string(),
        },
        for_patterns,
    }
}

fn build(default: &str, overrides: &[(&str, &str)]) -> Result<Ficon, ConfigError> {
    Ficon::new(
        CliOption {
            path: ".".to_string(),
        },
        cfg(default, overrides),
    )
}

#[test]
fn valid_configuration_is_accepted() {
    assert!(build("kebab", &[]).is_ok());
    assert!(build("any", &[("*.rs", "snake"), ("*.md", "any")]).is_ok());
    // an override's convention is not resolved at validation time
    assert!(build("any", &[("*", "bogus")]).is_ok());
    assert!(build("any", &[("*", "/([/")]).is_ok());
}

#[test]
fn malformed_glob_is_rejected_with_its_position() {
    match build("any", &[("[", "snake")]).map(|_| ()) {
        Err(ConfigError::InvalidPattern { pattern, index }) => {
            assert_eq!(pattern, "[");
            assert_eq!(index, 0);
        }
        other => panic!("expected an invalid-pattern error, got {:?}", other),
    }
}

#[test]
fn first_malformed_glob_wins() {
    match build("any", &[("*.rs", "snake"), ("a**b", "any"), ("[", "any")]).map(|_| ()) {
        Err(ConfigError::InvalidPattern { pattern, index }) => {
            assert_eq!(pattern, "a**b");
            assert_eq!(index, 1);
        }
        other => panic!("expected an invalid-pattern error, got {:?}", other),
    }
}

#[test]
fn unknown_default_convention_fails_at_validation() {
    match build("bogus", &[]).map(|_| ()) {
        Err(ConfigError::InvalidDefaultConvention(ConventionError::UnknownConvention {
            convention,
        })) => {
            assert_eq!(convention, "bogus");
        }
        other => panic!("expected an unknown-convention error, got {:?}", other),
    }
}

#[test]
fn malformed_default_regex_fails_at_validation() {
    match build("/)/", &[]).map(|_| ()) {
        Err(ConfigError::InvalidDefaultConvention(ConventionError::InvalidRegex {
            convention,
            literal,
        })) => {
            assert_eq!(convention, "/)/");
            assert_eq!(literal, ")");
        }
        other => panic!("expected an invalid-regex error, got {:?}", other),
    }
}

#[test]
fn bad_default_is_reported_before_bad_glob() {
    match build("bogus", &[("[", "snake")]).map(|_| ()) {
        Err(ConfigError::InvalidDefaultConvention(_)) => {}
        other => panic!("expected a default-convention error, got {:?}", other),
    }
}

#[test]
fn resolver_component_checks_paths() {
    let config = cfg("kebab", &[("*.test.*", "any")]);
    let mut validated = ValidatedConfig::try_from(config).unwrap();
    assert_eq!(validated.resolve_and_check("WeirdName.test.ts").unwrap(), true);
    assert_eq!(validated.resolve_and_check("WeirdName.ts").unwrap(), false);
    assert_eq!(validated.resolve_and_check("dir/my-file.rs").unwrap(), true);
}
