//! Checks of the predefined conventions, custom regexes, override
//! precedence and the matcher cache, through the public checker API.

use ficon::config::{Config, SubConfig, SubConfigByPattern};
use ficon::conventions::{check_predefined, Predefined};
use ficon::matcher::ConventionError;
use ficon::{CliOption, Ficon};

fn cfg(default: &str, overrides: &[(&str, &str)]) -> Config {
    let for_patterns = if overrides.is_empty() {
        None
    } else {
        Some(
            overrides
                .iter()
                .map(|(pattern, convention)| SubConfigByPattern {
                    pattern: pattern.to_string(),
                    convention: convention.to_string(),
                })
                .collect(),
        )
    };
    Config {
        default: SubConfig {
            convention: default.to_string(),
        },
        for_patterns,
    }
}

fn checker(default: &str, overrides: &[(&str, &str)]) -> Ficon {
    Ficon::new(
        CliOption {
            path: ".".to_string(),
        },
        cfg(default, overrides),
    )
    .unwrap()
}

#[test]
fn kebab_accepts_and_rejects() {
    let mut f = checker("kebab", &[]);
    assert_eq!(f.check("my-file").unwrap(), true);
    assert_eq!(f.check("MyFile").unwrap(), false);
    assert_eq!(f.check("-leading").unwrap(), false);
    assert_eq!(f.check("trailing-").unwrap(), false);
}

#[test]
fn snake_accepts_and_rejects() {
    let mut f = checker("snake", &[]);
    assert_eq!(f.check("my_file2").unwrap(), true);
    assert_eq!(f.check("My_File").unwrap(), false);
}

#[test]
fn upper_snake_accepts_and_rejects() {
    let mut f = checker("upper_snake", &[]);
    assert_eq!(f.check("MY_CONST_1").unwrap(), true);
    assert_eq!(f.check("my_const").unwrap(), false);
}

#[test]
fn camel_accepts_and_rejects() {
    let mut f = checker("camel", &[]);
    assert_eq!(f.check("myVar2").unwrap(), true);
    assert_eq!(f.check("MyVar").unwrap(), false);
}

#[test]
fn pascal_accepts_and_rejects() {
    let mut f = checker("pascal", &[]);
    assert_eq!(f.check("MyClass").unwrap(), true);
    assert_eq!(f.check("myClass").unwrap(), false);
}

#[test]
fn any_accepts_everything() {
    let mut f = checker("any", &[]);
    assert_eq!(f.check("WeirdName-_.ts").unwrap(), true);
    assert_eq!(f.check("x").unwrap(), true);
}

#[test]
fn custom_regex_is_applied() {
    let mut f = checker("/^v\\d+$/", &[]);
    assert_eq!(f.check("v2").unwrap(), true);
    assert_eq!(f.check("version2").unwrap(), false);
}

#[test]
fn override_beats_default() {
    let mut f = checker("kebab", &[("*.test.*", "any")]);
    assert_eq!(f.check("WeirdName.test.ts").unwrap(), true);
    assert_eq!(f.check("WeirdName.ts").unwrap(), false);
}

#[test]
fn first_matching_override_wins() {
    let mut both = checker("any", &[("*", "pascal"), ("*", "snake")]);
    let mut first_only = checker("any", &[("*", "pascal")]);
    for name in ["MyClass", "my_file", "neither one"] {
        assert_eq!(
            both.check(name).unwrap(),
            first_only.check(name).unwrap()
        );
    }
    assert_eq!(both.check("MyClass").unwrap(), true);
    assert_eq!(both.check("my_file").unwrap(), false);
}

#[test]
fn default_applies_when_no_override_matches() {
    let mut f = checker("snake", &[("*.test.*", "any")]);
    assert_eq!(f.check("my_file").unwrap(), true);
    assert_eq!(f.check("My-File").unwrap(), false);
}

#[test]
fn glob_pattern_selects_by_full_path() {
    let mut f = checker("any", &[("src/**/*.rs", "snake")]);
    assert_eq!(f.check("src/deep/dir/my_file.rs").unwrap(), true);
    assert_eq!(f.check("src/deep/dir/MyFile.rs").unwrap(), false);
    // `*` does not cross path separators, so the override is not selected
    // and the default accepts the same base name.
    let mut g = checker("any", &[("src/*.rs", "snake")]);
    assert_eq!(g.check("src/deep/MyFile.rs").unwrap(), true);
}

#[test]
fn unknown_convention_fails_at_first_use() {
    let mut f = checker("any", &[("*", "bogus")]);
    match f.check("anything") {
        Err(ConventionError::UnknownConvention { convention }) => {
            assert_eq!(convention, "bogus");
        }
        other => panic!("expected an unknown-convention error, got {:?}", other),
    }
}

#[test]
fn malformed_custom_regex_fails_at_first_use() {
    let mut f = checker("any", &[("*", "/([/")]);
    match f.check("anything") {
        Err(ConventionError::InvalidRegex {
            convention,
            literal,
        }) => {
            assert_eq!(convention, "/([/");
            assert_eq!(literal, "([");
        }
        other => panic!("expected an invalid-regex error, got {:?}", other),
    }
}

#[test]
fn check_is_idempotent() {
    let mut f = checker("kebab", &[("*.test.*", "/^[Ww]eird/")]);
    for path in ["my-file", "WeirdName.test.ts", "bad_name", "v.test.x"] {
        let first = f.check(path).unwrap();
        let second = f.check(path).unwrap();
        assert_eq!(first, second);
    }
}

#[test]
fn extension_truncation_checks_leading_segment() {
    let mut kebab = checker("kebab", &[]);
    assert_eq!(kebab.check("foo.bar.baz").unwrap(), true);
    let mut pascal = checker("pascal", &[]);
    assert_eq!(pascal.check("foo.bar.baz").unwrap(), false);
    let mut exact = checker("/^foo$/", &[]);
    assert_eq!(exact.check("foo.bar.baz").unwrap(), true);
}

#[test]
fn predefined_rules_on_edge_names() {
    // kebab and snake ask for at least two characters
    assert!(!check_predefined(Predefined::Kebab, "a"));
    assert!(!check_predefined(Predefined::Snake, "a"));
    assert!(check_predefined(Predefined::Kebab, "ab"));
    assert!(check_predefined(Predefined::Kebab, "a1"));
    assert!(!check_predefined(Predefined::Kebab, "1a"));
    // one letter is enough for the others
    assert!(check_predefined(Predefined::Camel, "a"));
    assert!(check_predefined(Predefined::Pascal, "A"));
    assert!(check_predefined(Predefined::UpperSnake, "A"));
    // upper snake may end in an underscore, kebab may not end in a hyphen
    assert!(check_predefined(Predefined::UpperSnake, "A_"));
    assert!(!check_predefined(Predefined::Kebab, "a-"));
    // the empty name fails everything but `any`
    assert!(check_predefined(Predefined::Any, ""));
    assert!(!check_predefined(Predefined::Camel, ""));
    assert!(!check_predefined(Predefined::Pascal, ""));
    assert!(!check_predefined(Predefined::UpperSnake, ""));
}

#[test]
fn target_dir_returns_chosen_path() {
    let f = Ficon::new(
        CliOption {
            path: "some/dir".to_string(),
        },
        cfg("any", &[]),
    )
    .unwrap();
    assert_eq!(f.target_dir(), "some/dir");
}

#[test]
fn no_overrides_depends_only_on_checked_name() {
    let mut f = checker("kebab", &[]);
    // same checked base name under different directories and extensions
    let a = f.check("x/y/my-file.tar.gz").unwrap();
    let b = f.check("z/my-file.txt").unwrap();
    assert_eq!(a, b);
    assert!(a);
}
