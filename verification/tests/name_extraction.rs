//! Extraction of the checked name from a path: base name, extension
//! truncation, and the checkable-name predicate.

use ficon::names::{base_name_of, has_checkable_base_name, str_eq, truncated};

#[test]
fn base_name_is_the_final_component() {
    assert_eq!(base_name_of("a/b/c.txt"), "c.txt");
    assert_eq!(base_name_of("c.txt"), "c.txt");
    assert_eq!(base_name_of("dir/sub/"), "sub");
    assert_eq!(base_name_of("dir"), "dir");
    assert_eq!(base_name_of("/"), "");
    assert_eq!(base_name_of(""), "");
}

#[test]
fn truncation_drops_from_the_first_interior_dot() {
    assert_eq!(truncated("foo.bar.baz"), "foo");
    assert_eq!(truncated("archive.tar.gz"), "archive");
    assert_eq!(truncated("plain"), "plain");
    assert_eq!(truncated("name."), "name");
    // a leading dot is part of the name, not an extension separator
    assert_eq!(truncated(".hidden"), ".hidden");
    assert_eq!(truncated(".hidden.swp"), ".hidden");
    assert_eq!(truncated(""), "");
}

#[test]
fn checkable_base_name_predicate() {
    assert!(has_checkable_base_name("a/b/c.txt"));
    assert!(has_checkable_base_name("x"));
    assert!(has_checkable_base_name(".hidden"));
    assert!(!has_checkable_base_name(""));
    assert!(!has_checkable_base_name("/"));
    assert!(!has_checkable_base_name("."));
    assert!(!has_checkable_base_name(".."));
    assert!(!has_checkable_base_name("a/.."));
}

#[test]
fn string_equality_by_characters() {
    assert!(str_eq("", ""));
    assert!(str_eq("kebab", "kebab"));
    assert!(!str_eq("kebab", "snake"));
    assert!(!str_eq("kebab", "kebab "));
    assert!(str_eq("naïve", "naïve"));
}
