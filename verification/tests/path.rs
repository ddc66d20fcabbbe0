use std::path::Path;

use npm_package::{is_absolute, join_path};

#[test]
fn join_puts_a_separator_between_base_and_relative() {
    assert_eq!(join_path("a", "b"), "a/b");
    assert_eq!(join_path("/srv/app", "node_modules/x"), "/srv/app/node_modules/x");
}

#[test]
fn join_adds_no_separator_after_one() {
    assert_eq!(join_path("a/", "b"), "a/b");
    assert_eq!(join_path("/", "b"), "/b");
}

#[test]
fn join_onto_the_empty_base_is_the_relative_path() {
    assert_eq!(join_path("", "b"), "b");
    assert_eq!(join_path("", ""), "");
}

#[test]
fn join_with_an_absolute_path_is_that_path() {
    assert_eq!(join_path("a", "/b"), "/b");
    assert_eq!(join_path("", "/"), "/");
}

#[test]
fn join_of_the_empty_relative_path_ends_in_a_separator() {
    assert_eq!(join_path("a", ""), "a/");
    assert_eq!(join_path("a/", ""), "a/");
}

#[test]
fn join_keeps_the_relative_path_as_written() {
    assert_eq!(join_path("pkg", "./dist/index.mjs"), "pkg/./dist/index.mjs");
    assert_eq!(join_path("pkg", "../up"), "pkg/../up");
    assert_eq!(join_path("répertoire", "módulo"), "répertoire/módulo");
}

#[test]
fn join_writes_what_the_platform_joins() {
    let cases = [
        ("a", "b"),
        ("a/", "b"),
        ("", "b"),
        ("a", "/b"),
        ("a", ""),
        ("/", "b"),
        ("a//", "b"),
        ("pkg", "./dist/index.mjs"),
    ];
    for (base, relative) in cases {
        assert_eq!(
            Path::new(&join_path(base, relative)),
            Path::new(base).join(relative).as_path()
        );
    }
}

#[test]
fn absolute_paths_start_at_the_root() {
    assert!(is_absolute("/"));
    assert!(is_absolute("/a/b"));
    assert!(!is_absolute(""));
    assert!(!is_absolute("a/b"));
    assert!(!is_absolute("./a"));
}
