use npm_package::{
    get_package_json, get_package_json_path, is_package_exists, manifest_path, package_root,
    resolve, Options, PackageError, PackageJSON, Store, StoredFile,
};

fn manifest(version: &str) -> PackageJSON {
    PackageJSON {
        version: Some(String::from(version)),
        main: Some(String::from("index.js")),
        ..PackageJSON::default()
    }
}

fn store_with(paths: &[&str]) -> Store {
    let mut store = Store::new();
    for path in paths {
        store.insert(String::from(*path), StoredFile::Manifest(manifest("1.0.0")));
    }
    store
}

#[test]
fn the_default_options_have_no_base_directory() {
    assert_eq!(Options::default().cwd, None);
    assert_eq!(Options::default().base(), "");
    assert_eq!(Options { cwd: Some("/srv") }.base(), "/srv");
}

#[test]
fn the_manifest_is_looked_for_in_node_modules() {
    assert_eq!(
        manifest_path("abc", &Options::default()),
        "node_modules/abc/package.json"
    );
    assert_eq!(
        manifest_path("abc", &Options { cwd: Some("/srv/app") }),
        "/srv/app/node_modules/abc/package.json"
    );
    assert_eq!(
        manifest_path("@scope/abc", &Options { cwd: Some("rel/") }),
        "rel/node_modules/@scope/abc/package.json"
    );
    assert_eq!(
        manifest_path("", &Options::default()),
        "node_modules//package.json"
    );
}

#[test]
fn the_package_root_holds_the_manifest() {
    let options = Options { cwd: Some("/srv/app") };
    assert_eq!(package_root("abc", &options), "/srv/app/node_modules/abc");
    assert_eq!(package_root("abc", &Options::default()), "node_modules/abc");
    for name in ["abc", "@scope/abc", "", "a b"] {
        assert_eq!(
            manifest_path(name, &options),
            format!("{}/package.json", package_root(name, &options))
        );
    }
}

#[test]
fn resolve_confirms_that_the_path_exists() {
    let store = store_with(&["/srv/lib/a.js"]);
    let options = Options { cwd: Some("/srv") };
    assert_eq!(
        resolve("lib/a.js", &options, &store),
        Ok(String::from("/srv/lib/a.js"))
    );
    assert_eq!(
        resolve("lib/b.js", &options, &store),
        Err(PackageError::NotFound)
    );
    assert_eq!(
        resolve("lib/a.js", &Options::default(), &store),
        Err(PackageError::NotFound)
    );
}

#[test]
fn resolve_tries_one_path_only() {
    let store = store_with(&["/srv/lib/a.js", "/srv/node_modules/a/package.json"]);
    let options = Options { cwd: Some("/srv/deep/down") };
    assert_eq!(
        resolve("lib/a", &Options { cwd: Some("/srv") }, &store),
        Err(PackageError::NotFound)
    );
    assert_eq!(
        resolve("node_modules/a/package.json", &options, &store),
        Err(PackageError::NotFound)
    );
    assert!(!is_package_exists("a", &options, &store));
}

#[test]
fn resolve_of_an_absolute_id_leaves_the_base_aside() {
    let store = store_with(&["/etc/a.json"]);
    assert_eq!(
        resolve("/etc/a.json", &Options { cwd: Some("/srv") }, &store),
        Ok(String::from("/etc/a.json"))
    );
}

#[test]
fn the_manifest_path_of_an_installed_package_is_found() {
    let store = store_with(&["/srv/node_modules/abc/package.json"]);
    let options = Options { cwd: Some("/srv") };
    assert_eq!(
        get_package_json_path("abc", &options, &store),
        Some(String::from("/srv/node_modules/abc/package.json"))
    );
    assert_eq!(get_package_json_path("abd", &options, &store), None);
    assert_eq!(
        get_package_json_path("abc", &Options::default(), &store),
        None
    );
}

#[test]
fn a_package_without_manifest_file_does_not_exist() {
    let store = store_with(&["node_modules/abc/index.js", "node_modules/abc"]);
    assert!(!is_package_exists("abc", &Options::default(), &store));
    assert!(!is_package_exists("abc", &Options::default(), &Store::new()));
    assert_eq!(
        get_package_json_path("abc", &Options::default(), &Store::new()),
        None
    );
}

#[test]
fn existence_is_independent_of_what_the_manifest_file_holds() {
    let options = Options::default();
    for file in [
        StoredFile::Unreadable,
        StoredFile::Malformed,
        StoredFile::Manifest(PackageJSON::default()),
        StoredFile::Manifest(manifest("1.0.0")),
    ] {
        let mut store = Store::new();
        store.insert(manifest_path("abc", &options), file);
        assert!(is_package_exists("abc", &options, &store));
        assert!(!is_package_exists("abd", &options, &store));
    }
}

#[test]
fn existence_does_not_depend_on_the_syntax_of_the_name() {
    let options = Options::default();
    let mut store = Store::new();
    store.insert(
        String::from("node_modules/_Not A Name/package.json"),
        StoredFile::Unreadable,
    );
    assert!(is_package_exists("_Not A Name", &options, &store));
    assert_eq!(
        get_package_json_path("_Not A Name", &options, &store),
        Some(String::from("node_modules/_Not A Name/package.json"))
    );
}

#[test]
fn the_base_directory_is_taken_as_written() {
    let store = store_with(&["rel/dir/node_modules/abc/package.json"]);
    assert!(is_package_exists(
        "abc",
        &Options { cwd: Some("rel/dir") },
        &store
    ));
    assert!(is_package_exists(
        "abc",
        &Options { cwd: Some("rel/dir/") },
        &store
    ));
    assert!(!is_package_exists(
        "abc",
        &Options { cwd: Some("./rel/dir") },
        &store
    ));
}

#[test]
fn the_loader_gives_the_manifest_that_is_stored() {
    let mut store = Store::new();
    store.insert(String::from("a/package.json"), StoredFile::Manifest(manifest("2.0.0")));
    store.insert(String::from("b/package.json"), StoredFile::Unreadable);
    store.insert(String::from("c/package.json"), StoredFile::Malformed);
    assert_eq!(
        get_package_json("a/package.json", &store),
        Some(&manifest("2.0.0"))
    );
    assert_eq!(get_package_json("b/package.json", &store), None);
    assert_eq!(get_package_json("c/package.json", &store), None);
    assert_eq!(get_package_json("d/package.json", &store), None);
}

#[test]
fn a_store_keeps_what_was_recorded_last() {
    let mut store = Store::new();
    assert!(!store.contains("a"));
    assert_eq!(store.get("a"), None);
    store.insert(String::from("a"), StoredFile::Malformed);
    store.insert(String::from("b"), StoredFile::Unreadable);
    store.insert(String::from("a"), StoredFile::Manifest(manifest("1.0.0")));
    assert!(store.contains("a"));
    assert!(store.contains("b"));
    assert!(!store.contains("c"));
    assert_eq!(store.get("a"), Some(&StoredFile::Manifest(manifest("1.0.0"))));
    assert_eq!(store.get("b"), Some(&StoredFile::Unreadable));
    assert_eq!(store.clone(), store);
}
