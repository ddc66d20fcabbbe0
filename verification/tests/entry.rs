use npm_package::{get_package_entry, ExportValue, PackageError, PackageJSON, StringMap};

fn text(value: &str) -> Option<String> {
    Some(String::from(value))
}

fn conditions(entries: &[(&str, &str)]) -> ExportValue {
    let mut table = StringMap::new();
    for (key, value) in entries {
        table.insert(String::from(*key), String::from(*value));
    }
    ExportValue::HashMap(table)
}

fn exports(entries: Vec<(&str, ExportValue)>) -> Option<StringMap<ExportValue>> {
    let mut table = StringMap::new();
    for (key, value) in entries {
        table.insert(String::from(key), value);
    }
    Some(table)
}

#[test]
fn module_field_wins_over_exports_and_main() {
    let manifest = PackageJSON {
        type_field: text("module"),
        module: text("esm/index.js"),
        main: text("cjs/index.js"),
        exports: exports(vec![(
            ".",
            conditions(&[("import", "exp/index.mjs"), ("require", "exp/index.cjs")]),
        )]),
        ..PackageJSON::default()
    };
    assert_eq!(
        get_package_entry(&manifest, "/store/pkg"),
        Ok(String::from("/store/pkg/esm/index.js"))
    );
}

#[test]
fn module_field_alone_is_enough_for_a_module_package() {
    let manifest = PackageJSON {
        type_field: text("module"),
        module: text("esm/index.js"),
        ..PackageJSON::default()
    };
    assert_eq!(
        get_package_entry(&manifest, "pkg"),
        Ok(String::from("pkg/esm/index.js"))
    );
}

#[test]
fn module_field_is_ignored_without_the_module_type() {
    let untyped = PackageJSON {
        module: text("esm/index.js"),
        main: text("cjs/index.js"),
        ..PackageJSON::default()
    };
    assert_eq!(
        get_package_entry(&untyped, "pkg"),
        Ok(String::from("pkg/cjs/index.js"))
    );
    let commonjs = PackageJSON {
        type_field: text("commonjs"),
        ..untyped.clone()
    };
    assert_eq!(
        get_package_entry(&commonjs, "pkg"),
        Ok(String::from("pkg/cjs/index.js"))
    );
    let upper = PackageJSON {
        type_field: text("Module"),
        ..untyped
    };
    assert_eq!(
        get_package_entry(&upper, "pkg"),
        Ok(String::from("pkg/cjs/index.js"))
    );
}

#[test]
fn module_type_without_module_field_falls_through() {
    let manifest = PackageJSON {
        type_field: text("module"),
        exports: exports(vec![(".", ExportValue::String(String::from("exp.js")))]),
        main: text("main.js"),
        ..PackageJSON::default()
    };
    assert_eq!(
        get_package_entry(&manifest, "pkg"),
        Ok(String::from("pkg/exp.js"))
    );
}

#[test]
fn root_export_as_a_path_wins_over_main() {
    let manifest = PackageJSON {
        exports: exports(vec![(".", ExportValue::String(String::from("./exp.js")))]),
        main: text("main.js"),
        ..PackageJSON::default()
    };
    assert_eq!(
        get_package_entry(&manifest, "pkg"),
        Ok(String::from("pkg/./exp.js"))
    );
}

#[test]
fn import_condition_wins_over_require() {
    let manifest = PackageJSON {
        exports: exports(vec![(
            ".",
            conditions(&[("require", "exp/index.cjs"), ("import", "exp/index.mjs")]),
        )]),
        main: text("main.js"),
        ..PackageJSON::default()
    };
    assert_eq!(
        get_package_entry(&manifest, "pkg"),
        Ok(String::from("pkg/exp/index.mjs"))
    );
}

#[test]
fn import_condition_alone_is_taken() {
    let manifest = PackageJSON {
        exports: exports(vec![(".", conditions(&[("import", "exp/index.mjs")]))]),
        ..PackageJSON::default()
    };
    assert_eq!(
        get_package_entry(&manifest, "pkg"),
        Ok(String::from("pkg/exp/index.mjs"))
    );
}

#[test]
fn require_condition_is_the_fallback() {
    let manifest = PackageJSON {
        exports: exports(vec![(
            ".",
            conditions(&[("require", "exp/index.cjs"), ("types", "exp/index.d.ts")]),
        )]),
        main: text("main.js"),
        ..PackageJSON::default()
    };
    assert_eq!(
        get_package_entry(&manifest, "pkg"),
        Ok(String::from("pkg/exp/index.cjs"))
    );
}

#[test]
fn conditions_without_import_and_require_name_no_entry() {
    let manifest = PackageJSON {
        exports: exports(vec![(".", conditions(&[("types", "exp/index.d.ts")]))]),
        main: text("main.js"),
        ..PackageJSON::default()
    };
    assert_eq!(
        get_package_entry(&manifest, "pkg"),
        Err(PackageError::UnresolvableEntry)
    );
    let empty = PackageJSON {
        exports: exports(vec![(".", conditions(&[]))]),
        ..PackageJSON::default()
    };
    assert_eq!(
        get_package_entry(&empty, "pkg"),
        Err(PackageError::UnresolvableEntry)
    );
}

#[test]
fn exports_without_a_root_export_leave_it_to_main() {
    let manifest = PackageJSON {
        exports: exports(vec![(
            "./feature",
            ExportValue::String(String::from("feature.js")),
        )]),
        main: text("main.js"),
        ..PackageJSON::default()
    };
    assert_eq!(
        get_package_entry(&manifest, "pkg"),
        Ok(String::from("pkg/main.js"))
    );
    let none = PackageJSON {
        exports: exports(vec![]),
        main: text("main.js"),
        ..PackageJSON::default()
    };
    assert_eq!(
        get_package_entry(&none, "pkg"),
        Ok(String::from("pkg/main.js"))
    );
}

#[test]
fn main_is_the_last_resort() {
    let manifest = PackageJSON {
        main: text("lib/index.js"),
        ..PackageJSON::default()
    };
    assert_eq!(
        get_package_entry(&manifest, "/store/pkg"),
        Ok(String::from("/store/pkg/lib/index.js"))
    );
}

#[test]
fn a_manifest_without_any_entry_field_names_no_entry() {
    assert_eq!(
        get_package_entry(&PackageJSON::default(), "pkg"),
        Err(PackageError::UnresolvableEntry)
    );
    let module_only = PackageJSON {
        module: text("esm/index.js"),
        ..PackageJSON::default()
    };
    assert_eq!(
        get_package_entry(&module_only, "pkg"),
        Err(PackageError::UnresolvableEntry)
    );
}

#[test]
fn an_absolute_entry_stands_for_itself() {
    let manifest = PackageJSON {
        main: text("/opt/lib/index.js"),
        ..PackageJSON::default()
    };
    assert_eq!(
        get_package_entry(&manifest, "pkg"),
        Ok(String::from("/opt/lib/index.js"))
    );
}

#[test]
fn the_entry_is_seen_from_the_directory_of_the_package() {
    let manifest = PackageJSON {
        main: text("index.js"),
        ..PackageJSON::default()
    };
    assert_eq!(get_package_entry(&manifest, ""), Ok(String::from("index.js")));
    assert_eq!(
        get_package_entry(&manifest, "pkg/"),
        Ok(String::from("pkg/index.js"))
    );
}
