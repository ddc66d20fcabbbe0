//! Entry-point resolution: which file of a package a consumer imports.
//!
//! Three fields of the manifest can name the entry point. In order of
//! precedence: `module`, in a package whose `type` is `module`; the root
//! export, `exports["."]`; and `main`. The first that applies decides alone.

use crate::error::PackageError;
use crate::manifest::{ExportValue, Manifest, PackageJSON, TextOrTable};
use crate::path::{join_path, spec_join};
use vstd::prelude::*;

verus! {

impl Manifest {
    /// Whether the package declares the ES module system and names a
    /// `module` file.
    pub open spec fn has_module_entry(self) -> bool {
        self.type_field == Some("module"@) && self.module is Some
    }

    /// Whether the manifest has a root export, `exports["."]`.
    pub open spec fn has_root_export(self) -> bool {
        self.exports is Some && self.exports.unwrap().contains_key("."@)
    }

    /// The root export. Meaningful where `has_root_export` holds.
    pub open spec fn root_export(self) -> TextOrTable {
        self.exports.unwrap()["."@]
    }

    /// The path that a root export selects: the export itself where it is a
    /// path; else what it gives under `import`; else what it gives under
    /// `require`; else nothing.
    pub open spec fn export_target(export: TextOrTable) -> Option<Seq<char>> {
        match export {
            TextOrTable::Text(path) => Some(path),
            TextOrTable::Table(conditions) => {
                if conditions.contains_key("import"@) {
                    Some(conditions["import"@])
                } else if conditions.contains_key("require"@) {
                    Some(conditions["require"@])
                } else {
                    None
                }
            },
        }
    }

    /// The entry point as the manifest names it, relative to the directory
    /// of the package, or `None` where the manifest names none.
    pub open spec fn entry_field(self) -> Option<Seq<char>> {
        if self.has_module_entry() {
            self.module
        } else if self.has_root_export() {
            Self::export_target(self.root_export())
        } else {
            self.main
        }
    }
}

/// The entry point of the package with manifest `manifest` that is installed
/// in the directory `root`, or `None` where the manifest names none.
pub open spec fn spec_package_entry(manifest: Manifest, root: Seq<char>) -> Option<Seq<char>> {
    match manifest.entry_field() {
        Some(field) => Some(spec_join(root, field)),
        None => None,
    }
}

/// Whether `text` reads `module`.
fn is_module(text: &String) -> (is: bool)
    ensures
        is == (text@ == "module"@),
{
    let module = "module".to_owned();
    *text == module
}

/// The path that a root export selects.
fn export_target(export: &ExportValue) -> (target: Option<&String>)
    ensures
        target.deep_view() == Manifest::export_target(export@),
{
    match export {
        ExportValue::String(path) => Some(path),
        ExportValue::HashMap(conditions) => {
            match conditions.get("import") {
                Some(path) => Some(path),
                None => conditions.get("require"),
            }
        },
    }
}

/// The entry point as the manifest names it.
fn entry_field(package_json: &PackageJSON) -> (field: Option<&String>)
    ensures
        field.deep_view() == package_json@.entry_field(),
{
    let module_type = match &package_json.type_field {
        Some(text) => is_module(text),
        None => false,
    };
    if module_type && package_json.module.is_some() {
        return package_json.module.as_ref();
    }
    let root_export = match &package_json.exports {
        Some(exports) => exports.get("."),
        None => None,
    };
    match root_export {
        Some(export) => export_target(export),
        None => package_json.main.as_ref(),
    }
}

/// Resolves the entry point of a package from its manifest and the
/// directory `root` in which the package is installed.
///
/// The result is the entry that the manifest names, joined onto `root`. A
/// manifest that names none gives `UnresolvableEntry`: its root export is a
/// table of conditions with neither `import` nor `require`, or it has no
/// root export and no `main`.
pub fn get_package_entry(package_json: &PackageJSON, root: &str) -> (entry: Result<
    String,
    PackageError,
>)
    ensures
        match entry {
            Ok(path) => spec_package_entry(package_json@, root@) == Some(path@),
            Err(error) => error == PackageError::UnresolvableEntry && spec_package_entry(
                package_json@,
                root@,
            ) is None,
        },
{
    match entry_field(package_json) {
        Some(field) => Ok(join_path(root, field.as_str())),
        None => Err(PackageError::UnresolvableEntry),
    }
}

/// The `module` field of a package of type `module` is its entry point,
/// whatever `exports` and `main` hold.
pub proof fn lemma_module_field_wins(manifest: Manifest, root: Seq<char>)
    requires
        manifest.type_field == Some("module"@),
        manifest.module is Some,
    ensures
        spec_package_entry(manifest, root) == Some(spec_join(root, manifest.module.unwrap())),
{
}

/// Without a `module` entry, a root export that is a path is the entry
/// point, whatever `main` holds.
pub proof fn lemma_root_export_path(manifest: Manifest, root: Seq<char>, path: Seq<char>)
    requires
        !manifest.has_module_entry(),
        manifest.has_root_export(),
        manifest.root_export() == TextOrTable::Text(path),
    ensures
        spec_package_entry(manifest, root) == Some(spec_join(root, path)),
{
}

/// Without a `module` entry, a root export with an `import` condition
/// selects the path under `import`, whether or not it has a `require`
/// condition too.
pub proof fn lemma_import_condition_wins(
    manifest: Manifest,
    root: Seq<char>,
    conditions: Map<Seq<char>, Seq<char>>,
)
    requires
        !manifest.has_module_entry(),
        manifest.has_root_export(),
        manifest.root_export() == TextOrTable::Table(conditions),
        conditions.contains_key("import"@),
    ensures
        spec_package_entry(manifest, root) == Some(spec_join(root, conditions["import"@])),
{
}

/// Without a `module` entry, a root export with a `require` condition and
/// no `import` condition selects the path under `require`.
pub proof fn lemma_require_condition_is_fallback(
    manifest: Manifest,
    root: Seq<char>,
    conditions: Map<Seq<char>, Seq<char>>,
)
    requires
        !manifest.has_module_entry(),
        manifest.has_root_export(),
        manifest.root_export() == TextOrTable::Table(conditions),
        !conditions.contains_key("import"@),
        conditions.contains_key("require"@),
    ensures
        spec_package_entry(manifest, root) == Some(spec_join(root, conditions["require"@])),
{
}

/// Without a `module` entry and without a root export, `main` is the entry
/// point.
pub proof fn lemma_main_is_last_resort(manifest: Manifest, root: Seq<char>)
    requires
        !manifest.has_module_entry(),
        !manifest.has_root_export(),
        manifest.main is Some,
    ensures
        spec_package_entry(manifest, root) == Some(spec_join(root, manifest.main.unwrap())),
{
}

/// A manifest names no entry point in two cases only: its root export is a
/// table of conditions with neither `import` nor `require`, or it has no
/// root export and no `main`; in both, without a `module` entry.
pub proof fn lemma_unresolvable_entry(manifest: Manifest, root: Seq<char>)
    ensures
        spec_package_entry(manifest, root) is None <==> !manifest.has_module_entry() && (if manifest.has_root_export() {
            manifest.root_export() matches TextOrTable::Table(conditions) && !conditions.contains_key(
                "import"@,
            ) && !conditions.contains_key("require"@)
        } else {
            manifest.main is None
        }),
{
}

} // verus!
