//! Package information: an installed package, resolved by its name.
//!
//! A name is resolved in five steps, and the first that fails decides the
//! outcome: the name must pass the naming rules; something must exist at
//! the path of the manifest; it must be a manifest; the manifest must name
//! an entry point; and it must have a version.

use crate::entry::{get_package_entry, spec_package_entry};
use crate::error::PackageError;
use crate::locate::{
    get_package_json_path,
    load,
    package_root,
    spec_base,
    spec_is_package_exists,
    spec_manifest_path,
    spec_package_root,
    Options,
};
use crate::manifest::{Manifest, PackageJSON};
use crate::name::{npm_name_validity, spec_is_package_name, validate_name, NameValidity};
use crate::store::{FileContent, Store};
use vstd::prelude::*;

verus! {

/// An installed package, resolved.
#[derive(Debug, PartialEq)]
pub struct PackageInfo {
    /// The name by which the package was asked for. The manifest may
    /// declare another.
    pub name: String,
    /// The version that the manifest declares.
    pub version: String,
    /// The directory in which the package is installed.
    pub root_path: String,
    /// The path of the manifest.
    pub package_json_path: String,
    /// The path of the entry point.
    pub package_entry: String,
    /// The manifest, whole.
    pub package_json: PackageJSON,
}

/// The mathematical content of a `PackageInfo`.
pub struct PackageInfoView {
    pub name: Seq<char>,
    pub version: Seq<char>,
    pub root_path: Seq<char>,
    pub package_json_path: Seq<char>,
    pub package_entry: Seq<char>,
    pub package_json: Manifest,
}

impl DeepView for PackageInfo {
    type V = PackageInfoView;

    open spec fn deep_view(&self) -> PackageInfoView {
        PackageInfoView {
            name: self.name@,
            version: self.version@,
            root_path: self.root_path@,
            package_json_path: self.package_json_path@,
            package_entry: self.package_entry@,
            package_json: self.package_json@,
        }
    }
}

impl View for PackageInfo {
    type V = PackageInfoView;

    open spec fn view(&self) -> PackageInfoView {
        self.deep_view()
    }
}

impl Clone for PackageInfo {
    fn clone(&self) -> (copy: Self)
        ensures
            copy@ == self@,
    {
        PackageInfo {
            name: self.name.clone(),
            version: self.version.clone(),
            root_path: self.root_path.clone(),
            package_json_path: self.package_json_path.clone(),
            package_entry: self.package_entry.clone(),
            package_json: self.package_json.clone(),
        }
    }
}

impl Default for PackageInfo {
    /// The information without content: empty strings and a blank manifest.
    fn default() -> (info: Self)
        ensures
            info@ == (PackageInfoView {
                name: Seq::empty(),
                version: Seq::empty(),
                root_path: Seq::empty(),
                package_json_path: Seq::empty(),
                package_entry: Seq::empty(),
                package_json: Manifest::blank(),
            }),
    {
        PackageInfo {
            name: String::new(),
            version: String::new(),
            root_path: String::new(),
            package_json_path: String::new(),
            package_entry: String::new(),
            package_json: PackageJSON::default(),
        }
    }
}

/// What the resolution of the package `name` under `base` comes to, in the
/// file system `store`, given the verdict `validity` of the naming rules on
/// the name.
pub open spec fn spec_package_info(
    name: Seq<char>,
    base: Seq<char>,
    validity: (bool, bool),
    store: Map<Seq<char>, FileContent>,
) -> Result<PackageInfoView, PackageError> {
    let path = spec_manifest_path(name, base);
    let root = spec_package_root(name, base);
    if !spec_is_package_name(validity) {
        Err(PackageError::InvalidName)
    } else if !store.contains_key(path) {
        Err(PackageError::NotFound)
    } else {
        match store[path] {
            FileContent::Unreadable => Err(PackageError::Unreadable),
            FileContent::Malformed => Err(PackageError::Malformed),
            FileContent::Manifest(manifest) => match spec_package_entry(manifest, root) {
                None => Err(PackageError::UnresolvableEntry),
                Some(entry) => match manifest.version {
                    None => Err(PackageError::MissingVersion),
                    Some(version) => Ok(
                        PackageInfoView {
                            name,
                            version,
                            root_path: root,
                            package_json_path: path,
                            package_entry: entry,
                            package_json: manifest,
                        },
                    ),
                },
            },
        }
    }
}

/// Whether `outcome` is what `expected` describes: the same error, or
/// information with that content.
pub open spec fn outcome_is(
    outcome: Result<PackageInfo, PackageError>,
    expected: Result<PackageInfoView, PackageError>,
) -> bool {
    match outcome {
        Ok(info) => expected == Ok::<PackageInfoView, PackageError>(info@),
        Err(error) => expected == Err::<PackageInfoView, PackageError>(error),
    }
}

/// Resolves the package `name`, given the verdict of the naming rules on
/// the name.
pub fn resolve_package_info(
    name: &str,
    options: &Options,
    validity: NameValidity,
    store: &Store,
) -> (outcome: Result<PackageInfo, PackageError>)
    ensures
        outcome_is(outcome, spec_package_info(name@, spec_base(options@), validity@, store@)),
{
    if !validity.is_package_name() {
        return Err(PackageError::InvalidName);
    }
    let package_json_path = match get_package_json_path(name, options, store) {
        Some(path) => path,
        None => {
            return Err(PackageError::NotFound);
        },
    };
    let manifest = match load(package_json_path.as_str(), store) {
        Ok(manifest) => manifest,
        Err(error) => {
            return Err(error);
        },
    };
    let root_path = package_root(name, options);
    let package_entry = match get_package_entry(manifest, root_path.as_str()) {
        Ok(entry) => entry,
        Err(error) => {
            return Err(error);
        },
    };
    let version = match &manifest.version {
        Some(version) => version.clone(),
        None => {
            return Err(PackageError::MissingVersion);
        },
    };
    Ok(
        PackageInfo {
            name: name.to_owned(),
            version,
            root_path,
            package_json_path,
            package_entry,
            package_json: manifest.clone(),
        },
    )
}

/// Resolves the package `name`, and says why where it cannot.
pub fn try_get_package_info(name: &str, options: &Options, store: &Store) -> (outcome: Result<
    PackageInfo,
    PackageError,
>)
    ensures
        outcome_is(
            outcome,
            spec_package_info(name@, spec_base(options@), npm_name_validity(name@), store@),
        ),
{
    let validity = validate_name(name);
    resolve_package_info(name, options, validity, store)
}

/// Resolves the package `name`: its version, its directory, its manifest
/// and its entry point. `None` where `try_get_package_info` gives an error.
pub fn get_package_info(name: &str, options: Options, store: &Store) -> (info: Option<PackageInfo>)
    ensures
        match info {
            Some(info) => spec_package_info(
                name@,
                spec_base(options@),
                npm_name_validity(name@),
                store@,
            ) == Ok::<PackageInfoView, PackageError>(info@),
            None => spec_package_info(
                name@,
                spec_base(options@),
                npm_name_validity(name@),
                store@,
            ) is Err,
        },
{
    match try_get_package_info(name, &options, store) {
        Ok(info) => Some(info),
        Err(_) => None,
    }
}

/// A name that passes neither the current naming rules nor the legacy ones
/// resolves to nothing, whatever the file system holds.
pub proof fn lemma_invalid_name_is_rejected(
    name: Seq<char>,
    base: Seq<char>,
    validity: (bool, bool),
    store: Map<Seq<char>, FileContent>,
)
    requires
        !validity.0,
        !validity.1,
    ensures
        spec_package_info(name, base, validity, store) == Err::<PackageInfoView, PackageError>(
            PackageError::InvalidName,
        ),
{
}

/// A package without a manifest file under the base directory is not
/// installed, and resolves to nothing.
pub proof fn lemma_absent_manifest(
    name: Seq<char>,
    base: Seq<char>,
    validity: (bool, bool),
    store: Map<Seq<char>, FileContent>,
)
    requires
        !store.contains_key(spec_manifest_path(name, base)),
    ensures
        !spec_is_package_exists(name, base, store),
        spec_package_info(name, base, validity, store) is Err,
{
}

/// Whether a package is installed depends on the presence of its manifest
/// file alone: with anything stored at the manifest's path it is, be it a
/// manifest or not, and with nothing there it is not.
pub proof fn lemma_existence_ignores_content(
    name: Seq<char>,
    base: Seq<char>,
    store: Map<Seq<char>, FileContent>,
    content: FileContent,
)
    ensures
        spec_is_package_exists(name, base, store.insert(spec_manifest_path(name, base), content)),
        !spec_is_package_exists(name, base, store.remove(spec_manifest_path(name, base))),
{
}

/// A resolved package bears the name that was asked for and the version of
/// its manifest; its manifest lies directly in its directory, and its entry
/// point is the one that the manifest names, seen from that directory.
pub proof fn lemma_resolved_package(
    name: Seq<char>,
    base: Seq<char>,
    validity: (bool, bool),
    store: Map<Seq<char>, FileContent>,
)
    requires
        spec_package_info(name, base, validity, store) is Ok,
    ensures
        ({
            let info = spec_package_info(name, base, validity, store)->Ok_0;
            &&& spec_is_package_name(validity)
            &&& spec_is_package_exists(name, base, store)
            &&& store[info.package_json_path] == FileContent::Manifest(info.package_json)
            &&& info.name == name
            &&& info.package_json.version == Some(info.version)
            &&& info.package_json_path == info.root_path + "/package.json"@
            &&& spec_package_entry(info.package_json, info.root_path) == Some(info.package_entry)
        }),
{
    crate::locate::lemma_manifest_lies_in_root(name, base);
}

} // verus!
