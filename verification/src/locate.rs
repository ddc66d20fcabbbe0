//! Where a package is installed, and whether it is.
//!
//! The package `name` is looked for in `node_modules/name` under a base
//! directory, and counts as installed when its manifest,
//! `node_modules/name/package.json`, exists there. No other directory is
//! searched.

use crate::error::PackageError;
use crate::manifest::{Manifest, PackageJSON};
use crate::path::{join_path, spec_join};
use crate::store::{FileContent, Store, StoredFile};
use vstd::prelude::*;
use vstd::string::*;

verus! {

/// How to resolve a package.
#[derive(Clone, Copy, Debug, PartialEq)]
pub struct Options<'a> {
    /// The base directory, taken as it is written. Without one, paths are
    /// relative, which is to say: under the working directory of whoever
    /// reads them.
    pub cwd: Option<&'a str>,
}

impl<'a> View for Options<'a> {
    type V = Option<Seq<char>>;

    open spec fn view(&self) -> Option<Seq<char>> {
        match self.cwd {
            Some(cwd) => Some(cwd@),
            None => None,
        }
    }
}

impl<'a> Default for Options<'a> {
    /// The options without a base directory.
    fn default() -> (options: Self)
        ensures
            options@ is None,
    {
        Options { cwd: None }
    }
}

/// The base directory that `cwd` stands for: itself, or the empty path.
pub open spec fn spec_base(cwd: Option<Seq<char>>) -> Seq<char> {
    match cwd {
        Some(cwd) => cwd,
        None => Seq::empty(),
    }
}

/// The directory of the package `name`, relative to the base directory.
pub open spec fn spec_package_id(name: Seq<char>) -> Seq<char> {
    "node_modules/"@ + name
}

/// The manifest of the package `name`, relative to the base directory.
pub open spec fn spec_manifest_id(name: Seq<char>) -> Seq<char> {
    spec_package_id(name) + "/package.json"@
}

/// The directory in which the package `name` is installed under `base`.
pub open spec fn spec_package_root(name: Seq<char>, base: Seq<char>) -> Seq<char> {
    spec_join(base, spec_package_id(name))
}

/// The path of the manifest of the package `name` under `base`.
pub open spec fn spec_manifest_path(name: Seq<char>, base: Seq<char>) -> Seq<char> {
    spec_join(base, spec_manifest_id(name))
}

/// Whether the package `name` is installed under `base` in the file system
/// `store`: whether anything exists at the path of its manifest.
pub open spec fn spec_is_package_exists(
    name: Seq<char>,
    base: Seq<char>,
    store: Map<Seq<char>, FileContent>,
) -> bool {
    store.contains_key(spec_manifest_path(name, base))
}

/// The path of the manifest of the package `name` under `base`, if the
/// package is installed in the file system `store`.
pub open spec fn spec_package_json_path(
    name: Seq<char>,
    base: Seq<char>,
    store: Map<Seq<char>, FileContent>,
) -> Option<Seq<char>> {
    if spec_is_package_exists(name, base, store) {
        Some(spec_manifest_path(name, base))
    } else {
        None
    }
}

/// The manifest that the file system `store` holds at `path`, if it holds
/// one there.
pub open spec fn spec_package_json(path: Seq<char>, store: Map<Seq<char>, FileContent>) -> Option<
    Manifest,
> {
    if store.contains_key(path) {
        match store[path] {
            FileContent::Manifest(manifest) => Some(manifest),
            _ => None,
        }
    } else {
        None
    }
}

/// The manifest of a package lies directly in the directory of the package:
/// its path is that directory's, a separator, and `package.json`.
pub proof fn lemma_manifest_lies_in_root(name: Seq<char>, base: Seq<char>)
    ensures
        spec_manifest_path(name, base) == spec_package_root(name, base) + "/package.json"@,
{
    reveal_strlit("node_modules/");
    assert(spec_package_id(name)[0] == 'n');
    assert(spec_manifest_id(name)[0] == 'n');
    assert(spec_manifest_path(name, base) =~= spec_package_root(name, base) + "/package.json"@);
}

impl<'a> Options<'a> {
    /// The base directory: `cwd`, or the empty path.
    pub fn base(&self) -> (base: &'a str)
        ensures
            base@ == spec_base(self@),
    {
        match self.cwd {
            Some(cwd) => cwd,
            None => {
                proof {
                    reveal_strlit("");
                }
                assert(""@ =~= Seq::<char>::empty());
                ""
            },
        }
    }
}

/// The directory of the package `name`, relative to the base directory.
fn package_id(name: &str) -> (id: String)
    ensures
        id@ == spec_package_id(name@),
{
    let mut id = "node_modules/".to_owned();
    id.append(name);
    id
}

/// The directory in which the package `name` is installed, were it
/// installed: `node_modules/name` under the base directory.
pub fn package_root(name: &str, options: &Options) -> (root: String)
    ensures
        root@ == spec_package_root(name@, spec_base(options@)),
{
    let id = package_id(name);
    join_path(options.base(), id.as_str())
}

/// The path at which the manifest of the package `name` is looked for:
/// `node_modules/name/package.json` under the base directory.
pub fn manifest_path(name: &str, options: &Options) -> (path: String)
    ensures
        path@ == spec_manifest_path(name@, spec_base(options@)),
{
    let mut id = package_id(name);
    id.append("/package.json");
    join_path(options.base(), id.as_str())
}

/// Resolves `id` from the base directory: joins it onto the base and
/// confirms that something exists there, a file or a directory. Nothing is
/// tried but that one path.
pub fn resolve(id: &str, options: &Options, store: &Store) -> (resolved: Result<String, PackageError>)
    ensures
        resolved is Ok <==> store@.contains_key(spec_join(spec_base(options@), id@)),
        resolved matches Ok(path) ==> path@ == spec_join(spec_base(options@), id@),
        resolved matches Err(error) ==> error == PackageError::NotFound,
{
    let path = join_path(options.base(), id);
    if store.contains(path.as_str()) {
        Ok(path)
    } else {
        Err(PackageError::NotFound)
    }
}

/// The path of the manifest of the package `name`, if the package is
/// installed. The name is taken as it is: its syntax is not checked.
pub fn get_package_json_path(name: &str, options: &Options, store: &Store) -> (path: Option<String>)
    ensures
        path.deep_view() == spec_package_json_path(name@, spec_base(options@), store@),
{
    let mut id = package_id(name);
    id.append("/package.json");
    match resolve(id.as_str(), options, store) {
        Ok(path) => Some(path),
        Err(_) => None,
    }
}

/// Whether the package `name` is installed: whether anything exists at the
/// path of its manifest. Neither the name nor what is stored there is
/// looked at.
pub fn is_package_exists(name: &str, options: &Options, store: &Store) -> (installed: bool)
    ensures
        installed == spec_is_package_exists(name@, spec_base(options@), store@),
{
    get_package_json_path(name, options, store).is_some()
}

/// What stands in the way of a manifest at `path`, or the manifest.
pub(crate) fn load<'a>(path: &str, store: &'a Store) -> (loaded: Result<&'a PackageJSON, PackageError>)
    ensures
        match loaded {
            Ok(manifest) => store@.contains_key(path@) && store@[path@] == FileContent::Manifest(
                manifest@,
            ),
            Err(error) => if !store@.contains_key(path@) {
                error == PackageError::NotFound
            } else {
                match store@[path@] {
                    FileContent::Unreadable => error == PackageError::Unreadable,
                    FileContent::Malformed => error == PackageError::Malformed,
                    FileContent::Manifest(_) => false,
                }
            },
        },
{
    match store.get(path) {
        None => Err(PackageError::NotFound),
        Some(StoredFile::Unreadable) => Err(PackageError::Unreadable),
        Some(StoredFile::Malformed) => Err(PackageError::Malformed),
        Some(StoredFile::Manifest(manifest)) => Ok(manifest),
    }
}

/// The manifest stored at `path`, or `None` where the path holds none:
/// nothing exists there, or what does cannot be read, or is not a manifest.
pub fn get_package_json<'a>(path: &str, store: &'a Store) -> (manifest: Option<&'a PackageJSON>)
    ensures
        manifest.deep_view() == spec_package_json(path@, store@),
{
    match load(path, store) {
        Ok(manifest) => Some(manifest),
        Err(_) => None,
    }
}

} // verus!
