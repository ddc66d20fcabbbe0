//! The dependency store: what the file system holds where manifests are
//! looked for.
//!
//! The library reads no file. Its caller probes the paths that the library
//! names and hands over what it found as a `Store`.

use crate::manifest::{Manifest, PackageJSON};
use crate::string_map::StringMap;
use vstd::prelude::*;

verus! {

/// What the file system holds at a path.
#[derive(Debug, PartialEq)]
pub enum StoredFile {
    /// Something whose text is not at hand: a directory, a file without
    /// read permission, bytes that are not UTF-8, or a file that was found
    /// and not read.
    Unreadable,
    /// Text that is not a manifest.
    Malformed,
    /// A manifest, decoded.
    Manifest(PackageJSON),
}

/// The mathematical content of a `StoredFile`.
pub enum FileContent {
    Unreadable,
    Malformed,
    Manifest(Manifest),
}

impl DeepView for StoredFile {
    type V = FileContent;

    open spec fn deep_view(&self) -> FileContent {
        match self {
            StoredFile::Unreadable => FileContent::Unreadable,
            StoredFile::Malformed => FileContent::Malformed,
            StoredFile::Manifest(manifest) => FileContent::Manifest(manifest@),
        }
    }
}

impl View for StoredFile {
    type V = FileContent;

    open spec fn view(&self) -> FileContent {
        self.deep_view()
    }
}

impl Clone for StoredFile {
    fn clone(&self) -> (copy: Self)
        ensures
            copy@ == self@,
    {
        match self {
            StoredFile::Unreadable => StoredFile::Unreadable,
            StoredFile::Malformed => StoredFile::Malformed,
            StoredFile::Manifest(manifest) => StoredFile::Manifest(manifest.clone()),
        }
    }
}

/// A snapshot of the file system: the paths at which something exists, each
/// with what is stored there. A path that the snapshot does not hold does
/// not exist.
#[derive(Debug, PartialEq)]
pub struct Store {
    files: StringMap<StoredFile>,
}

impl View for Store {
    type V = Map<Seq<char>, FileContent>;

    closed spec fn view(&self) -> Map<Seq<char>, FileContent> {
        self.files.deep_view()
    }
}

impl Store {
    /// The file system in which nothing exists.
    pub fn new() -> (store: Self)
        ensures
            store@ == Map::<Seq<char>, FileContent>::empty(),
    {
        let store = Store { files: StringMap::new() };
        assert(store@ =~= Map::<Seq<char>, FileContent>::empty());
        store
    }

    /// Records that `file` is stored at `path`, in place of what was there.
    pub fn insert(&mut self, path: String, file: StoredFile)
        ensures
            final(self)@ == old(self)@.insert(path@, file@),
    {
        self.files.insert(path, file);
        assert(self@ =~= old(self)@.insert(path@, file@));
    }

    /// Whether anything exists at `path`.
    pub fn contains(&self, path: &str) -> (found: bool)
        ensures
            found == self@.contains_key(path@),
    {
        self.files.contains_key(path)
    }

    /// What is stored at `path`, if anything exists there.
    pub fn get(&self, path: &str) -> (file: Option<&StoredFile>)
        ensures
            file.deep_view() == (if self@.contains_key(path@) {
                Some(self@[path@])
            } else {
                None
            }),
    {
        self.files.get(path)
    }
}

impl Clone for Store {
    fn clone(&self) -> (copy: Self)
        ensures
            copy@ == self@,
    {
        let copy = Store { files: self.files.clone() };
        assert(copy@ =~= self@);
        copy
    }
}

} // verus!
