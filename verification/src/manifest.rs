//! The package manifest: the decoded `package.json` of an installed package.

use crate::string_map::StringMap;
use vstd::prelude::*;

verus! {

/// What a field holds that is either one string or a table of strings.
pub enum TextOrTable {
    Text(Seq<char>),
    Table(Map<Seq<char>, Seq<char>>),
}

/// The `bin` field of a manifest: one executable, or executables by name.
#[derive(Debug, PartialEq)]
pub enum BinType {
    String(String),
    HashMap(StringMap<String>),
}

/// One entry of the `exports` field of a manifest: a path, or paths by the
/// condition under which each applies.
#[derive(Debug, PartialEq)]
pub enum ExportValue {
    String(String),
    HashMap(StringMap<String>),
}

/// A decoded manifest. Every field is optional. Only `type_field`, `module`,
/// `exports`, `main` and `version` take part in resolution: the others are
/// carried along unread.
#[derive(Debug, PartialEq)]
pub struct PackageJSON {
    pub name: Option<String>,
    pub version: Option<String>,
    pub description: Option<String>,
    pub homepage: Option<String>,
    pub keywords: Option<Vec<String>>,
    pub license: Option<String>,
    pub private: Option<bool>,
    pub author: Option<String>,
    pub files: Option<Vec<String>>,
    /// The `type` field: the module system of the package's `.js` files.
    pub type_field: Option<String>,
    pub main: Option<String>,
    pub module: Option<String>,
    pub exports: Option<StringMap<ExportValue>>,
    pub types: Option<String>,
    pub browser: Option<String>,
    pub bin: Option<BinType>,
    pub scripts: Option<StringMap<String>>,
    pub dependencies: Option<StringMap<String>>,
    pub dev_dependencies: Option<StringMap<String>>,
    pub peer_dependencies: Option<StringMap<String>>,
    pub peer_dependencies_meta: Option<StringMap<String>>,
    pub optional_dependencies: Option<StringMap<String>>,
    pub engines: Option<StringMap<String>>,
}

/// The mathematical content of a manifest.
pub struct Manifest {
    pub name: Option<Seq<char>>,
    pub version: Option<Seq<char>>,
    pub description: Option<Seq<char>>,
    pub homepage: Option<Seq<char>>,
    pub keywords: Option<Seq<Seq<char>>>,
    pub license: Option<Seq<char>>,
    pub private: Option<bool>,
    pub author: Option<Seq<char>>,
    pub files: Option<Seq<Seq<char>>>,
    pub type_field: Option<Seq<char>>,
    pub main: Option<Seq<char>>,
    pub module: Option<Seq<char>>,
    pub exports: Option<Map<Seq<char>, TextOrTable>>,
    pub types: Option<Seq<char>>,
    pub browser: Option<Seq<char>>,
    pub bin: Option<TextOrTable>,
    pub scripts: Option<Map<Seq<char>, Seq<char>>>,
    pub dependencies: Option<Map<Seq<char>, Seq<char>>>,
    pub dev_dependencies: Option<Map<Seq<char>, Seq<char>>>,
    pub peer_dependencies: Option<Map<Seq<char>, Seq<char>>>,
    pub peer_dependencies_meta: Option<Map<Seq<char>, Seq<char>>>,
    pub optional_dependencies: Option<Map<Seq<char>, Seq<char>>>,
    pub engines: Option<Map<Seq<char>, Seq<char>>>,
}

impl Manifest {
    /// The manifest without any field.
    pub open spec fn blank() -> Manifest {
        Manifest {
            name: None,
            version: None,
            description: None,
            homepage: None,
            keywords: None,
            license: None,
            private: None,
            author: None,
            files: None,
            type_field: None,
            main: None,
            module: None,
            exports: None,
            types: None,
            browser: None,
            bin: None,
            scripts: None,
            dependencies: None,
            dev_dependencies: None,
            peer_dependencies: None,
            peer_dependencies_meta: None,
            optional_dependencies: None,
            engines: None,
        }
    }
}

impl DeepView for BinType {
    type V = TextOrTable;

    open spec fn deep_view(&self) -> TextOrTable {
        match self {
            BinType::String(path) => TextOrTable::Text(path@),
            BinType::HashMap(paths) => TextOrTable::Table(paths.deep_view()),
        }
    }
}

impl View for BinType {
    type V = TextOrTable;

    open spec fn view(&self) -> TextOrTable {
        self.deep_view()
    }
}

impl DeepView for ExportValue {
    type V = TextOrTable;

    open spec fn deep_view(&self) -> TextOrTable {
        match self {
            ExportValue::String(path) => TextOrTable::Text(path@),
            ExportValue::HashMap(paths) => TextOrTable::Table(paths.deep_view()),
        }
    }
}

impl View for ExportValue {
    type V = TextOrTable;

    open spec fn view(&self) -> TextOrTable {
        self.deep_view()
    }
}

impl DeepView for PackageJSON {
    type V = Manifest;

    open spec fn deep_view(&self) -> Manifest {
        Manifest {
            name: self.name.deep_view(),
            version: self.version.deep_view(),
            description: self.description.deep_view(),
            homepage: self.homepage.deep_view(),
            keywords: self.keywords.deep_view(),
            license: self.license.deep_view(),
            private: self.private,
            author: self.author.deep_view(),
            files: self.files.deep_view(),
            type_field: self.type_field.deep_view(),
            main: self.main.deep_view(),
            module: self.module.deep_view(),
            exports: self.exports.deep_view(),
            types: self.types.deep_view(),
            browser: self.browser.deep_view(),
            bin: self.bin.deep_view(),
            scripts: self.scripts.deep_view(),
            dependencies: self.dependencies.deep_view(),
            dev_dependencies: self.dev_dependencies.deep_view(),
            peer_dependencies: self.peer_dependencies.deep_view(),
            peer_dependencies_meta: self.peer_dependencies_meta.deep_view(),
            optional_dependencies: self.optional_dependencies.deep_view(),
            engines: self.engines.deep_view(),
        }
    }
}

impl View for PackageJSON {
    type V = Manifest;

    open spec fn view(&self) -> Manifest {
        self.deep_view()
    }
}

/// A copy of an optional string.
fn clone_text(text: &Option<String>) -> (copy: Option<String>)
    ensures
        copy.deep_view() == text.deep_view(),
{
    match text {
        Some(text) => Some(text.clone()),
        None => None,
    }
}

/// A copy of an optional list of strings.
fn clone_list(list: &Option<Vec<String>>) -> (copy: Option<Vec<String>>)
    ensures
        copy.deep_view() == list.deep_view(),
{
    match list {
        Some(list) => {
            let mut copy: Vec<String> = Vec::new();
            let mut i: usize = 0;
            while i < list.len()
                invariant
                    i <= list@.len(),
                    copy@.len() == i,
                    forall|j: int| 0 <= j < i ==> (#[trigger] copy@[j])@ == list@[j]@,
                decreases list@.len() - i,
            {
                copy.push(list[i].clone());
                i += 1;
            }
            assert(copy.deep_view() =~= list.deep_view());
            Some(copy)
        },
        None => None,
    }
}

/// A copy of a table of strings.
fn clone_strings(table: &StringMap<String>) -> (copy: StringMap<String>)
    ensures
        copy.deep_view() == table.deep_view(),
{
    let copy = table.clone();
    assert(copy.deep_view() =~= table.deep_view());
    copy
}

/// A copy of an optional table of strings.
fn clone_table(table: &Option<StringMap<String>>) -> (copy: Option<StringMap<String>>)
    ensures
        copy.deep_view() == table.deep_view(),
{
    match table {
        Some(table) => Some(clone_strings(table)),
        None => None,
    }
}

impl Clone for BinType {
    fn clone(&self) -> (copy: Self)
        ensures
            copy@ == self@,
    {
        match self {
            BinType::String(path) => BinType::String(path.clone()),
            BinType::HashMap(paths) => BinType::HashMap(clone_strings(paths)),
        }
    }
}

impl Clone for ExportValue {
    fn clone(&self) -> (copy: Self)
        ensures
            copy@ == self@,
    {
        match self {
            ExportValue::String(path) => ExportValue::String(path.clone()),
            ExportValue::HashMap(paths) => ExportValue::HashMap(clone_strings(paths)),
        }
    }
}

/// A copy of an optional table of exports.
fn clone_exports(exports: &Option<StringMap<ExportValue>>) -> (copy: Option<
    StringMap<ExportValue>,
>)
    ensures
        copy.deep_view() == exports.deep_view(),
{
    match exports {
        Some(exports) => {
            let copy = exports.clone();
            assert(copy.deep_view() =~= exports.deep_view());
            Some(copy)
        },
        None => None,
    }
}

/// A copy of an optional `bin` field.
fn clone_bin(bin: &Option<BinType>) -> (copy: Option<BinType>)
    ensures
        copy.deep_view() == bin.deep_view(),
{
    match bin {
        Some(bin) => Some(bin.clone()),
        None => None,
    }
}

impl Clone for PackageJSON {
    fn clone(&self) -> (copy: Self)
        ensures
            copy@ == self@,
    {
        PackageJSON {
            name: clone_text(&self.name),
            version: clone_text(&self.version),
            description: clone_text(&self.description),
            homepage: clone_text(&self.homepage),
            keywords: clone_list(&self.keywords),
            license: clone_text(&self.license),
            private: self.private,
            author: clone_text(&self.author),
            files: clone_list(&self.files),
            type_field: clone_text(&self.type_field),
            main: clone_text(&self.main),
            module: clone_text(&self.module),
            exports: clone_exports(&self.exports),
            types: clone_text(&self.types),
            browser: clone_text(&self.browser),
            bin: clone_bin(&self.bin),
            scripts: clone_table(&self.scripts),
            dependencies: clone_table(&self.dependencies),
            dev_dependencies: clone_table(&self.dev_dependencies),
            peer_dependencies: clone_table(&self.peer_dependencies),
            peer_dependencies_meta: clone_table(&self.peer_dependencies_meta),
            optional_dependencies: clone_table(&self.optional_dependencies),
            engines: clone_table(&self.engines),
        }
    }
}

impl Default for PackageJSON {
    /// The manifest without any field.
    fn default() -> (manifest: Self)
        ensures
            manifest@ == Manifest::blank(),
    {
        PackageJSON {
            name: None,
            version: None,
            description: None,
            homepage: None,
            keywords: None,
            license: None,
            private: None,
            author: None,
            files: None,
            type_field: None,
            main: None,
            module: None,
            exports: None,
            types: None,
            browser: None,
            bin: None,
            scripts: None,
            dependencies: None,
            dev_dependencies: None,
            peer_dependencies: None,
            peer_dependencies_meta: None,
            optional_dependencies: None,
            engines: None,
        }
    }
}

} // verus!
