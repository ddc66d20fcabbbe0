//! Locates installed npm packages and resolves their entry points.
//!
//! A package `name` is installed under a base directory when its manifest,
//! `node_modules/name/package.json`, exists there. Resolving it gives its
//! version, its directory, its manifest and its entry point: the file that
//! a consumer of the package imports.
//!
//! The library reads no file. Its caller probes the path that
//! [`manifest_path`] names and hands over what it found as a [`Store`].

pub mod entry;
pub mod error;
pub mod info;
pub mod locate;
pub mod manifest;
pub mod name;
pub mod path;
pub mod store;
pub mod string_map;

pub use entry::get_package_entry;
pub use error::PackageError;
pub use info::{get_package_info, resolve_package_info, try_get_package_info, PackageInfo};
pub use locate::{
    get_package_json, get_package_json_path, is_package_exists, manifest_path, package_root,
    resolve, Options,
};
pub use manifest::{BinType, ExportValue, PackageJSON};
pub use name::NameValidity;
pub use path::{is_absolute, join_path};
pub use store::{Store, StoredFile};
pub use string_map::StringMap;
