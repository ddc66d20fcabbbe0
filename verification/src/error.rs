//! Why a package could not be resolved.

use vstd::prelude::*;

verus! {

/// The reasons for which the resolution of a package comes to nothing.
#[derive(Clone, Copy, Debug, PartialEq, Eq, Structural)]
pub enum PackageError {
    /// The name is a package name neither by the current rules nor by the
    /// legacy ones.
    InvalidName,
    /// Nothing is stored where the manifest of the package would be.
    NotFound,
    /// The text of what is stored at the manifest's path is not at hand.
    Unreadable,
    /// The text at the manifest's path is not a manifest.
    Malformed,
    /// The manifest names no entry point: neither a `module` file of a
    /// package of type `module`, nor a usable root export, nor a `main` file.
    UnresolvableEntry,
    /// The manifest has no `version`.
    MissingVersion,
}

} // verus!
