//! Package names, as the npm naming rules judge them.

use vstd::prelude::*;

verus! {

/// The verdict of the npm naming rules on `name`: first whether it is valid
/// for a new package, then whether it is valid for an old one.
pub uninterp spec fn npm_name_validity(name: Seq<char>) -> (bool, bool);

/// The verdict of the naming rules on a package name.
#[derive(Clone, Copy, Debug, PartialEq, Eq, Structural)]
pub struct NameValidity {
    /// The name follows the rules for packages published today.
    pub valid_for_new_packages: bool,
    /// The name follows the rules that held when the oldest packages were
    /// published.
    pub valid_for_old_packages: bool,
}

impl View for NameValidity {
    type V = (bool, bool);

    open spec fn view(&self) -> (bool, bool) {
        (self.valid_for_new_packages, self.valid_for_old_packages)
    }
}

/// Whether a verdict lets a name pass as the name of a package: under the
/// current rules or under the legacy ones.
pub open spec fn spec_is_package_name(validity: (bool, bool)) -> bool {
    validity.0 || validity.1
}

impl NameValidity {
    /// Whether the name passes as the name of a package.
    pub fn is_package_name(&self) -> (passes: bool)
        ensures
            passes == spec_is_package_name(self@),
    {
        self.valid_for_new_packages || self.valid_for_old_packages
    }
}

/// Calls `validate_npm_package_name::validate` on `name` and keeps its two
/// flags, `valid_for_new_packages` and `valid_for_old_packages`.
///
/// Not proved: that the flags are a function of the name alone, which is
/// what `npm_name_validity` stands for. `validate` reads nothing but its
/// argument and fixed tables, and returns on every string.
#[verifier::external_body]
pub(crate) fn validate_name(name: &str) -> (validity: NameValidity)
    ensures
        validity@ == npm_name_validity(name@),
{
    let result = validate_npm_package_name::validate(&name.to_string());
    NameValidity {
        valid_for_new_packages: result.valid_for_new_packages,
        valid_for_old_packages: result.valid_for_old_packages,
    }
}

} // verus!
