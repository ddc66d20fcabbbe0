//! Paths as character sequences, with `/` between their components.

use vstd::prelude::*;
use vstd::string::*;

verus! {

/// A path is absolute when it starts at the root of the file system.
pub open spec fn spec_is_absolute(path: Seq<char>) -> bool {
    path.len() > 0 && path[0] == '/'
}

/// `relative` seen from `base`.
///
/// An absolute `relative` stands for itself. Otherwise it is appended to
/// `base`, after a separator unless `base` is empty or already ends in one.
pub open spec fn spec_join(base: Seq<char>, relative: Seq<char>) -> Seq<char> {
    if spec_is_absolute(relative) {
        relative
    } else if base.len() == 0 || base.last() == '/' {
        base + relative
    } else {
        base + seq!['/'] + relative
    }
}

/// Whether `path` starts at the root of the file system.
pub fn is_absolute(path: &str) -> (absolute: bool)
    ensures
        absolute == spec_is_absolute(path@),
{
    path.unicode_len() > 0 && path.get_char(0) == '/'
}

/// Joins `relative` onto `base`.
pub fn join_path(base: &str, relative: &str) -> (joined: String)
    ensures
        joined@ == spec_join(base@, relative@),
{
    if is_absolute(relative) {
        return relative.to_owned();
    }
    let mut joined = base.to_owned();
    let len: usize = base.unicode_len();
    if len > 0 && base.get_char(len - 1) != '/' {
        proof {
            reveal_strlit("/");
        }
        joined.append("/");
        assert(joined@ =~= base@ + seq!['/']);
    }
    joined.append(relative);
    joined
}

} // verus!
