//! Where the file that replaces an artifact is created: in the directory
//! that holds the artifact, so that both lie on one filesystem.

use crate::failure::Failure;
use vstd::prelude::*;

verus! {

/// Whether `dir` is `path` with something cut off its end.
pub open spec fn is_proper_prefix(dir: Seq<char>, path: Seq<char>) -> bool {
    dir.len() < path.len() && path.subrange(0, dir.len() as int) == dir
}

/// The parent directory of `path` as `std::path::Path::parent` gives it: the
/// path without its last component, or `None` for a path that ends in a root
/// or a prefix, or is empty. It is read off the path alone, by the path syntax
/// of the platform that the program is built for.
pub uninterp spec fn parent_of(path: Seq<char>) -> Option<Seq<char>>;

/// Calls `std::path::Path::parent` on `path`. Trusted: the result depends on
/// the path alone, and where the path has a parent, the parent is the path
/// without its last component, and so a proper prefix of it.
#[verifier::external_body]
pub(crate) fn path_parent(path: &str) -> (parent: Option<String>)
    ensures
        match parent {
            Some(dir) => parent_of(path@) == Some(dir@) && is_proper_prefix(dir@, path@),
            None => parent_of(path@) is None,
        },
{
    match std::path::Path::new(path).parent() {
        Some(dir) => Some(dir.to_string_lossy().into_owned()),
        None => None,
    }
}

/// Decides where the replacement goes, given the artifact's parent directory:
/// into the parent, and nowhere where there is none.
pub fn sibling_directory(parent: Option<String>) -> (place: Result<String, Failure>)
    ensures
        match place {
            Ok(dir) => parent matches Some(p) && dir == p,
            Err(failure) => parent is None && failure == Failure::NoParent,
        },
{
    match parent {
        Some(dir) => Ok(dir),
        None => Err(Failure::NoParent),
    }
}

/// The directory in which the temporary file that replaces `file` is
/// created: the parent directory of `file`, and no other.
///
/// Succeeds exactly when `file` has a parent directory. Where it has none the
/// call fails with `Failure::NoParent`; it never falls back to another
/// directory. Creating the file is left to the caller.
pub fn tempfile_in_parent(file: &str) -> (place: Result<String, Failure>)
    ensures
        match place {
            Ok(dir) => parent_of(file@) == Some(dir@) && is_proper_prefix(dir@, file@),
            Err(failure) => parent_of(file@) is None && failure == Failure::NoParent,
        },
{
    sibling_directory(path_parent(file))
}

} // verus!
