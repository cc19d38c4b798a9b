//! Watched paths and when two of them are the same.

use std::path::PathBuf;
use vstd::prelude::*;

verus! {

/// A filesystem path as the standard library holds it.
#[verifier::external_type_specification]
#[verifier::external_body]
pub struct ExPathBuf(PathBuf);

/// The class of spellings that `PathBuf` equality identifies with `path`. Two paths are equal
/// to the standard library exactly when they have the same class (`a/b` and `a/b/` do).
pub uninterp spec fn path_class(path: PathBuf) -> int;

/// Calls `PathBuf`'s `==`. Claimed: it is true exactly when both paths are in one class, that
/// is, `==` is an equivalence relation that depends on the two paths alone.
#[verifier::external_body]
pub(crate) fn same_path(left: &PathBuf, right: &PathBuf) -> (same: bool)
    ensures
        same == (path_class(*left) == path_class(*right)),
{
    *left == *right
}

/// Calls `PathBuf::clone`. Claimed: the copy is the path it was made from.
#[verifier::external_body]
pub(crate) fn copy_path(path: &PathBuf) -> (copy: PathBuf)
    ensures
        copy == *path,
{
    path.clone()
}

} // verus!
