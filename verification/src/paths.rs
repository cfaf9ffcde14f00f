//! Paths are carried through the library whole. A path stands for all spellings
//! of it that the platform takes for equal: to contracts two paths are the same
//! exactly when `==` says so.

use vstd::prelude::*;

verus! {

/// `std::path::PathBuf`, as an opaque value: a path up to equality.
#[verifier::external_type_specification]
#[verifier::external_body]
pub struct ExPathBuf(std::path::PathBuf);

/// `<PathBuf as Clone>::clone`: the copy is the path that was copied.
pub assume_specification[ <std::path::PathBuf as Clone>::clone ](path: &std::path::PathBuf) -> (copy:
    std::path::PathBuf)
    ensures
        copy == *path,
;

/// `<PathBuf as PartialEq>::eq`: what it says of two paths is what contracts mean
/// by their equality. It compares component by component, so that repeated and
/// trailing separators do not count.
#[verifier::external_body]
pub(crate) fn paths_equal(a: &std::path::PathBuf, b: &std::path::PathBuf) -> (equal: bool)
    ensures
        equal == (*a == *b),
{
    a == b
}

} // verus!
