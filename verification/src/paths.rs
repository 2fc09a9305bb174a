//! File-system paths, which the library stores and hands back to the host
//! without looking inside them.

use vstd::prelude::*;
use std::path::PathBuf;

verus! {

/// `std::path::PathBuf`, opaque to the verifier.
#[verifier::external_type_specification]
#[verifier::external_body]
pub struct ExPathBuf(std::path::PathBuf);

/// `Clone::clone` of `std::path::PathBuf`: the clone is an equal path.
pub assume_specification[ <std::path::PathBuf as Clone>::clone ](
    path: &std::path::PathBuf,
) -> (copy: std::path::PathBuf)
    ensures
        copy == *path,
;

/// `Path::display`, written out as a `String`. What the text holds depends on
/// the platform and on whether the path is valid Unicode, so nothing is
/// claimed of it.
#[verifier::external_body]
pub(crate) fn display_text(path: &PathBuf) -> (text: String) {
    path.display().to_string()
}

/// `Path::extension`, as a `String`: the part of the file name behind its last
/// dot, if the name has one and the part is valid Unicode. How a path splits
/// into names depends on the platform, so nothing is claimed of the result.
#[verifier::external_body]
pub(crate) fn extension_text(path: &PathBuf) -> (extension: Option<String>) {
    Some(path.extension()?.to_str()?.to_owned())
}

} // verus!
