//! The recoverable errors of opening and saving a file.

use vstd::prelude::*;

verus! {

/// `std::io::ErrorKind`, which the library carries and never inspects.
/// Nothing is claimed of it.
#[verifier::external_type_specification]
#[verifier::external_body]
pub struct ExErrorKind(std::io::ErrorKind);

/// An error that can occur while opening or saving a file. Neither ends the
/// program: the operation is given up and the document stays as it was.
#[derive(Debug, PartialEq, Eq)]
pub enum Error {
    /// The file dialog was closed without a choice.
    DialogClosed,
    /// The file system refused the operation.
    IoError(std::io::ErrorKind),
}

impl Clone for Error {
    fn clone(&self) -> (copy: Self)
        ensures
            copy == *self,
    {
        match self {
            Error::DialogClosed => Error::DialogClosed,
            Error::IoError(kind) => Error::IoError(*kind),
        }
    }
}

} // verus!
