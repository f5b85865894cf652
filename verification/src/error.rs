//! The error of a status query and its category.

use vstd::prelude::*;

verus! {

/// The category of an [`Error`].
#[derive(Clone, Copy, Debug, PartialEq, Eq, Structural)]
pub enum ErrorKind {
    /// The path cannot be handed to the operating system, or the operating
    /// system found an argument invalid.
    InvalidInput,
    /// The path, or the target of the link it names, does not exist.
    NotFound,
    /// The operating system does not allow the access.
    PermissionDenied,
    /// Any other failure that the operating system reported.
    Other,
}

/// Why a status query failed.
#[derive(Clone, Copy, Debug, PartialEq, Eq, Structural)]
pub enum Error {
    /// The path holds a nul byte; `position` is the index of the first one.
    /// No system call was made.
    NulInPath { position: usize },
    /// The system call failed, and the operating system gave this code.
    Os { code: i32 },
}

/// The category that the standard library gives to an operating system error
/// code on the platform the crate is built for.
pub uninterp spec fn os_error_kind(code: int) -> ErrorKind;

/// Calls `std::io::Error::from_raw_os_error` and `std::io::Error::kind`.
///
/// Believed, not proved: the category depends on the code alone. The three
/// categories this crate tells apart are passed on under their own names, and
/// every other one becomes [`ErrorKind::Other`].
#[verifier::external_body]
fn kind_of_os_error(code: i32) -> (kind: ErrorKind)
    ensures
        kind == os_error_kind(code as int),
{
    match std::io::Error::from_raw_os_error(code).kind() {
        std::io::ErrorKind::NotFound => ErrorKind::NotFound,
        std::io::ErrorKind::PermissionDenied => ErrorKind::PermissionDenied,
        std::io::ErrorKind::InvalidInput => ErrorKind::InvalidInput,
        _ => ErrorKind::Other,
    }
}

impl Error {
    /// The category of this error: a path with a nul byte is invalid input,
    /// and an operating system code has the category of that code.
    pub open spec fn kind_spec(self) -> ErrorKind {
        match self {
            Error::NulInPath { .. } => ErrorKind::InvalidInput,
            Error::Os { code } => os_error_kind(code as int),
        }
    }

    /// The operating system's code, where the error came from a system call.
    pub open spec fn raw_os_error_spec(self) -> Option<i32> {
        match self {
            Error::NulInPath { .. } => None,
            Error::Os { code } => Some(code),
        }
    }

    /// The category of this error.
    pub fn kind(&self) -> (kind: ErrorKind)
        ensures
            kind == self.kind_spec(),
    {
        match self {
            Error::NulInPath { .. } => ErrorKind::InvalidInput,
            Error::Os { code } => kind_of_os_error(*code),
        }
    }

    /// The operating system's code, or `None` where no system call was made.
    pub fn raw_os_error(&self) -> (code: Option<i32>)
        ensures
            code == self.raw_os_error_spec(),
    {
        match self {
            Error::NulInPath { .. } => None,
            Error::Os { code } => Some(*code),
        }
    }
}

} // verus!
