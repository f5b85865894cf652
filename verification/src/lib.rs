//! File status queries, split at the system call.
//!
//! The operating system answers a `stat`, `lstat` or `fstat` call with a
//! return code, a record it has filled in and, on failure, a code in the
//! thread's `errno`. This crate holds everything around that call: turning a
//! path into the nul-terminated bytes the call wants, reading the answer, and
//! the error a caller gets.

pub mod error;
pub mod path;
pub mod status;

pub use error::{Error, ErrorKind};
pub use path::CPath;
pub use status::{finish, outcome};
