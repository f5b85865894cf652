//! Paths in the form a system call takes them: bytes without a nul byte,
//! closed by one.

use vstd::prelude::*;
use crate::error::{Error, ErrorKind};

verus! {

/// Whether `bytes` holds a nul byte anywhere.
pub open spec fn has_nul(bytes: Seq<u8>) -> bool {
    exists|i: int| 0 <= i < bytes.len() && bytes[i] == 0u8
}

/// Whether `position` is the index of the first nul byte of `bytes`.
pub open spec fn is_first_nul(bytes: Seq<u8>, position: int) -> bool {
    &&& 0 <= position < bytes.len()
    &&& bytes[position] == 0u8
    &&& forall|i: int| 0 <= i < position ==> bytes[i] != 0u8
}

/// A sequence of bytes has at most one first nul byte, so checking the same
/// path again can only end as it did before.
pub proof fn lemma_first_nul_is_unique(bytes: Seq<u8>, first: int, second: int)
    requires
        is_first_nul(bytes, first),
        is_first_nul(bytes, second),
    ensures
        first == second,
{
}

/// A path that can be handed to a system call.
///
/// Its view is the path as the caller wrote it. The bytes held are the view
/// followed by one nul byte, and the view is free of nul bytes.
#[derive(Debug)]
pub struct CPath {
    bytes: Vec<u8>,
}

impl CPath {
    #[verifier::type_invariant]
    spec fn well_formed(self) -> bool {
        &&& self.bytes@.len() >= 1
        &&& self.bytes@.last() == 0u8
        &&& !has_nul(self.bytes@.drop_last())
    }

    /// The path without its closing nul byte.
    pub closed spec fn view(&self) -> Seq<u8> {
        self.bytes@.drop_last()
    }

    /// Checks `path` for nul bytes and closes it with one.
    ///
    /// Fails exactly when `path` holds a nul byte. The error then names the
    /// first one and is invalid input without an operating system code: the
    /// path is refused here, before there is anything to call the operating
    /// system with.
    pub fn new(path: Vec<u8>) -> (result: Result<CPath, Error>)
        ensures
            result is Err <==> has_nul(path@),
            result matches Ok(c_path) ==> c_path@ == path@,
            result matches Err(error) ==> error matches Error::NulInPath { position }
                && is_first_nul(path@, position as int),
            result matches Err(error) ==> error.kind_spec() == ErrorKind::InvalidInput
                && error.raw_os_error_spec() is None,
    {
        let mut bytes = path;
        let mut i: usize = 0;
        while i < bytes.len()
            invariant
                bytes == path,
                i <= bytes@.len(),
                forall|j: int| 0 <= j < i ==> bytes@[j] != 0u8,
            decreases bytes@.len() - i,
        {
            if bytes[i] == 0 {
                return Err(Error::NulInPath { position: i });
            }
            i += 1;
        }
        bytes.push(0);
        Ok(CPath { bytes })
    }

    /// The path as the caller wrote it.
    pub fn as_bytes(&self) -> (bytes: &[u8])
        ensures
            bytes@ == self@,
            !has_nul(bytes@),
    {
        proof {
            use_type_invariant(self);
        }
        let n: usize = self.bytes.len() - 1;
        vstd::slice::slice_subrange(self.bytes.as_slice(), 0, n)
    }

    /// The path and the nul byte that closes it.
    pub fn as_bytes_with_nul(&self) -> (bytes: &[u8])
        ensures
            bytes@ == self@.push(0u8),
            !has_nul(self@),
    {
        proof {
            use_type_invariant(self);
        }
        self.bytes.as_slice()
    }
}

} // verus!
