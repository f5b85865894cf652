//! Reading the answer of a `stat`, `lstat` or `fstat` call.
//!
//! The record that the operating system fills in is a type parameter here:
//! its fields are the platform's own, and nothing in this crate reads or
//! changes them.

use vstd::prelude::*;
use crate::error::Error;

verus! {

/// What a call means that returned `ret`, was given `record` to fill in, and
/// after which `errno` held `code`: the record where the call returned zero,
/// else the code as an error.
pub open spec fn outcome_of<T>(ret: int, record: T, code: i32) -> Result<T, Error> {
    if ret == 0 {
        Ok(record)
    } else {
        Err(Error::Os { code })
    }
}

/// Calls `errno::errno` and hands on the code it holds.
///
/// Nothing is claimed of the code: it is whatever the thread's last failing
/// system call left behind.
#[verifier::external_body]
fn last_os_error() -> (code: i32) {
    errno::errno().0
}

/// Turns the answer of a call into its result, given the code that `errno`
/// held once the call had returned.
pub fn outcome<T>(ret: i32, record: T, code: i32) -> (result: Result<T, Error>)
    ensures
        result == outcome_of(ret as int, record, code),
{
    if ret == 0 {
        Ok(record)
    } else {
        Err(Error::Os { code })
    }
}

/// Turns the answer of a call into its result, reading `errno` where the call
/// failed.
///
/// Call this directly after the system call: anything done in between may
/// overwrite `errno`. Where `ret` is zero `errno` is not read, and the record
/// comes back as it was handed in.
pub fn finish<T>(ret: i32, record: T) -> (result: Result<T, Error>)
    ensures
        ret == 0 ==> result == Ok::<T, Error>(record),
        ret != 0 ==> result matches Err(Error::Os { .. }),
{
    if ret == 0 {
        Ok(record)
    } else {
        let code: i32 = last_os_error();
        outcome(ret, record, code)
    }
}

} // verus!
