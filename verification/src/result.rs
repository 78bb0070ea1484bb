//! Native result-code convention.
//!
//! A native call returns an `i32` result code: `0` is success, `1` is the
//! reserved "no value" code for optional query results, and every other
//! value is a specific error code that is surfaced verbatim to the caller.

use vstd::prelude::*;
use crate::Error;

verus! {

/// Success.
pub const S_OK: i32 = 0;

/// The reserved "no value" code: the call succeeded but there is no result
/// (for example, a frame that carries no timecode).
pub const S_NO_VALUE: i32 = 1;

/// Generic failure (`0x80004005` as a signed 32-bit value).
pub const E_FAIL: i32 = -2147467259;

/// The requested interface is not supported (`0x80004002`).
pub const E_NOINTERFACE: i32 = -2147467262;

/// An argument was invalid (`0x80070057`).
pub const E_INVALIDARG: i32 = -2147024809;

/// Maps a native result code to `Ok(())` exactly on success, and to an
/// error carrying the code verbatim otherwise.
pub fn void_result(result: i32) -> (r: Result<(), Error>)
    ensures
        result == S_OK ==> r == Result::<(), Error>::Ok(()),
        result != S_OK ==> r == Result::<(), Error>::Err(Error { result }),
{
    if result == S_OK {
        Ok(())
    } else {
        Err(Error { result })
    }
}

/// Maps a native result code three ways: success, the reserved "no value"
/// code, or an error carrying the code verbatim.
pub fn void_option_result(result: i32) -> (r: Result<Option<()>, Error>)
    ensures
        result == S_OK ==> r == Result::<Option<()>, Error>::Ok(Some(())),
        result == S_NO_VALUE ==> r == Result::<Option<()>, Error>::Ok(None::<()>),
        result != S_OK && result != S_NO_VALUE ==> r == Result::<Option<()>, Error>::Err(
            Error { result },
        ),
{
    if result == S_OK {
        Ok(Some(()))
    } else if result == S_NO_VALUE {
        Ok(None)
    } else {
        Err(Error { result })
    }
}

} // verus!
