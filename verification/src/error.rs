//! The error a copy run surfaces.
//!
//! Every read, write or kernel transfer either succeeds or fails with an
//! operating-system error; the engine retries nothing and aborts the run on
//! the first failure, handing that error back unchanged.

use vstd::prelude::*;

verus! {

/// An I/O failure from the underlying stream operation, carrying the
/// operating-system error code.
#[derive(Clone, Copy, Debug, PartialEq, Eq, Structural)]
pub struct IoError {
    /// The raw operating-system error code of the failed operation.
    pub code: i32,
}

impl IoError {
    /// Wrap a raw operating-system error code.
    pub fn from_os_code(code: i32) -> (r: IoError)
        ensures
            r.code == code,
    {
        IoError { code }
    }
}

} // verus!
