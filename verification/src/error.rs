//! The error taxonomy exposed to callers: a distinguished "recreate the
//! render target" condition, and an opaque passthrough of every other
//! platform failure code.

use vstd::prelude::*;

verus! {

/// The HRESULT code with which the platform asks for the render target to be
/// rebuilt (`D2DERR_RECREATE_TARGET`).
pub const RECREATE_TARGET_CODE: u32 = 0x8899_000C;

/// The HRESULT code for plain success (`S_OK`).
pub const OK_CODE: u32 = 0;

/// An HRESULT signals failure exactly when its high bit is set.
pub open spec fn spec_is_failure_code(code: u32) -> bool {
    code >= 0x8000_0000
}

#[derive(Clone, Copy, PartialEq, Eq, Structural, Debug)]
pub enum Error {
    /// The device context or swap chain must be rebuilt; recoverable by the
    /// caller by recreating the render target.
    RecreateTarget,
    /// Opaque passthrough of any other platform error code.
    Other(u32),
}

impl Error {
    /// Classifies a raw platform result code into the two-variant taxonomy.
    pub fn from_hresult(code: u32) -> (e: Error)
        ensures
            e is RecreateTarget <==> code == RECREATE_TARGET_CODE,
            code == RECREATE_TARGET_CODE ==> e == Error::RecreateTarget,
            code != RECREATE_TARGET_CODE ==> e == Error::Other(code),
    {
        if code == RECREATE_TARGET_CODE {
            Error::RecreateTarget
        } else {
            Error::Other(code)
        }
    }

    /// The raw code this error stands for.
    pub fn code(&self) -> (c: u32)
        ensures
            self is RecreateTarget ==> c == RECREATE_TARGET_CODE,
            forall|k: u32| *self == Error::Other(k) ==> c == k,
    {
        match self {
            Error::RecreateTarget => RECREATE_TARGET_CODE,
            Error::Other(code) => *code,
        }
    }
}

/// What classifying a raw platform result code yields: `Ok` exactly on
/// success codes, and the classified error otherwise.
pub open spec fn spec_classified_result(code: u32) -> Result<(), Error> {
    if spec_is_failure_code(code) {
        Result::Err(
            if code == RECREATE_TARGET_CODE {
                Error::RecreateTarget
            } else {
                Error::Other(code)
            },
        )
    } else {
        Result::Ok(())
    }
}

/// Turns a raw platform result code into `Ok` exactly on success codes, and
/// into the classified error otherwise.
pub fn check_hresult(code: u32) -> (r: Result<(), Error>)
    ensures
        r is Ok <==> !spec_is_failure_code(code),
        r == spec_classified_result(code),
{
    if code >= 0x8000_0000 {
        Err(Error::from_hresult(code))
    } else {
        Ok(())
    }
}

} // verus!
