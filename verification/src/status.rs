//! Status codes that functions of the host's invocation interface return.

use vstd::prelude::*;
use jni::errors::{jni_error_code_to_result, Error, JniError};

verus! {

/// Why a function of the host reported failure.
#[derive(Clone, Copy, Debug, PartialEq, Eq, Structural)]
pub enum JniFailure {
    Unknown,
    ThreadDetached,
    WrongVersion,
    NoMemory,
    AlreadyCreated,
    InvalidArguments,
    Other(i32),
}

/// What a status code means: 0 is success, -1 to -6 are the failures that
/// the interface names, and any other code is kept as it is.
pub open spec fn status_of(code: i32) -> Result<(), JniFailure> {
    if code == 0 {
        Ok(())
    } else if code == -1 {
        Err(JniFailure::Unknown)
    } else if code == -2 {
        Err(JniFailure::ThreadDetached)
    } else if code == -3 {
        Err(JniFailure::WrongVersion)
    } else if code == -4 {
        Err(JniFailure::NoMemory)
    } else if code == -5 {
        Err(JniFailure::AlreadyCreated)
    } else if code == -6 {
        Err(JniFailure::InvalidArguments)
    } else {
        Err(JniFailure::Other(code))
    }
}

/// `jni::errors::jni_error_code_to_result`: the outcome is what `status_of`
/// says of the code. The error of the `jni` crate is a failed call in every
/// case; its kind is carried over variant by variant.
#[verifier::external_body]
pub(crate) fn check_status(code: i32) -> (outcome: Result<(), JniFailure>)
    ensures
        outcome == status_of(code),
{
    match jni_error_code_to_result(code) {
        Ok(()) => Ok(()),
        Err(Error::JniCall(kind)) => Err(match kind {
            JniError::Unknown => JniFailure::Unknown,
            JniError::ThreadDetached => JniFailure::ThreadDetached,
            JniError::WrongVersion => JniFailure::WrongVersion,
            JniError::NoMemory => JniFailure::NoMemory,
            JniError::AlreadyCreated => JniFailure::AlreadyCreated,
            JniError::InvalidArguments => JniFailure::InvalidArguments,
            JniError::Other(other) => JniFailure::Other(other),
        }),
        Err(_) => Err(JniFailure::Other(code)),
    }
}

} // verus!
