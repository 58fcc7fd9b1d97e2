//! Conversion of LibSensel status codes into `Result`s.

use vstd::prelude::*;

use crate::bindings::SenselStatus;

verus! {

/// The error reported whenever LibSensel answers a request with a failure status.
#[derive(Clone, Copy, Debug, PartialEq, Eq, Structural)]
pub struct SenselError;

/// `Ok(value)` when the status reports success, `Err(SenselError)` otherwise.
pub open spec fn status_value<T>(status: SenselStatus, value: T) -> Result<T, SenselError> {
    if status == SenselStatus::SENSEL_OK {
        Ok(value)
    } else {
        Err(SenselError)
    }
}

/// A success status gives the value; a failure status gives the error.
pub proof fn lemma_status_value<T>(value: T)
    ensures
        status_value(SenselStatus::SENSEL_OK, value) == Ok::<T, SenselError>(value),
        status_value(SenselStatus::SENSEL_ERROR, value) == Err::<T, SenselError>(SenselError),
{
}

/// Turns a status code into `Ok(())` for success and `Err(SenselError)` for failure.
pub fn sensel_result(status: SenselStatus) -> (r: Result<(), SenselError>)
    ensures
        r == status_value(status, ()),
{
    match status {
        SenselStatus::SENSEL_OK => Ok(()),
        SenselStatus::SENSEL_ERROR => Err(SenselError),
    }
}

/// The value a LibSensel call filled in, when the call's status reports success.
pub fn sensel_value<T>(status: SenselStatus, value: T) -> (r: Result<T, SenselError>)
    ensures
        r == status_value(status, value),
{
    match sensel_result(status) {
        Ok(()) => Ok(value),
        Err(e) => Err(e),
    }
}

} // verus!
