use vstd::prelude::*;

use crate::ids::{STORE_KEY_SUCCESS, VERIFY_SUCCESS};
use crate::wire::CallResponse;

verus! {

/// The host refused to register a key; `code` is the status it answered.
#[derive(Debug, Clone, Copy, PartialEq, Eq, Structural)]
pub struct RegisterKeyError {
    pub code: u32,
}

/// The host did not accept a proof; `code` is the status it answered.
#[derive(Debug, Clone, Copy, PartialEq, Eq, Structural)]
pub struct VerifyError {
    pub code: u32,
}

impl RegisterKeyError {
    /// The failure that a non-success status of "register key" stands for.
    pub fn from_code(code: u32) -> (r: Self)
        ensures
            r.code == code,
    {
        RegisterKeyError { code }
    }
}

impl VerifyError {
    /// The failure that a non-success status of "verify proof" stands for.
    pub fn from_code(code: u32) -> (r: Self)
        ensures
            r.code == code,
    {
        VerifyError { code }
    }
}

/// A failure of the protocol itself rather than of the operation: the call
/// path cannot go on.
#[derive(Debug, Clone, Copy, PartialEq, Eq, Structural)]
pub enum ProtocolError {
    /// No substitute answers this selector.
    Unregistered { op: u32 },
}

/// What a typed call gives back when it does not succeed.
#[derive(Debug, PartialEq, Eq)]
pub enum CallError<E> {
    /// The protocol failed; no status of the operation is known.
    Protocol(ProtocolError),
    /// The operation answered with a non-success status.
    Operation(E),
}

/// What "register key" gives back for an answer with status `status`; the
/// operation has no result, so the output is not read.
pub open spec fn store_key_result(status: u32) -> Result<(), CallError<RegisterKeyError>> {
    if status == STORE_KEY_SUCCESS {
        Ok(())
    } else {
        Err(CallError::Operation(RegisterKeyError { code: status }))
    }
}

/// What "verify proof" gives back for an answer with status `status`; the
/// operation has no result, so the output is not read.
pub open spec fn verify_result(status: u32) -> Result<(), CallError<VerifyError>> {
    if status == VERIFY_SUCCESS {
        Ok(())
    } else {
        Err(CallError::Operation(VerifyError { code: status }))
    }
}

/// Turns the answer to a "register key" call into its typed result. A
/// protocol failure passes through unchanged.
pub fn store_key_outcome(answer: Result<CallResponse, ProtocolError>) -> (r: Result<
    (),
    CallError<RegisterKeyError>,
>)
    ensures
        match answer {
            Ok(resp) => r == store_key_result(resp.status),
            Err(e) => r == Err::<(), _>(CallError::<RegisterKeyError>::Protocol(e)),
        },
{
    match answer {
        Err(e) => Err(CallError::Protocol(e)),
        Ok(resp) => {
            if resp.status != STORE_KEY_SUCCESS {
                Err(CallError::Operation(RegisterKeyError::from_code(resp.status)))
            } else {
                Ok(())
            }
        },
    }
}

/// Turns the answer to a "verify proof" call into its typed result. A
/// protocol failure passes through unchanged.
pub fn verify_outcome(answer: Result<CallResponse, ProtocolError>) -> (r: Result<
    (),
    CallError<VerifyError>,
>)
    ensures
        match answer {
            Ok(resp) => r == verify_result(resp.status),
            Err(e) => r == Err::<(), _>(CallError::<VerifyError>::Protocol(e)),
        },
{
    match answer {
        Err(e) => Err(CallError::Protocol(e)),
        Ok(resp) => {
            if resp.status != VERIFY_SUCCESS {
                Err(CallError::Operation(VerifyError::from_code(resp.status)))
            } else {
                Ok(())
            }
        },
    }
}

} // verus!
