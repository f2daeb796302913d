//! Telling what the engine threw.

use crate::errors::ExecutionError;
use crate::utils::{contains, text_contains};
use vstd::prelude::*;
use vstd::string::StringExecFns;

verus! {

/// What the engine holds as its pending exception.
#[derive(Debug, PartialEq)]
pub enum PendingException {
    /// Nothing is pending.
    Nothing,
    /// Something is pending, but what was fetched is itself the
    /// marker of a thrown exception.
    Unreadable,
    /// The pending exception as text, or the reason why it could
    /// not be turned into text.
    Text(Result<String, ExecutionError>),
}

/// The text by which the engine reports that it ran out of memory.
pub open spec fn memory_marker() -> Seq<char> {
    "out of memory"@
}

/// What `get_exception` makes of the pending exception.
pub open spec fn exception_of(pending: PendingException, r: Option<ExecutionError>) -> bool {
    match pending {
        PendingException::Nothing => r is None,
        PendingException::Unreadable => r matches Some(ExecutionError::Internal(m)) && m@
            == "Could get exception from runtime"@,
        PendingException::Text(Ok(text)) => if text_contains(text@, memory_marker()) {
            r matches Some(ExecutionError::OutOfMemory)
        } else {
            r == Some(ExecutionError::Exception(text))
        },
        PendingException::Text(Err(e)) => r == Some(e),
    }
}

/// The error for the pending exception; `None` where nothing is pending.
///
/// An exception whose text holds "out of memory" is `OutOfMemory`:
/// the engine gives no other sign of it. Every other exception is an
/// `Exception` with its text.
pub fn get_exception(pending: PendingException) -> (r: Option<ExecutionError>)
    ensures
        exception_of(pending, r),
{
    match pending {
        PendingException::Nothing => None,
        PendingException::Unreadable => Some(
            ExecutionError::Internal(String::from_str("Could get exception from runtime")),
        ),
        PendingException::Text(Ok(strval)) => {
            if contains(strval.as_str(), "out of memory") {
                Some(ExecutionError::OutOfMemory)
            } else {
                Some(ExecutionError::Exception(strval))
            }
        },
        PendingException::Text(Err(e)) => Some(e),
    }
}

/// Fails with the pending exception, if there is one.
pub fn ensure_no_excpetion(pending: PendingException) -> (r: Result<(), ExecutionError>)
    ensures
        r is Ok <==> pending is Nothing,
        r matches Err(e) ==> exception_of(pending, Some(e)),
{
    match get_exception(pending) {
        Some(e) => Err(e),
        None => Ok(()),
    }
}

} // verus!
