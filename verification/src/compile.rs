//! Compiling code to bytecode and running code from bytecode: what
//! the engine is asked, and what its answers mean.

use crate::context::eval::{eval_request, EvalMode, EvalRequest};
use crate::context::exception::{exception_of, get_exception, PendingException};
use crate::errors::{ExecutionError, ValueError};
use crate::utils::has_zero;
use crate::value::raw::RawJsValue;
use crate::value::value::{OwnedJsValue, RefOp};
use vstd::prelude::*;
use vstd::string::StringExecFns;

verus! {

/// The request to compile `script` as a script, known to the engine
/// as `file_name`. The result counts only if no exception is
/// pending afterwards.
pub fn compile(script: &str, file_name: &str) -> (r: Result<EvalRequest, ExecutionError>)
    ensures
        r is Err <==> has_zero(script@) || has_zero(file_name@),
        r matches Err(e) ==> e == ExecutionError::Conversion(ValueError::StringWithZeroBytes),
        r matches Ok(req) ==> req.filename@ == file_name@ && req.mode == EvalMode::CompileOnly,
{
    eval_request(script, file_name, EvalMode::CompileOnly)
}

/// The request to compile `script` as a module, known to the engine
/// as `file_name`. The result counts only if no exception is
/// pending afterwards.
pub fn compile_module(script: &str, file_name: &str) -> (r: Result<EvalRequest, ExecutionError>)
    ensures
        r is Err <==> has_zero(script@) || has_zero(file_name@),
        r matches Err(e) ==> e == ExecutionError::Conversion(ValueError::StringWithZeroBytes),
        r matches Ok(req) ==> req.filename@ == file_name@ && req.mode
            == EvalMode::ModuleCompileOnly,
{
    eval_request(script, file_name, EvalMode::ModuleCompileOnly)
}

/// What compiling or running gave: `value`, unless an exception is
/// pending; then the value is released and the exception is the result.
pub fn checked(value: OwnedJsValue, pending: PendingException) -> (r: (
    Result<OwnedJsValue, ExecutionError>,
    Option<RefOp>,
))
    ensures
        match pending {
            PendingException::Nothing => r.0 == Ok::<OwnedJsValue, ExecutionError>(value) && r.1
                is None,
            _ => (r.0 matches Err(e) && exception_of(pending, Some(e))) && r.1 == Some(
                RefOp::Free(value.spec_inner()),
            ),
        },
{
    match get_exception(pending) {
        Some(e) => (Err(e), Some(value.release())),
        None => (Ok(value), None),
    }
}

/// What running a compiled function gave: `value`, unless an
/// exception is pending. An `Internal` error among them is marked
/// as coming from the run.
pub fn run_compiled_function(value: OwnedJsValue, pending: PendingException) -> (r: (
    Result<OwnedJsValue, ExecutionError>,
    Option<RefOp>,
))
    ensures
        match pending {
            PendingException::Nothing => r.0 == Ok::<OwnedJsValue, ExecutionError>(value) && r.1
                is None,
            PendingException::Unreadable => (r.0 matches Err(ExecutionError::Internal(m)) && m@
                == "Could not evaluate compiled function: "@
                + "Could get exception from runtime"@) && r.1 == Some(
                RefOp::Free(value.spec_inner()),
            ),
            PendingException::Text(Err(ExecutionError::Internal(msg))) => (r.0 matches Err(
                ExecutionError::Internal(m),
            ) && m@ == "Could not evaluate compiled function: "@ + msg@) && r.1 == Some(
                RefOp::Free(value.spec_inner()),
            ),
            _ => (r.0 matches Err(e) && exception_of(pending, Some(e))) && r.1 == Some(
                RefOp::Free(value.spec_inner()),
            ),
        },
{
    match get_exception(pending) {
        Some(ExecutionError::Internal(msg)) => (
            Err(
                ExecutionError::Internal(
                    String::from_str("Could not evaluate compiled function: ").concat(msg.as_str()),
                ),
            ),
            Some(value.release()),
        ),
        Some(e) => (Err(e), Some(value.release())),
        None => (Ok(value), None),
    }
}

/// What reading bytecode gave: the value that was read, unless it
/// is the marker of a thrown exception. Then the pending exception
/// is the result, or an `Internal` error where none is pending.
pub fn from_bytecode(value: OwnedJsValue, pending: PendingException) -> (r: Result<
    OwnedJsValue,
    ExecutionError,
>)
    ensures
        if !(value.spec_inner().tag is Exception) {
            r == Ok::<OwnedJsValue, ExecutionError>(value)
        } else if pending is Nothing {
            r matches Err(ExecutionError::Internal(m)) && m@
                == "from_bytecode failed and could not get exception"@
        } else {
            r matches Err(e) && exception_of(pending, Some(e))
        },
{
    if value.is_exception() {
        match get_exception(pending) {
            Some(ex) => Err(ex),
            None => Err(
                ExecutionError::Internal(
                    String::from_str("from_bytecode failed and could not get exception"),
                ),
            ),
        }
    } else {
        Ok(value)
    }
}

/// A copy of the bytes that the engine wrote for a compiled function.
pub fn to_bytecode(written: &[u8]) -> (data: Vec<u8>)
    ensures
        data@ == written@,
{
    let mut data: Vec<u8> = Vec::new();
    let mut i: usize = 0;
    while i < written.len()
        invariant
            i <= written.len(),
            data@ == written@.subrange(0, i as int),
        decreases written.len() - i,
    {
        data.push(written[i]);
        assert(data@ =~= written@.subrange(0, i + 1));
        i += 1;
    }
    assert(data@ =~= written@);
    data
}

} // verus!
