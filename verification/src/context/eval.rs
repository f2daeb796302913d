//! What the engine is asked when code is run, and how its queue of
//! jobs is drained.

use crate::errors::{ExecutionError, ValueError};
use crate::utils::{contains_zero, has_zero};
use crate::value::function::JsFunction;
use crate::value::heap::{is_function_in, Heap, HeapCell};
use crate::value::object::{property_in, OwnedJsObject};
use crate::value::value::OwnedJsValue;
use vstd::prelude::*;
use vstd::string::StringExecFns;

verus! {

/// How code is handed to the engine.
#[derive(Debug, Clone, Copy, PartialEq, Eq, Structural)]
pub enum EvalMode {
    /// Run as a script.
    Global,
    /// Run as a module.
    Module,
    /// Compile as a script, do not run.
    CompileOnly,
    /// Compile as a module, do not run.
    ModuleCompileOnly,
}

/// One request to run or compile code. The code itself stays with the caller.
#[derive(Debug, PartialEq, Eq)]
pub struct EvalRequest {
    /// The name under which the engine knows the code.
    pub filename: String,
    pub mode: EvalMode,
}

/// The request for `code` under the name `filename`: it is refused
/// where the name or the code holds a zero character.
pub fn eval_request(code: &str, filename: &str, mode: EvalMode) -> (r: Result<
    EvalRequest,
    ExecutionError,
>)
    ensures
        r is Err <==> has_zero(code@) || has_zero(filename@),
        r matches Err(e) ==> e == ExecutionError::Conversion(ValueError::StringWithZeroBytes),
        r matches Ok(req) ==> req.filename@ == filename@ && req.mode == mode,
{
    if contains_zero(filename) || contains_zero(code) {
        Err(ExecutionError::Conversion(ValueError::StringWithZeroBytes))
    } else {
        Ok(EvalRequest { filename: String::from_str(filename), mode })
    }
}

/// The request to run `code` as a script. What the engine returns
/// for it is awaited before it is handed out.
pub fn eval(code: &str) -> (r: Result<EvalRequest, ExecutionError>)
    ensures
        r is Err <==> has_zero(code@),
        r matches Err(e) ==> e == ExecutionError::Conversion(ValueError::StringWithZeroBytes),
        r matches Ok(req) ==> req.filename@ == "script.js"@ && req.mode == EvalMode::Global,
{
    proof {
        lemma_names_have_no_zero();
    }
    eval_request(code, "script.js", EvalMode::Global)
}

/// The request to run `code` as a module. What the engine returns
/// for it is awaited before it is handed out.
pub fn eval_module(code: &str) -> (r: Result<EvalRequest, ExecutionError>)
    ensures
        r is Err <==> has_zero(code@),
        r matches Err(e) ==> e == ExecutionError::Conversion(ValueError::StringWithZeroBytes),
        r matches Ok(req) ==> req.filename@ == "module.js"@ && req.mode == EvalMode::Module,
{
    proof {
        lemma_names_have_no_zero();
    }
    eval_request(code, "module.js", EvalMode::Module)
}

/// The names under which code is run hold no zero character.
pub proof fn lemma_names_have_no_zero()
    ensures
        !has_zero("script.js"@),
        !has_zero("module.js"@),
{
    reveal_strlit("script.js");
    reveal_strlit("module.js");
    assert forall|i: int| 0 <= i < "script.js"@.len() implies "script.js"@[i] != '\0' by {
        if i == 0 {
        } else if i == 1 {
        } else if i == 2 {
        } else if i == 3 {
        } else if i == 4 {
        } else if i == 5 {
        } else if i == 6 {
        } else if i == 7 {
        } else {
        }
    }
    assert forall|i: int| 0 <= i < "module.js"@.len() implies "module.js"@[i] != '\0' by {
        if i == 0 {
        } else if i == 1 {
        } else if i == 2 {
        } else if i == 3 {
        } else if i == 4 {
        } else if i == 5 {
        } else if i == 6 {
        } else if i == 7 {
        } else {
        }
    }
}

/// Checks the name of a module file that is to be run: it must hold
/// no zero character.
pub fn run_module(filename: &str) -> (r: Result<(), ExecutionError>)
    ensures
        r is Err <==> has_zero(filename@),
        r matches Err(e) ==> e == ExecutionError::Conversion(ValueError::StringWithZeroBytes),
{
    if contains_zero(filename) {
        Err(ExecutionError::Conversion(ValueError::StringWithZeroBytes))
    } else {
        Ok(())
    }
}

/// What to do after the engine was asked to run one queued job.
#[derive(Debug, Clone, Copy, PartialEq, Eq, Structural)]
pub enum JobStep {
    /// A job ran: ask for the next.
    Again,
    /// No job was queued: the queue is drained.
    Stop,
    /// The job threw: fetch the exception, then stop.
    CheckException,
}

/// Reads the status of one run of the queue: a positive number says
/// that a job ran, zero that none was queued, a negative number that
/// the job threw.
pub fn execute_pending_job(status: i32) -> (step: JobStep)
    ensures
        step == (if status > 0 {
            JobStep::Again
        } else if status < 0 {
            JobStep::CheckException
        } else {
            JobStep::Stop
        }),
{
    if status <= 0 {
        if status < 0 {
            JobStep::CheckException
        } else {
            JobStep::Stop
        }
    } else {
        JobStep::Again
    }
}

/// Takes what the engine hands out as its global object.
pub fn global(value: OwnedJsValue) -> (r: Result<OwnedJsObject, ExecutionError>)
    ensures
        r is Ok <==> value.spec_inner().tag is Object,
        r matches Ok(o) ==> o.spec_value() == value,
        r matches Err(e) ==> e == ExecutionError::Conversion(ValueError::UnexpectedType),
{
    match OwnedJsObject::try_from_value(value) {
        Ok(o) => Ok(o),
        Err((e, _)) => Err(ExecutionError::Conversion(e)),
    }
}

/// Finds the global function `function_name`, which `call_function`
/// then calls. A global of that name that cannot be called, or none
/// at all, is an error.
pub fn call_function(heap: &Heap, global: &OwnedJsObject, function_name: &str) -> (r: Result<
    JsFunction,
    ExecutionError,
>)
    ensures
        r is Ok <==> is_function_in(heap@, property_in(heap@, global.raw(), function_name@)),
        r matches Ok(f) ==> f.spec_value().spec_inner() == property_in(
            heap@,
            global.raw(),
            function_name@,
        ),
{
    let value = global.property_require(heap, function_name)?;
    match JsFunction::try_from_value(heap, value) {
        Ok(f) => Ok(f),
        Err((e, _)) => Err(ExecutionError::Conversion(e)),
    }
}

} // verus!
