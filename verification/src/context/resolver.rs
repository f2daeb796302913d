//! Awaiting a value: the steps by which a promise is driven to its end.
//!
//! The engine does the work; this module decides what it is asked
//! next. `resolve_start` looks at a value and says what to do first;
//! `resolve_step` takes what the engine answered and says what to do
//! then, until the answer is `Finish`.

use crate::errors::ExecutionError;
use crate::value::raw::RawJsValue;
use crate::value::value::{OwnedJsValue, RefOp};
use vstd::prelude::*;
use vstd::string::StringExecFns;

verus! {

/// Where the awaiting of a value stands.
#[derive(Debug, PartialEq)]
pub enum ResolveState {
    /// The value was the marker of a thrown exception, which is being fetched.
    AwaitException,
    /// The value is an object, held here; whether it behaves as a
    /// promise is being found out.
    AwaitThenable(OwnedJsValue),
    /// The handlers that record how the promise settles are being put on it.
    AwaitInstall,
    /// One queued job is being run.
    AwaitJob,
    /// The record of whether the promise has settled is being read.
    AwaitSlot,
    /// The promise has settled, fulfilled if the flag is set; what it
    /// settled to is being read.
    AwaitValue(bool),
    /// The promise was rejected; the reason is being turned into text.
    AwaitText,
    /// The result was handed out.
    Finished,
}

/// What the engine answered.
#[derive(Debug, PartialEq)]
pub enum ResolveEvent {
    /// The pending exception, if there was one.
    Exception(Option<ExecutionError>),
    /// Whether the object behaves as a promise.
    Thenable(Result<bool, ExecutionError>),
    /// The handlers were put on the promise, or that failed.
    Installed(Result<(), ExecutionError>),
    /// One job was asked for: a negative number says that it threw,
    /// zero that none was queued, a positive number that one ran.
    JobRan(i32),
    /// The record of the settling: `None` while the promise is
    /// pending, else whether it was fulfilled.
    Slot(Result<Option<bool>, ExecutionError>),
    /// What the promise settled to.
    Value(Result<OwnedJsValue, ExecutionError>),
    /// The reason of a rejection as text.
    Text(Result<String, ExecutionError>),
}

/// What the engine is asked next.
#[derive(Debug, PartialEq)]
pub enum ResolveAction {
    /// Fetch and clear the pending exception.
    FetchException,
    /// Find out whether this object behaves as a promise.
    CheckThenable(RawJsValue),
    /// Put the recording handlers on this promise. The promise is
    /// handed over: whoever carries the action out releases it.
    InstallResolver(OwnedJsValue),
    /// Run one queued job.
    RunJob,
    /// Read the record of whether the promise has settled.
    ReadResultSlot,
    /// Read what the promise settled to.
    ReadValueSlot,
    /// Turn this value into text. The value is handed over: whoever
    /// carries the action out releases it.
    Stringify(OwnedJsValue),
    /// The awaiting is over with this result; the release, if there
    /// is one, is to be carried out.
    Finish(Result<OwnedJsValue, ExecutionError>, Option<RefOp>),
}

/// The first step for `value`, as a relation between the value and
/// what `resolve_start` returns.
pub open spec fn starts(value: OwnedJsValue, state: ResolveState, action: ResolveAction) -> bool {
    if value.spec_inner().tag is Exception {
        state is AwaitException && action is FetchException
    } else if value.spec_inner().tag is Object {
        state == ResolveState::AwaitThenable(value) && action == ResolveAction::CheckThenable(
            value.spec_inner(),
        )
    } else {
        state is Finished && action == ResolveAction::Finish(Ok(value), None)
    }
}

/// Looks at `value` and says what to do first.
///
/// The marker of a thrown exception leads to the exception; an object
/// is asked whether it behaves as a promise; any other value is the
/// result as it is.
pub fn resolve_start(value: OwnedJsValue) -> (r: (ResolveState, ResolveAction))
    ensures
        starts(value, r.0, r.1),
{
    if value.is_exception() {
        (ResolveState::AwaitException, ResolveAction::FetchException)
    } else if value.is_object() {
        let raw = value.as_inner();
        (ResolveState::AwaitThenable(value), ResolveAction::CheckThenable(raw))
    } else {
        (ResolveState::Finished, ResolveAction::Finish(Ok(value), None))
    }
}

/// The action is `Finish` with the error `Internal` and the text `text`.
pub open spec fn fails_with(action: ResolveAction, text: Seq<char>, release: Option<RefOp>) -> bool {
    action matches ResolveAction::Finish(Err(ExecutionError::Internal(m)), op) && m@ == text && op
        == release
}

/// One step, as a relation between the state, the answer of the
/// engine, and what `resolve_step` returns.
pub open spec fn steps(
    state: ResolveState,
    event: ResolveEvent,
    next: ResolveState,
    action: ResolveAction,
) -> bool {
    match (state, event) {
        (ResolveState::AwaitException, ResolveEvent::Exception(Some(e))) => next is Finished
            && action == ResolveAction::Finish(Err(e), None),
        (ResolveState::AwaitException, ResolveEvent::Exception(None)) => next is Finished
            && fails_with(action, "Unknown exception"@, None),
        (ResolveState::AwaitThenable(value), ResolveEvent::Thenable(Ok(true))) => next
            is AwaitInstall && action == ResolveAction::InstallResolver(value),
        (ResolveState::AwaitThenable(value), ResolveEvent::Thenable(Ok(false))) => next
            is Finished && action == ResolveAction::Finish(Ok(value), None),
        (ResolveState::AwaitThenable(value), ResolveEvent::Thenable(Err(e))) => next is Finished
            && action == ResolveAction::Finish(Err(e), Some(RefOp::Free(value.spec_inner()))),
        (ResolveState::AwaitInstall, ResolveEvent::Installed(Ok(()))) => next is AwaitJob
            && action is RunJob,
        (ResolveState::AwaitInstall, ResolveEvent::Installed(Err(e))) => next is Finished
            && action == ResolveAction::Finish(Err(e), None),
        (ResolveState::AwaitJob, ResolveEvent::JobRan(status)) => if status < 0 {
            next is AwaitException && action is FetchException
        } else {
            next is AwaitSlot && action is ReadResultSlot
        },
        (ResolveState::AwaitSlot, ResolveEvent::Slot(Ok(None))) => next is AwaitJob && action
            is RunJob,
        (ResolveState::AwaitSlot, ResolveEvent::Slot(Ok(Some(ok)))) => next
            == ResolveState::AwaitValue(ok) && action is ReadValueSlot,
        (ResolveState::AwaitSlot, ResolveEvent::Slot(Err(e))) => next is Finished && action
            == ResolveAction::Finish(Err(e), None),
        (ResolveState::AwaitValue(true), ResolveEvent::Value(Ok(value))) => starts(
            value,
            next,
            action,
        ),
        (ResolveState::AwaitValue(false), ResolveEvent::Value(Ok(value))) => next is AwaitText
            && action == ResolveAction::Stringify(value),
        (ResolveState::AwaitValue(_), ResolveEvent::Value(Err(e))) => next is Finished && action
            == ResolveAction::Finish(Err(e), None),
        (ResolveState::AwaitText, ResolveEvent::Text(Ok(text))) => next is Finished && action
            == ResolveAction::Finish(Err(ExecutionError::Exception(text)), None),
        (ResolveState::AwaitText, ResolveEvent::Text(Err(e))) => next is Finished && action
            == ResolveAction::Finish(Err(e), None),
        (ResolveState::AwaitThenable(value), _) => next is Finished && fails_with(
            action,
            "Resolver out of step"@,
            Some(RefOp::Free(value.spec_inner())),
        ),
        (_, ResolveEvent::Value(Ok(value))) => next is Finished && fails_with(
            action,
            "Resolver out of step"@,
            Some(RefOp::Free(value.spec_inner())),
        ),
        _ => next is Finished && fails_with(action, "Resolver out of step"@, None),
    }
}

/// The error for an answer that does not fit the state.
fn out_of_step(release: Option<RefOp>) -> (r: (ResolveState, ResolveAction))
    ensures
        r.0 is Finished,
        fails_with(r.1, "Resolver out of step"@, release),
{
    (
        ResolveState::Finished,
        ResolveAction::Finish(
            Err(ExecutionError::Internal(String::from_str("Resolver out of step"))),
            release,
        ),
    )
}

/// Takes what the engine answered and says what to do then.
///
/// A thrown exception ends the awaiting with that exception. A
/// promise is driven one job at a time until its settling is on
/// record: a fulfilled promise is awaited again where it settled to
/// another promise, a rejected one ends with its reason as text in
/// an `Exception`. An answer that does not fit the state ends the
/// awaiting with an `Internal` error; a value that came with it, or
/// was held, is released.
pub fn resolve_step(state: ResolveState, event: ResolveEvent) -> (r: (ResolveState, ResolveAction))
    ensures
        steps(state, event, r.0, r.1),
{
    match state {
        ResolveState::AwaitException => match event {
            ResolveEvent::Exception(Some(e)) => (
                ResolveState::Finished,
                ResolveAction::Finish(Err(e), None),
            ),
            ResolveEvent::Exception(None) => (
                ResolveState::Finished,
                ResolveAction::Finish(
                    Err(ExecutionError::Internal(String::from_str("Unknown exception"))),
                    None,
                ),
            ),
            ResolveEvent::Value(Ok(v)) => out_of_step(Some(v.release())),
            _ => out_of_step(None),
        },
        ResolveState::AwaitThenable(value) => match event {
            ResolveEvent::Thenable(Ok(true)) => (
                ResolveState::AwaitInstall,
                ResolveAction::InstallResolver(value),
            ),
            ResolveEvent::Thenable(Ok(false)) => (
                ResolveState::Finished,
                ResolveAction::Finish(Ok(value), None),
            ),
            ResolveEvent::Thenable(Err(e)) => (
                ResolveState::Finished,
                ResolveAction::Finish(Err(e), Some(value.release())),
            ),
            _ => out_of_step(Some(value.release())),
        },
        ResolveState::AwaitInstall => match event {
            ResolveEvent::Installed(Ok(())) => (ResolveState::AwaitJob, ResolveAction::RunJob),
            ResolveEvent::Installed(Err(e)) => (
                ResolveState::Finished,
                ResolveAction::Finish(Err(e), None),
            ),
            ResolveEvent::Value(Ok(v)) => out_of_step(Some(v.release())),
            _ => out_of_step(None),
        },
        ResolveState::AwaitJob => match event {
            ResolveEvent::JobRan(status) => {
                if status < 0 {
                    (ResolveState::AwaitException, ResolveAction::FetchException)
                } else {
                    (ResolveState::AwaitSlot, ResolveAction::ReadResultSlot)
                }
            },
            ResolveEvent::Value(Ok(v)) => out_of_step(Some(v.release())),
            _ => out_of_step(None),
        },
        ResolveState::AwaitSlot => match event {
            ResolveEvent::Slot(Ok(None)) => (ResolveState::AwaitJob, ResolveAction::RunJob),
            ResolveEvent::Slot(Ok(Some(ok))) => (
                ResolveState::AwaitValue(ok),
                ResolveAction::ReadValueSlot,
            ),
            ResolveEvent::Slot(Err(e)) => (
                ResolveState::Finished,
                ResolveAction::Finish(Err(e), None),
            ),
            ResolveEvent::Value(Ok(v)) => out_of_step(Some(v.release())),
            _ => out_of_step(None),
        },
        ResolveState::AwaitValue(ok) => match event {
            ResolveEvent::Value(Ok(value)) => {
                if ok {
                    resolve_start(value)
                } else {
                    (ResolveState::AwaitText, ResolveAction::Stringify(value))
                }
            },
            ResolveEvent::Value(Err(e)) => (
                ResolveState::Finished,
                ResolveAction::Finish(Err(e), None),
            ),
            _ => out_of_step(None),
        },
        ResolveState::AwaitText => match event {
            ResolveEvent::Text(Ok(text)) => (
                ResolveState::Finished,
                ResolveAction::Finish(Err(ExecutionError::Exception(text)), None),
            ),
            ResolveEvent::Text(Err(e)) => (
                ResolveState::Finished,
                ResolveAction::Finish(Err(e), None),
            ),
            ResolveEvent::Value(Ok(v)) => out_of_step(Some(v.release())),
            _ => out_of_step(None),
        },
        ResolveState::Finished => match event {
            ResolveEvent::Value(Ok(v)) => out_of_step(Some(v.release())),
            _ => out_of_step(None),
        },
    }
}

/// The awaiting never hands out a promise-like answer as a plain
/// success: `Finish` with a value comes only from a value that is no
/// object, or from an object that was found not to behave as a promise.
pub proof fn lemma_finish_is_settled(
    state: ResolveState,
    event: ResolveEvent,
    next: ResolveState,
    action: ResolveAction,
)
    requires
        steps(state, event, next, action),
        action matches ResolveAction::Finish(Ok(_), _),
    ensures
        match (state, event) {
            (ResolveState::AwaitThenable(held), ResolveEvent::Thenable(Ok(false))) => action
                == ResolveAction::Finish(Ok(held), None),
            (ResolveState::AwaitValue(true), ResolveEvent::Value(Ok(v))) => !(
            v.spec_inner().tag is Object) && !(v.spec_inner().tag is Exception) && action
                == ResolveAction::Finish(Ok(v), None),
            _ => false,
        },
{
}

/// Once the engine reports that a job threw, or answers with an
/// error, the awaiting ends in an error or goes to fetch the exception:
/// it never goes on as if nothing had happened.
pub proof fn lemma_errors_surface(
    state: ResolveState,
    event: ResolveEvent,
    next: ResolveState,
    action: ResolveAction,
)
    requires
        steps(state, event, next, action),
        match event {
            ResolveEvent::Thenable(Err(_))
            | ResolveEvent::Installed(Err(_))
            | ResolveEvent::Slot(Err(_))
            | ResolveEvent::Value(Err(_))
            | ResolveEvent::Text(Err(_)) => true,
            ResolveEvent::JobRan(status) => status < 0,
            _ => false,
        },
    ensures
        action matches ResolveAction::Finish(Err(_), _) || action is FetchException,
{
}

} // verus!
