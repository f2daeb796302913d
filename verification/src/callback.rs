//! Host closures as script functions: what is checked before a
//! closure runs, and what the engine is told when it has run.

use crate::errors::{ExecutionError, ValueError};
use crate::utils::{create_undefined, decimal, decimal_digits};
use crate::value::raw::RawJsValue;
use crate::value::value::{OwnedJsValue, RefOp};
use vstd::prelude::*;
use vstd::string::StringExecFns;

verus! {

/// All arguments of one call, for closures that take any number of them.
#[derive(Debug, PartialEq, Eq)]
pub struct Arguments(pub Vec<OwnedJsValue>);

impl Arguments {
    /// Unpacks the arguments.
    pub fn into_vec(self) -> (v: Vec<OwnedJsValue>)
        ensures
            v == self.0,
    {
        self.0
    }
}

/// The text of the error for a call with `got` arguments of a
/// closure that takes `expected`.
pub open spec fn argument_count_text(expected: nat, got: nat) -> Seq<char> {
    "Invalid argument count: Expected "@ + decimal_digits(expected) + ", got "@ + decimal_digits(
        got,
    )
}

/// Checks the number of arguments of a call against the number that
/// the closure takes. A mismatch is an error that names both.
pub fn check_argument_count(expected: usize, got: usize) -> (r: Result<(), String>)
    ensures
        r is Ok <==> expected == got,
        r matches Err(text) ==> text@ == argument_count_text(expected as nat, got as nat),
{
    if expected == got {
        Ok(())
    } else {
        let text = String::from_str("Invalid argument count: Expected ").concat(
            decimal(expected).as_str(),
        ).concat(", got ").concat(decimal(got).as_str());
        Err(text)
    }
}

/// Takes the arguments of a call over: each is owned from then on,
/// for which the engine is asked for one reference more.
pub fn own_arguments(context: usize, raws: &Vec<RawJsValue>) -> (r: (Vec<OwnedJsValue>, Vec<RefOp>))
    ensures
        r.0@.len() == raws@.len(),
        r.1@.len() == raws@.len(),
        forall|i: int|
            0 <= i < raws@.len() ==> (#[trigger] r.0@[i]).spec_inner() == raws@[i]
                && r.0@[i].spec_context() == context,
        forall|i: int| 0 <= i < raws@.len() ==> #[trigger] r.1@[i] == RefOp::Dup(raws@[i]),
{
    let mut args: Vec<OwnedJsValue> = Vec::new();
    let mut ops: Vec<RefOp> = Vec::new();
    let mut i: usize = 0;
    while i < raws.len()
        invariant
            i <= raws.len(),
            args@.len() == i,
            ops@.len() == i,
            forall|k: int|
                0 <= k < i ==> (#[trigger] args@[k]).spec_inner() == raws@[k]
                    && args@[k].spec_context() == context,
            forall|k: int| 0 <= k < i ==> #[trigger] ops@[k] == RefOp::Dup(raws@[k]),
        decreases raws.len() - i,
    {
        let (owned, op) = OwnedJsValue::own(context, &raws[i]);
        args.push(owned);
        ops.push(op);
        i += 1;
    }
    (args, ops)
}

/// How the run of a closure ended.
#[derive(Debug, PartialEq)]
pub enum CallbackOutcome {
    /// The closure returned: the arguments could not be converted
    /// (outer error), the closure reported an error (inner error), or
    /// there is a result.
    Returned(Result<Result<OwnedJsValue, String>, ValueError>),
    /// The closure panicked; the panic was caught.
    Panicked,
}

/// What `exec_callback` makes of the run of a closure.
pub open spec fn callback_result(outcome: CallbackOutcome, r: Result<RawJsValue, ExecutionError>) -> bool {
    match outcome {
        CallbackOutcome::Returned(Ok(Ok(value))) => r == Ok::<RawJsValue, ExecutionError>(
            value.spec_inner(),
        ),
        CallbackOutcome::Returned(Ok(Err(text))) => r == Err::<RawJsValue, ExecutionError>(
            ExecutionError::Exception(text),
        ),
        CallbackOutcome::Returned(Err(e)) => r == Err::<RawJsValue, ExecutionError>(
            ExecutionError::Conversion(e),
        ),
        CallbackOutcome::Panicked => r matches Err(ExecutionError::Internal(m)) && m@
            == "Callback panicked!"@,
    }
}

/// Turns the run of a closure into the result of the call.
///
/// A result is handed out together with the duty to release it. An
/// error of the closure becomes an `Exception` with its text, a
/// failed conversion a `Conversion`, and a panic the `Internal`
/// error "Callback panicked!": a panic never goes further than this.
pub fn exec_callback(outcome: CallbackOutcome) -> (r: Result<RawJsValue, ExecutionError>)
    ensures
        callback_result(outcome, r),
{
    match outcome {
        CallbackOutcome::Returned(Ok(Ok(result))) => Ok(result.extract()),
        CallbackOutcome::Returned(Ok(Err(e))) => Err(ExecutionError::Exception(e)),
        CallbackOutcome::Returned(Err(e)) => Err(ExecutionError::Conversion(e)),
        CallbackOutcome::Panicked => Err(
            ExecutionError::Internal(String::from_str("Callback panicked!")),
        ),
    }
}

/// What the engine is told at the end of a call into the host.
#[derive(Debug, PartialEq, Eq)]
pub enum CallbackReply {
    /// The call returns this value.
    Return(RawJsValue),
    /// The engine is asked to throw a string with this text, and the
    /// call returns the marker of a thrown exception.
    Throw(String),
}

impl CallbackReply {
    /// The value that the call returns to the engine.
    pub open spec fn spec_returned(&self) -> RawJsValue {
        match self {
            CallbackReply::Return(v) => *v,
            CallbackReply::Throw(_) => RawJsValue::spec_exception(),
        }
    }

    /// The value that the call returns to the engine.
    pub fn returned(&self) -> (v: RawJsValue)
        ensures
            v == self.spec_returned(),
    {
        match self {
            CallbackReply::Return(v) => *v,
            CallbackReply::Throw(_) => RawJsValue::exception(),
        }
    }
}

/// What the engine is told for the result of `exec_callback`: a
/// value is returned, an error is thrown as a string. The string is
/// the text of an `Exception`, and the text of the error otherwise.
pub fn callback_reply(result: Result<RawJsValue, ExecutionError>) -> (reply: CallbackReply)
    ensures
        match result {
            Ok(value) => reply == CallbackReply::Return(value),
            Err(e) => reply matches CallbackReply::Throw(text) && text@ == e.message(),
        },
{
    match result {
        Ok(value) => CallbackReply::Return(value),
        Err(e) => CallbackReply::Throw(e.to_string()),
    }
}

/// How the run of a callback that works on raw values ended.
#[derive(Debug, PartialEq, Eq)]
pub enum CustomOutcome {
    /// The callback returned a value, or none, or the text of an error.
    Returned(Result<Option<RawJsValue>, String>),
    /// The callback panicked; the panic was caught.
    Panicked,
}

/// What the engine is told at the end of a callback that works on
/// raw values: its value; `undefined` where it has none; its error,
/// thrown as a string; and for a panic the thrown string
/// "Callback panicked!".
pub fn custom_callback_reply(outcome: CustomOutcome) -> (reply: CallbackReply)
    ensures
        match outcome {
            CustomOutcome::Returned(Ok(Some(value))) => reply == CallbackReply::Return(value),
            CustomOutcome::Returned(Ok(None)) => reply == CallbackReply::Return(
                RawJsValue::spec_undefined(),
            ),
            CustomOutcome::Returned(Err(text)) => reply == CallbackReply::Throw(text),
            CustomOutcome::Panicked => reply matches CallbackReply::Throw(text) && text@
                == "Callback panicked!"@,
        },
{
    match outcome {
        CustomOutcome::Returned(Ok(Some(value))) => CallbackReply::Return(value),
        CustomOutcome::Returned(Ok(None)) => CallbackReply::Return(create_undefined()),
        CustomOutcome::Returned(Err(e)) => CallbackReply::Throw(e),
        CustomOutcome::Panicked => CallbackReply::Throw(String::from_str("Callback panicked!")),
    }
}

/// The closures that script code may call, kept for as long as the
/// context lives. Entries are only ever added; all go at once when
/// the context is reset.
#[derive(Debug)]
pub struct CallbackRegistry<T> {
    entries: Vec<T>,
}

impl<T> View for CallbackRegistry<T> {
    type V = Seq<T>;

    closed spec fn view(&self) -> Seq<T> {
        self.entries@
    }
}

impl<T> CallbackRegistry<T> {
    /// A registry without entries.
    pub fn new() -> (r: CallbackRegistry<T>)
        ensures
            r@ == Seq::<T>::empty(),
    {
        CallbackRegistry { entries: Vec::new() }
    }

    /// The number of entries.
    pub fn len(&self) -> (n: usize)
        ensures
            n == self@.len(),
    {
        self.entries.len()
    }

    /// Adds `entry` behind all others and returns its place.
    pub fn push(&mut self, entry: T) -> (at: usize)
        ensures
            final(self)@ == old(self)@.push(entry),
            at == old(self)@.len(),
    {
        let at = self.entries.len();
        self.entries.push(entry);
        at
    }

    /// The entry at `at`.
    pub fn get(&self, at: usize) -> (r: Option<&T>)
        ensures
            r == (if at < self@.len() {
                Some(&self@[at as int])
            } else {
                None
            }),
    {
        if at < self.entries.len() {
            Some(&self.entries[at])
        } else {
            None
        }
    }

    /// Drops all entries.
    pub fn clear(&mut self)
        ensures
            final(self)@ == Seq::<T>::empty(),
    {
        self.entries.clear();
    }
}

/// Adding an entry leaves every earlier entry in its place.
pub proof fn lemma_registry_keeps_entries<T>(before: Seq<T>, entry: T, at: int)
    requires
        0 <= at < before.len(),
    ensures
        before.push(entry)[at] == before[at],
        before.push(entry).len() == before.len() + 1,
{
}

} // verus!
