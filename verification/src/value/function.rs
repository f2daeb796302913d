//! Functions.

use super::heap::{is_function_in, Heap, HeapCell};
use super::raw::RawJsValue;
use super::value::OwnedJsValue;
use crate::errors::ValueError;
use crate::utils::create_null;
use vstd::prelude::*;
use vstd::string::StringExecFns;

verus! {

/// A call that the engine is to make.
#[derive(Debug, PartialEq, Eq)]
pub struct CallRequest {
    /// What is called.
    pub function: RawJsValue,
    /// What `this` is bound to during the call.
    pub this: RawJsValue,
    /// The arguments, in order. They stay owned by the caller.
    pub args: Vec<RawJsValue>,
}

/// Something that can be called.
#[derive(Debug, PartialEq, Eq)]
pub struct JsFunction {
    value: OwnedJsValue,
}

impl JsFunction {
    /// The value that is the function.
    pub closed spec fn spec_value(&self) -> OwnedJsValue {
        self.value
    }

    /// Takes `value` as a function; it must be something that can be
    /// called. A value of another kind is handed back with the
    /// error, to be used otherwise.
    pub fn try_from_value(heap: &Heap, value: OwnedJsValue) -> (r: Result<
        JsFunction,
        (ValueError, OwnedJsValue),
    >)
        ensures
            r is Ok <==> is_function_in(heap@, value.spec_inner()),
            r matches Ok(f) ==> f.spec_value() == value,
            r matches Err(e) ==> e == (ValueError::UnexpectedType, value),
    {
        let callable = matches!(heap.target(&value.as_inner()), Some(HeapCell::Function));
        if !callable {
            Err((ValueError::UnexpectedType, value))
        } else {
            Ok(JsFunction { value })
        }
    }

    /// The function as a value again.
    pub fn into_value(self) -> (v: OwnedJsValue)
        ensures
            v == self.spec_value(),
    {
        self.value
    }

    /// The call of the function with the arguments `args`, in their
    /// order, and with `this` bound to `null`. What the engine
    /// returns for it is a new value, to be taken over with
    /// `OwnedJsValue::new`; a promise among the results is not awaited here.
    pub fn call(&self, args: &Vec<OwnedJsValue>) -> (r: CallRequest)
        ensures
            r.function == self.spec_value().spec_inner(),
            r.this == RawJsValue::spec_null(),
            r.args@.len() == args@.len(),
            forall|i: int| 0 <= i < args@.len() ==> r.args@[i] == (#[trigger] args@[i]).spec_inner(),
    {
        let mut qargs: Vec<RawJsValue> = Vec::new();
        let mut i: usize = 0;
        while i < args.len()
            invariant
                i <= args.len(),
                qargs@.len() == i,
                forall|k: int| 0 <= k < i ==> qargs@[k] == (#[trigger] args@[k]).spec_inner(),
            decreases args.len() - i,
        {
            qargs.push(args[i].as_inner());
            i += 1;
        }
        CallRequest { function: self.value.as_inner(), this: create_null(), args: qargs }
    }
}

} // verus!
