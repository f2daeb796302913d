//! Compiled functions.

use super::value::OwnedJsValue;
use crate::errors::ValueError;
use vstd::prelude::*;
use vstd::string::StringExecFns;

verus! {

/// A function in compiled form.
#[derive(Debug, PartialEq, Eq)]
pub struct JsCompiledFunction {
    value: OwnedJsValue,
}

impl JsCompiledFunction {
    /// The value that is the compiled function.
    pub closed spec fn spec_value(&self) -> OwnedJsValue {
        self.value
    }

    /// Takes `value` as a compiled function; it must have the tag
    /// of one. A value of another kind is handed back with the
    /// error, to be used otherwise.
    pub fn try_from_value(value: OwnedJsValue) -> (r: Result<
        JsCompiledFunction,
        (ValueError, OwnedJsValue),
    >)
        ensures
            r is Ok <==> value.spec_inner().tag is FunctionBytecode,
            r matches Ok(f) ==> f.spec_value() == value,
            r matches Err(e) ==> e == (ValueError::UnexpectedType, value),
    {
        if !value.is_compiled_function() {
            Err((ValueError::UnexpectedType, value))
        } else {
            Ok(JsCompiledFunction { value })
        }
    }

    /// The compiled function as a value.
    pub fn as_value(&self) -> (v: &OwnedJsValue)
        ensures
            *v == self.spec_value(),
    {
        &self.value
    }

    /// The compiled function as a value again.
    pub fn into_value(self) -> (v: OwnedJsValue)
        ensures
            v == self.spec_value(),
    {
        self.value
    }
}

} // verus!
