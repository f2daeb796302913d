//! Modules and compiled values.

use super::compiled_function::JsCompiledFunction;
use super::value::OwnedJsValue;
use crate::errors::ValueError;
use vstd::prelude::*;
use vstd::string::StringExecFns;

verus! {

/// A module.
#[derive(Debug, PartialEq, Eq)]
pub struct JsModule {
    value: OwnedJsValue,
}

impl JsModule {
    /// The value that is the module.
    pub closed spec fn spec_value(&self) -> OwnedJsValue {
        self.value
    }

    /// Takes `value` as a module; it must have the tag of one. A
    /// value of another kind is handed back with the error, to be
    /// used otherwise.
    pub fn try_from_value(value: OwnedJsValue) -> (r: Result<JsModule, (ValueError, OwnedJsValue)>)
        ensures
            r is Ok <==> value.spec_inner().tag is Module,
            r matches Ok(m) ==> m.spec_value() == value,
            r matches Err(e) ==> e == (ValueError::UnexpectedType, value),
    {
        if !value.is_module() {
            Err((ValueError::UnexpectedType, value))
        } else {
            Ok(JsModule { value })
        }
    }

    /// The module as a value again.
    pub fn into_value(self) -> (v: OwnedJsValue)
        ensures
            v == self.spec_value(),
    {
        self.value
    }
}

/// What compiling gives: a function or a module.
#[derive(Debug, PartialEq, Eq)]
pub enum JsCompiledValue {
    Function(JsCompiledFunction),
    Module(JsModule),
}

} // verus!
