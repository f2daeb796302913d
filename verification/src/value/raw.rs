//! The plain copy of an engine value: a tag and what the tag says it holds.

use crate::tag::JsTag;
use vstd::prelude::*;

verus! {

/// What an engine value carries besides its tag.
#[derive(Clone, Copy, Debug, PartialEq, Eq, Structural)]
pub enum Payload {
    /// Nothing: the tag says it all.
    Empty,
    /// A boolean.
    Bool(bool),
    /// A 32-bit integer.
    Int(i32),
    /// The bits of a 64-bit float.
    Float64(u64),
    /// The place in the heap where the value lives.
    Ptr(usize),
}

/// An engine value: a tag and a payload. It owns nothing; who may
/// release what it points to is tracked by `OwnedJsValue`.
#[derive(Clone, Copy, Debug, PartialEq, Eq, Structural)]
pub struct RawJsValue {
    pub tag: JsTag,
    pub payload: Payload,
}

impl RawJsValue {
    /// The tag decides which payload is valid.
    pub open spec fn wf(&self) -> bool {
        match self.tag {
            JsTag::Int | JsTag::CatchOffset => self.payload is Int,
            JsTag::Bool => self.payload is Bool,
            JsTag::Float64 => self.payload is Float64,
            JsTag::Null | JsTag::Undefined | JsTag::Uninitialized | JsTag::Exception =>
                self.payload is Empty,
            JsTag::BigInt
            | JsTag::Symbol
            | JsTag::String
            | JsTag::Module
            | JsTag::FunctionBytecode
            | JsTag::Object => self.payload is Ptr,
        }
    }

    /// Whether the tag and the payload fit together.
    pub fn is_wf(&self) -> (r: bool)
        ensures
            r == self.wf(),
    {
        match self.tag {
            JsTag::Int | JsTag::CatchOffset => matches!(self.payload, Payload::Int(_)),
            JsTag::Bool => matches!(self.payload, Payload::Bool(_)),
            JsTag::Float64 => matches!(self.payload, Payload::Float64(_)),
            JsTag::Null | JsTag::Undefined | JsTag::Uninitialized | JsTag::Exception => matches!(
                self.payload,
                Payload::Empty
            ),
            JsTag::BigInt
            | JsTag::Symbol
            | JsTag::String
            | JsTag::Module
            | JsTag::FunctionBytecode
            | JsTag::Object => matches!(self.payload, Payload::Ptr(_)),
        }
    }

    /// Two values are the same value when their payloads are: for heap
    /// values that is identity, not likeness of contents.
    pub open spec fn same(&self, other: &RawJsValue) -> bool {
        self.payload == other.payload
    }

    /// Whether the two values are the same value.
    pub fn is_same(&self, other: &RawJsValue) -> (r: bool)
        ensures
            r == self.same(other),
    {
        self.payload == other.payload
    }

    /// The place in the heap that the value points to, if it points to one.
    pub open spec fn target(&self) -> Option<usize> {
        match self.payload {
            Payload::Ptr(p) => Some(p),
            _ => None,
        }
    }

    /// The `undefined` value.
    pub open spec fn spec_undefined() -> RawJsValue {
        RawJsValue { tag: JsTag::Undefined, payload: Payload::Empty }
    }

    /// The `null` value.
    pub open spec fn spec_null() -> RawJsValue {
        RawJsValue { tag: JsTag::Null, payload: Payload::Empty }
    }

    /// The marker that the engine returns when a call has thrown.
    pub open spec fn spec_exception() -> RawJsValue {
        RawJsValue { tag: JsTag::Exception, payload: Payload::Empty }
    }

    /// The marker that the engine returns when a call has thrown.
    #[verifier::when_used_as_spec(spec_exception)]
    pub fn exception() -> (r: RawJsValue)
        ensures
            r == RawJsValue::spec_exception(),
            r.wf(),
    {
        RawJsValue { tag: JsTag::Exception, payload: Payload::Empty }
    }
}

} // verus!
