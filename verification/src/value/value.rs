//! Owned values: who may release a reference, and when.

use super::raw::{Payload, RawJsValue};
use crate::errors::ValueError;
use crate::tag::JsTag;
use vstd::prelude::*;

verus! {

/// What the engine must be asked to do to a reference count.
#[derive(Clone, Copy, Debug, PartialEq, Eq, Structural)]
pub enum RefOp {
    /// Count one reference more to the value.
    Dup(RawJsValue),
    /// Count one reference less to the value.
    Free(RawJsValue),
}

/// The reference counts of the engine's heap, by place.
pub type RefCounts = spec_fn(usize) -> int;

impl RefOp {
    /// The counts after the engine has done what `self` asks. A value
    /// that is carried in itself has no count, and nothing changes.
    pub open spec fn apply(self, counts: RefCounts) -> RefCounts {
        match self {
            RefOp::Dup(v) => bump(counts, v, 1),
            RefOp::Free(v) => bump(counts, v, -1),
        }
    }
}

/// The counts `counts` with `by` added to the count of the place that
/// `v` points to, if `v` is counted by reference.
pub open spec fn bump(counts: RefCounts, v: RawJsValue, by: int) -> RefCounts {
    match v.payload {
        Payload::Ptr(p) if v.tag.has_ref_count() => (|q: usize|
            if q == p {
                counts(q) + by
            } else {
                counts(q)
            }),
        _ => counts,
    }
}

/// The counts after the engine has done `ops` in order.
pub open spec fn apply_all(ops: Seq<RefOp>, counts: RefCounts) -> RefCounts
    decreases ops.len(),
{
    if ops.len() == 0 {
        counts
    } else {
        apply_all(ops.drop_first(), ops[0].apply(counts))
    }
}

/// A value of the engine together with the duty to release it once.
///
/// Taking a value over with `own` or copying it with `duplicate` asks
/// for one reference more; `release` and `replace` ask for one less;
/// `new` and `extract` move the duty without touching the count.
#[derive(Debug, PartialEq, Eq)]
pub struct OwnedJsValue {
    context: usize,
    value: RawJsValue,
}

impl OwnedJsValue {
    /// The context that the value belongs to.
    pub closed spec fn spec_context(&self) -> usize {
        self.context
    }

    /// The value that is owned.
    pub closed spec fn spec_inner(&self) -> RawJsValue {
        self.value
    }

    /// The context that the value belongs to.
    #[verifier::when_used_as_spec(spec_context)]
    pub fn context(&self) -> (r: usize)
        ensures
            r == self.spec_context(),
    {
        self.context
    }

    /// Wraps `value`, which already carries the reference that is
    /// handed over: the count is not touched.
    pub fn new(context: usize, value: RawJsValue) -> (r: OwnedJsValue)
        ensures
            r.spec_context() == context,
            r.spec_inner() == value,
    {
        OwnedJsValue { context, value }
    }

    /// Wraps `value`, which someone else keeps too: the engine is
    /// asked for one reference more.
    pub fn own(context: usize, value: &RawJsValue) -> (r: (OwnedJsValue, RefOp))
        ensures
            r.0.spec_context() == context,
            r.0.spec_inner() == *value,
            r.1 == RefOp::Dup(*value),
    {
        (OwnedJsValue { context, value: *value }, RefOp::Dup(*value))
    }

    /// A second owner of the same value: the engine is asked for one
    /// reference more.
    pub fn duplicate(&self) -> (r: (OwnedJsValue, RefOp))
        ensures
            r.0 == *self,
            r.1 == RefOp::Dup(self.spec_inner()),
    {
        (OwnedJsValue { context: self.context, value: self.value }, RefOp::Dup(self.value))
    }

    /// Gives the value up: the engine is asked for one reference less.
    pub fn release(self) -> (op: RefOp)
        ensures
            op == RefOp::Free(self.spec_inner()),
    {
        RefOp::Free(self.value)
    }

    /// The tag of the value.
    pub fn tag(&self) -> (t: JsTag)
        ensures
            t == self.spec_inner().tag,
    {
        self.value.tag
    }

    /// The value, still owned by `self`.
    #[verifier::when_used_as_spec(spec_inner)]
    pub fn as_inner(&self) -> (r: RawJsValue)
        ensures
            r == self.spec_inner(),
    {
        self.value
    }

    /// Hands the value out together with the duty to release it: the
    /// count is not touched.
    pub fn extract(self) -> (r: RawJsValue)
        ensures
            r == self.spec_inner(),
    {
        self.value
    }

    /// Lets go of the value held so far, for which the engine is asked
    /// for one reference less, and takes `new` over as `new` does.
    pub fn replace(&mut self, new: RawJsValue) -> (op: RefOp)
        ensures
            op == RefOp::Free(old(self).spec_inner()),
            final(self).spec_inner() == new,
            final(self).spec_context() == old(self).spec_context(),
    {
        let op = RefOp::Free(self.value);
        self.value = new;
        op
    }

    /// Whether both own the same value: identity, not likeness.
    pub fn is_same(&self, other: &OwnedJsValue) -> (r: bool)
        ensures
            r == self.spec_inner().same(&other.spec_inner()),
    {
        self.value.is_same(&other.value)
    }

    /// Check if this value is `null`.
    pub fn is_null(&self) -> (r: bool)
        ensures
            r == (self.spec_inner().tag is Null),
    {
        self.tag().is_null()
    }

    /// Check if this value is `undefined`.
    pub fn is_undefined(&self) -> (r: bool)
        ensures
            r == (self.spec_inner().tag is Undefined),
    {
        self.tag() == JsTag::Undefined
    }

    /// Check if this value is a boolean.
    pub fn is_bool(&self) -> (r: bool)
        ensures
            r == (self.spec_inner().tag is Bool),
    {
        self.tag() == JsTag::Bool
    }

    /// Check if this value is a 32-bit integer.
    pub fn is_int(&self) -> (r: bool)
        ensures
            r == (self.spec_inner().tag is Int),
    {
        self.tag() == JsTag::Int
    }

    /// Check if this value is a float.
    pub fn is_float(&self) -> (r: bool)
        ensures
            r == (self.spec_inner().tag is Float64),
    {
        self.tag() == JsTag::Float64
    }

    /// Check if this value is the marker of a thrown exception.
    pub fn is_exception(&self) -> (r: bool)
        ensures
            r == (self.spec_inner().tag is Exception),
    {
        self.tag() == JsTag::Exception
    }

    /// Check if this value is an object.
    pub fn is_object(&self) -> (r: bool)
        ensures
            r == (self.spec_inner().tag is Object),
    {
        self.tag() == JsTag::Object
    }

    /// Check if this value is a module.
    pub fn is_module(&self) -> (r: bool)
        ensures
            r == (self.spec_inner().tag is Module),
    {
        self.tag().is_module()
    }

    /// Check if this value is a string.
    pub fn is_string(&self) -> (r: bool)
        ensures
            r == (self.spec_inner().tag is String),
    {
        self.tag() == JsTag::String
    }

    /// Check if this value is a compiled function.
    pub fn is_compiled_function(&self) -> (r: bool)
        ensures
            r == (self.spec_inner().tag is FunctionBytecode),
    {
        self.tag() == JsTag::FunctionBytecode
    }

    /// Succeeds exactly when the value has the tag `expected`.
    pub fn check_tag(&self, expected: JsTag) -> (r: Result<(), ValueError>)
        ensures
            r is Ok <==> self.spec_inner().tag == expected,
            r matches Err(e) ==> e == ValueError::UnexpectedType,
    {
        if self.tag() == expected {
            Ok(())
        } else {
            Err(ValueError::UnexpectedType)
        }
    }

    /// The boolean that the value holds.
    pub fn to_bool(&self) -> (r: Result<bool, ValueError>)
        ensures
            r == match (self.spec_inner().tag, self.spec_inner().payload) {
                (JsTag::Bool, Payload::Bool(b)) => Ok::<bool, ValueError>(b),
                (JsTag::Bool, _) => Ok(false),
                _ => Err(ValueError::UnexpectedType),
            },
    {
        if self.tag() != JsTag::Bool {
            return Err(ValueError::UnexpectedType);
        }
        match self.value.payload {
            Payload::Bool(b) => Ok(b),
            _ => Ok(false),
        }
    }

    /// The integer that the value holds.
    pub fn to_int(&self) -> (r: Result<i32, ValueError>)
        ensures
            r == match (self.spec_inner().tag, self.spec_inner().payload) {
                (JsTag::Int, Payload::Int(i)) => Ok::<i32, ValueError>(i),
                (JsTag::Int, _) => Ok(0i32),
                _ => Err(ValueError::UnexpectedType),
            },
    {
        if self.tag() != JsTag::Int {
            return Err(ValueError::UnexpectedType);
        }
        match self.value.payload {
            Payload::Int(i) => Ok(i),
            _ => Ok(0),
        }
    }

    /// The bits of the float that the value holds.
    pub fn to_float(&self) -> (r: Result<u64, ValueError>)
        ensures
            r == match (self.spec_inner().tag, self.spec_inner().payload) {
                (JsTag::Float64, Payload::Float64(bits)) => Ok::<u64, ValueError>(bits),
                (JsTag::Float64, _) => Ok(0u64),
                _ => Err(ValueError::UnexpectedType),
            },
    {
        if self.tag() != JsTag::Float64 {
            return Err(ValueError::UnexpectedType);
        }
        match self.value.payload {
            Payload::Float64(bits) => Ok(bits),
            _ => Ok(0),
        }
    }
}

/// Taking a value over and giving it up at once leaves every count as it was.
pub proof fn lemma_own_then_release(counts: RefCounts, value: RawJsValue, at: usize)
    ensures
        RefOp::Free(value).apply(RefOp::Dup(value).apply(counts))(at) == counts(at),
{
}

/// A value that is carried in itself has no count: neither asking
/// for a reference more nor for one less changes any count.
pub proof fn lemma_scalars_are_not_counted(counts: RefCounts, value: RawJsValue, at: usize)
    requires
        !value.tag.has_ref_count(),
    ensures
        RefOp::Dup(value).apply(counts)(at) == counts(at),
        RefOp::Free(value).apply(counts)(at) == counts(at),
{
}

/// Copying an owned value raises the count of its place by one, and
/// that of no other place.
pub proof fn lemma_duplicate_counts_one(counts: RefCounts, value: RawJsValue, at: usize)
    requires
        value.tag.has_ref_count(),
        value.wf(),
    ensures
        RefOp::Dup(value).apply(counts)(at) == counts(at) + (if value.target() == Some(at) {
            1int
        } else {
            0int
        }),
{
}

} // verus!
