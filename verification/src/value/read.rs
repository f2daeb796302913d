//! Reading owned values with the help of a store.

use super::array::{element_in, elements_in, OwnedJsArray};
use super::bigint::JsBigInt;
use super::compiled_function::JsCompiledFunction;
use super::date::{chrono_accepts_millis, to_date, Timestamp};
use super::function::JsFunction;
use super::heap::{is_array_in, is_function_in, is_promise_in, is_proxy_in, target_cell, Heap, HeapCell};
use super::module::JsModule;
use super::object::{key_index, property_in, OwnedJsObject};
use super::promise::OwnedJsPromise;
use super::raw::RawJsValue;
use super::value::{OwnedJsValue, RefOp};
use crate::errors::{ExecutionError, ValueError};
use vstd::prelude::*;
use vstd::string::StringExecFns;

verus! {

/// What `to_string` gives for the value `v`.
pub open spec fn text_read(cells: Seq<HeapCell>, v: RawJsValue, r: Result<String, ValueError>) -> bool {
    if !(v.tag is String) {
        r matches Err(ValueError::UnexpectedType)
    } else {
        match target_cell(cells, v) {
            Some(HeapCell::Text(t)) => r matches Ok(s) && s@ == t@,
            _ => r matches Err(ValueError::Internal(m)) && m@
                == "Could not convert string: got a null pointer"@,
        }
    }
}

impl OwnedJsValue {
    /// Check if this value is an array.
    pub fn is_array(&self, heap: &Heap) -> (r: bool)
        ensures
            r == is_array_in(heap@, self.spec_inner()),
    {
        matches!(heap.target(&self.as_inner()), Some(HeapCell::Array(_)))
    }

    /// Check if this value can be called.
    pub fn is_function(&self, heap: &Heap) -> (r: bool)
        ensures
            r == is_function_in(heap@, self.spec_inner()),
    {
        matches!(heap.target(&self.as_inner()), Some(HeapCell::Function))
    }

    /// Check if this value is a promise of the engine's own making.
    pub fn is_promise(&self, heap: &Heap) -> (r: bool)
        ensures
            r == is_promise_in(heap@, self.spec_inner()),
    {
        matches!(heap.target(&self.as_inner()), Some(HeapCell::Promise(_, _)))
    }

    /// Check if this value is a proxy.
    pub fn is_proxy(&self, heap: &Heap) -> (r: bool)
        ensures
            r == is_proxy_in(heap@, self.spec_inner()),
    {
        matches!(heap.target(&self.as_inner()), Some(HeapCell::Proxy(_)))
    }

    /// The text of this value, which must be a string.
    pub fn to_string(&self, heap: &Heap) -> (r: Result<String, ValueError>)
        ensures
            text_read(heap@, self.spec_inner(), r),
    {
        if !self.is_string() {
            return Err(ValueError::UnexpectedType);
        }
        match heap.target(&self.as_inner()) {
            Some(HeapCell::Text(t)) => Ok(t.clone()),
            _ => Err(
                ValueError::Internal(
                    String::from_str("Could not convert string: got a null pointer"),
                ),
            ),
        }
    }

    /// This value as an array, owned a second time: the engine is
    /// asked for one reference more, which is released again where
    /// the value is no array.
    pub fn to_array(&self, heap: &Heap) -> (r: (Result<OwnedJsArray, ValueError>, Vec<RefOp>))
        ensures
            r.0 is Ok <==> is_array_in(heap@, self.spec_inner()),
            r.0 matches Ok(a) ==> a.spec_value() == *self,
            r.0 matches Err(e) ==> e == ValueError::UnexpectedType,
            r.1@ == (if r.0 is Ok {
                seq![RefOp::Dup(self.spec_inner())]
            } else {
                seq![RefOp::Dup(self.spec_inner()), RefOp::Free(self.spec_inner())]
            }),
    {
        let (copy, dup) = self.duplicate();
        let mut ops: Vec<RefOp> = Vec::new();
        ops.push(dup);
        if !copy.is_array(heap) {
            ops.push(copy.release());
            assert(ops@ =~= seq![RefOp::Dup(self.spec_inner()), RefOp::Free(self.spec_inner())]);
            (Err(ValueError::UnexpectedType), ops)
        } else {
            assert(ops@ =~= seq![RefOp::Dup(self.spec_inner())]);
            match OwnedJsArray::try_from_value(heap, copy) {
                Ok(a) => (Ok(a), ops),
                Err((e, _)) => (Err(e), ops),
            }
        }
    }

    /// Try to convert this value into an object.
    pub fn try_into_object(self) -> (r: Result<OwnedJsObject, (ValueError, OwnedJsValue)>)
        ensures
            r is Ok <==> self.spec_inner().tag is Object,
            r matches Ok(o) ==> o.spec_value() == self,
            r matches Err(e) ==> e == (ValueError::UnexpectedType, self),
    {
        OwnedJsObject::try_from_value(self)
    }

    /// Try to convert this value into a function.
    pub fn try_into_function(self, heap: &Heap) -> (r: Result<
        JsFunction,
        (ValueError, OwnedJsValue),
    >)
        ensures
            r is Ok <==> is_function_in(heap@, self.spec_inner()),
            r matches Ok(f) ==> f.spec_value() == self,
            r matches Err(e) ==> e == (ValueError::UnexpectedType, self),
    {
        JsFunction::try_from_value(heap, self)
    }

    /// Try to convert this value into a promise.
    pub fn try_into_promise(self, heap: &Heap) -> (r: Result<
        OwnedJsPromise,
        (ValueError, OwnedJsValue),
    >)
        ensures
            r is Ok <==> is_promise_in(heap@, self.spec_inner()),
            r matches Ok(p) ==> p.spec_value() == self,
            r matches Err(e) ==> e == (ValueError::UnexpectedType, self),
    {
        OwnedJsPromise::try_from_value(heap, self)
    }

    /// Try to convert this value into a compiled function.
    pub fn try_into_compiled_function(self) -> (r: Result<
        JsCompiledFunction,
        (ValueError, OwnedJsValue),
    >)
        ensures
            r is Ok <==> self.spec_inner().tag is FunctionBytecode,
            r matches Ok(f) ==> f.spec_value() == self,
            r matches Err(e) ==> e == (ValueError::UnexpectedType, self),
    {
        JsCompiledFunction::try_from_value(self)
    }

    /// Try to convert this value into a module.
    pub fn try_into_module(self) -> (r: Result<JsModule, (ValueError, OwnedJsValue)>)
        ensures
            r is Ok <==> self.spec_inner().tag is Module,
            r matches Ok(m) ==> m.spec_value() == self,
            r matches Err(e) ==> e == (ValueError::UnexpectedType, self),
    {
        JsModule::try_from_value(self)
    }

    /// The instant that this value stands for as a date, in
    /// milliseconds since the epoch. A value that is no date is of an
    /// unexpected type; `None` says that the instant is one that
    /// chrono has no date for.
    pub fn to_date(&self, heap: &Heap) -> (r: Option<Result<i64, ValueError>>)
        ensures
            match target_cell(heap@, self.spec_inner()) {
                Some(HeapCell::Date(ms)) => if chrono_accepts_millis(ms) {
                    r == Some(Ok::<i64, ValueError>(ms))
                } else {
                    r is None
                },
                _ => r == Some(Err::<i64, ValueError>(ValueError::UnexpectedType)),
            },
    {
        match heap.target(&self.as_inner()) {
            Some(HeapCell::Date(ms)) => to_date(true, Timestamp::Float(*ms)),
            _ => to_date(false, Timestamp::Int(0)),
        }
    }

    /// The big integer that this value is.
    pub fn to_bigint(&self, heap: &Heap) -> (r: Result<JsBigInt, ValueError>)
        ensures
            match target_cell(heap@, self.spec_inner()) {
                Some(HeapCell::BigInt(b)) => r == Ok::<JsBigInt, ValueError>(b),
                _ => r == Err::<JsBigInt, ValueError>(ValueError::UnexpectedType),
            },
    {
        match heap.target(&self.as_inner()) {
            Some(HeapCell::BigInt(b)) => Ok(b.duplicate()),
            _ => Err(ValueError::UnexpectedType),
        }
    }

    /// The text of this value as script code would print it: its own
    /// text where it is a string, else the text of `converted`, which
    /// is what the engine made of the value when asked to turn it
    /// into a string. That must be a string.
    pub fn js_to_string(&self, heap: &Heap, converted: &OwnedJsValue) -> (r: Result<
        String,
        ExecutionError,
    >)
        ensures
            if self.spec_inner().tag is String {
                match r {
                    Ok(s) => text_read(heap@, self.spec_inner(), Ok(s)),
                    Err(ExecutionError::Conversion(e)) => text_read(
                        heap@,
                        self.spec_inner(),
                        Err(e),
                    ),
                    Err(_) => false,
                }
            } else if !(converted.spec_inner().tag is String) {
                r matches Err(ExecutionError::Internal(m)) && m@
                    == "Could not convert value to string"@
            } else {
                match r {
                    Ok(s) => text_read(heap@, converted.spec_inner(), Ok(s)),
                    Err(ExecutionError::Conversion(e)) => text_read(
                        heap@,
                        converted.spec_inner(),
                        Err(e),
                    ),
                    Err(_) => false,
                }
            },
    {
        if self.is_string() {
            match self.to_string(heap) {
                Ok(s) => Ok(s),
                Err(e) => Err(ExecutionError::Conversion(e)),
            }
        } else {
            if !converted.is_string() {
                return Err(
                    ExecutionError::Internal(String::from_str("Could not convert value to string")),
                );
            }
            match converted.to_string(heap) {
                Ok(s) => Ok(s),
                Err(e) => Err(ExecutionError::Conversion(e)),
            }
        }
    }

    /// The text that the engine made of a value when asked to write
    /// it as JSON: `stringified` must be a string.
    pub fn to_json_string(heap: &Heap, stringified: &OwnedJsValue) -> (r: Result<
        String,
        ExecutionError,
    >)
        ensures
            if !(stringified.spec_inner().tag is String) {
                r matches Err(ExecutionError::Internal(m)) && m@
                    == "Could not convert value to string"@
            } else {
                match r {
                    Ok(s) => text_read(heap@, stringified.spec_inner(), Ok(s)),
                    Err(ExecutionError::Conversion(e)) => text_read(
                        heap@,
                        stringified.spec_inner(),
                        Err(e),
                    ),
                    Err(_) => false,
                }
            },
    {
        if !stringified.is_string() {
            return Err(
                ExecutionError::Internal(String::from_str("Could not convert value to string")),
            );
        }
        match stringified.to_string(heap) {
            Ok(s) => Ok(s),
            Err(e) => Err(ExecutionError::Conversion(e)),
        }
    }
}

/// The elements of `items` that are not `undefined`, in order.
pub open spec fn defined(items: Seq<RawJsValue>) -> Seq<RawJsValue> {
    items.filter(|v: RawJsValue| !(v.tag is Undefined))
}

/// The elements of the array `value` that are not `undefined`, in
/// order, each to be converted on its own.
///
/// A value that is no array is an error, and so is an array with an
/// element whose reading threw.
pub fn array_items(heap: &Heap, value: &OwnedJsValue) -> (r: Result<Vec<RawJsValue>, ValueError>)
    ensures
        if !is_array_in(heap@, value.spec_inner()) {
            r matches Err(ValueError::UnexpectedType)
        } else if exists|i: int|
            0 <= i < elements_in(heap@, value.spec_inner()).len() && (#[trigger] elements_in(
                heap@,
                value.spec_inner(),
            )[i]).tag is Exception {
            r matches Err(ValueError::Internal(m)) && m@ == "Could not build array"@
        } else {
            r matches Ok(items) && items@ == defined(elements_in(heap@, value.spec_inner()))
        },
{
    match heap.target(&value.as_inner()) {
        Some(HeapCell::Array(items)) => {
            let mut ret: Vec<RawJsValue> = Vec::new();
            let mut i: usize = 0;
            assert(items@.subrange(0, 0) =~= Seq::<RawJsValue>::empty());
            assert(defined(Seq::<RawJsValue>::empty()) =~= Seq::<RawJsValue>::empty()) by {
                reveal_with_fuel(Seq::<_>::filter, 2);
            }
            while i < items.len()
                invariant
                    i <= items.len(),
                    ret@ == defined(items@.subrange(0, i as int)),
                    is_array_in(heap@, value.spec_inner()),
                    items@ == elements_in(heap@, value.spec_inner()),
                    forall|k: int| 0 <= k < i ==> !((#[trigger] items@[k]).tag is Exception),
                decreases items.len() - i,
            {
                let item = items[i];
                if item.tag.is_exception() {
                    assert(elements_in(heap@, value.spec_inner())[i as int].tag is Exception);
                    return Err(ValueError::Internal(String::from_str("Could not build array")));
                }
                proof {
                    let upto = items@.subrange(0, i + 1);
                    let before = items@.subrange(0, i as int);
                    assert(upto.drop_last() =~= before);
                    assert(upto.last() == item);
                    reveal_with_fuel(Seq::<_>::filter, 2);
                }
                if !item.tag.is_undefined() {
                    ret.push(item);
                }
                i += 1;
            }
            assert(items@.subrange(0, i as int) =~= items@);
            Ok(ret)
        },
        _ => Err(ValueError::UnexpectedType),
    }
}

/// The properties of `props` whose value is not `undefined`, in order.
pub open spec fn defined_props(props: Seq<crate::value::heap::Property>) -> Seq<
    crate::value::heap::Property,
> {
    props.filter(|p: crate::value::heap::Property| !(p.value.tag is Undefined))
}

/// The properties of the object `value` whose value is not
/// `undefined`, in order, each value to be converted on its own.
///
/// A value that is no object is an error, and so is an object with
/// a property whose reading threw.
pub fn object_entries(heap: &Heap, value: &OwnedJsValue) -> (r: Result<
    Vec<(String, RawJsValue)>,
    ValueError,
>)
    ensures
        if !(value.spec_inner().tag is Object) {
            r matches Err(ValueError::UnexpectedType)
        } else {
            match target_cell(heap@, value.spec_inner()) {
                Some(HeapCell::Object(props)) => if exists|i: int|
                    0 <= i < props@.len() && (#[trigger] props@[i]).value.tag is Exception {
                    r matches Err(ValueError::Internal(m)) && m@ == "Could not get object property"@
                } else {
                    r matches Ok(entries) && entries@.len() == defined_props(props@).len()
                        && forall|k: int|
                        0 <= k < entries@.len() ==> (#[trigger] entries@[k]).0@ == defined_props(
                            props@,
                        )[k].key@ && entries@[k].1 == defined_props(props@)[k].value
                },
                _ => r matches Ok(entries) && entries@.len() == 0,
            }
        },
{
    if !value.is_object() {
        return Err(ValueError::UnexpectedType);
    }
    let mut ret: Vec<(String, RawJsValue)> = Vec::new();
    match heap.target(&value.as_inner()) {
        Some(HeapCell::Object(props)) => {
            let mut i: usize = 0;
            assert(props@.subrange(0, 0) =~= Seq::<crate::value::heap::Property>::empty());
            assert(defined_props(Seq::<crate::value::heap::Property>::empty()).len() == 0) by {
                reveal_with_fuel(Seq::<_>::filter, 2);
            }
            while i < props.len()
                invariant
                    i <= props.len(),
                    target_cell(heap@, value.spec_inner()) == Some(HeapCell::Object(*props)),
                    forall|k: int| 0 <= k < i ==> !((#[trigger] props@[k]).value.tag is Exception),
                    ret@.len() == defined_props(props@.subrange(0, i as int)).len(),
                    forall|k: int|
                        0 <= k < ret@.len() ==> (#[trigger] ret@[k]).0@ == defined_props(
                            props@.subrange(0, i as int),
                        )[k].key@ && ret@[k].1 == defined_props(props@.subrange(0, i as int))[k].value,
                decreases props.len() - i,
            {
                let v = props[i].value;
                if v.tag.is_exception() {
                    return Err(
                        ValueError::Internal(String::from_str("Could not get object property")),
                    );
                }
                proof {
                    let upto = props@.subrange(0, i + 1);
                    let before = props@.subrange(0, i as int);
                    assert(upto.drop_last() =~= before);
                    assert(upto.last() == props@[i as int]);
                    reveal_with_fuel(Seq::<_>::filter, 2);
                }
                if !v.tag.is_undefined() {
                    ret.push((props[i].key.clone(), v));
                }
                i += 1;
            }
            assert(props@.subrange(0, i as int) =~= props@);
            Ok(ret)
        },
        _ => Ok(ret),
    }
}

} // verus!
