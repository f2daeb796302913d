//! Writing structured data as host values.
//!
//! A variant of an enum is written with its name on the outside: a
//! variant without fields as the name alone, every other variant
//! as an object with the name as its one key.

use super::error::Error;
use crate::convert::de::{deserialize_value, reads_as};
use crate::convert::js_value::{JsValue, JsValueView};
use crate::convert::model::{decode_value, encodable_in, has_zero_key};
use crate::convert::ser::{serialize_value, written};
use crate::errors::ValueError;
use crate::value::heap::{Heap, HeapCell};
use crate::value::raw::RawJsValue;
use vstd::prelude::*;
use vstd::string::StringExecFns;

verus! {

/// The unit, and a struct without fields: `null`.
pub fn serialize_unit() -> (v: JsValue)
    ensures
        v@ == JsValueView::Null,
{
    JsValue::Null
}

/// An absent value: `null`.
pub fn serialize_none() -> (v: JsValue)
    ensures
        v@ == JsValueView::Null,
{
    JsValue::Null
}

/// A present value: the value itself.
pub fn serialize_some(value: JsValue) -> (v: JsValue)
    ensures
        v == value,
{
    value
}

/// A whole number: an integer of the engine where it fits 32 bits.
/// A number that does not is handed back, for the caller to write
/// it as a float.
pub fn serialize_integer(value: i128) -> (r: Result<JsValue, i128>)
    ensures
        r == (if i32::MIN <= value <= i32::MAX {
            Ok::<JsValue, i128>(JsValue::Int(value as i32))
        } else {
            Err(value)
        }),
{
    if value >= i32::MIN as i128 && value <= i32::MAX as i128 {
        Ok(JsValue::Int(value as i32))
    } else {
        Err(value)
    }
}

/// A variant without fields: its name.
pub fn serialize_unit_variant(variant: &str) -> (v: JsValue)
    ensures
        v@ == JsValueView::String(variant@),
{
    JsValue::String(String::from_str(variant))
}

/// A variant that wraps one value: an object with the name of the
/// variant as its one key, and the value under it.
pub fn serialize_newtype_variant(variant: &str, value: JsValue) -> (v: JsValue)
    ensures
        v@ == JsValueView::Object(seq![(variant@, value@)]),
{
    let mut props: Vec<(String, JsValue)> = Vec::new();
    props.push((String::from_str(variant), value));
    proof {
        crate::convert::js_value::lemma_view_object(props);
        assert(crate::convert::js_value::prop_views_of(props@) =~= seq![(variant@, value@)]);
    }
    JsValue::Object(props)
}

/// A variant with fields in order: an object with the name of the
/// variant as its one key, and the array of the fields under it.
/// Without fields that is the empty array.
pub fn serialize_tuple_variant(variant: &str, fields: Vec<JsValue>) -> (v: JsValue)
    ensures
        v@ == JsValueView::Object(
            seq![(variant@, JsValueView::Array(crate::convert::js_value::views_of(fields@)))],
        ),
{
    proof {
        crate::convert::js_value::lemma_view_array(fields);
    }
    serialize_newtype_variant(variant, JsValue::Array(fields))
}

/// A variant with named fields: an object with the name of the
/// variant as its one key, and the object of the fields under it.
pub fn serialize_struct_variant(variant: &str, fields: Vec<(String, JsValue)>) -> (v: JsValue)
    ensures
        v@ == JsValueView::Object(
            seq![
                (variant@, JsValueView::Object(crate::convert::js_value::prop_views_of(fields@))),
            ],
        ),
{
    proof {
        crate::convert::js_value::lemma_view_object(fields);
    }
    serialize_newtype_variant(variant, JsValue::Object(fields))
}

/// Writes `value` into `heap`, as `serialize_value` does.
pub fn to_js(heap: &mut Heap, value: &JsValue) -> (r: Result<RawJsValue, Error>)
    requires
        old(heap).wf(),
        encodable_in(value@, old(heap)@),
    ensures
        final(heap).wf(),
        match r {
            Ok(v) => written(old(heap)@, final(heap)@, Ok(v), value@),
            Err(e) => e matches Error::ValueError(inner) && written(
                old(heap)@,
                final(heap)@,
                Err(inner),
                value@,
            ),
        },
{
    match serialize_value(heap, value) {
        Ok(v) => Ok(v),
        Err(e) => Err(Error::ValueError(e)),
    }
}

/// Reads the host value that `value` stands for in `heap`, as
/// `deserialize_value` does.
pub fn from_js(heap: &Heap, value: &RawJsValue) -> (r: Result<JsValue, Error>)
    ensures
        reads_as(r, decode_value(heap@, *value)),
{
    deserialize_value(heap, value)
}

} // verus!
