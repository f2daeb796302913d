//! What it means to read a value out of a store.

use super::js_value::JsValueView;
use crate::tag::JsTag;
use crate::value::heap::{HeapCell, Property};
use crate::value::raw::{Payload, RawJsValue};
use vstd::prelude::*;

verus! {

/// Why a value of a store cannot be read as a host value.
pub enum DecodeFault {
    /// A container holds itself, directly or through others.
    Circular,
    /// A value of this kind has no host form.
    Unhandled(JsTag),
}

/// The host value that `v` stands for in a store with the cells
/// `cells`, read below the containers `path`, which are being read
/// already. A container that occurs in `path` is a cycle. `fuel` bounds
/// the depth; the number of cells is always enough.
pub open spec fn decode(cells: Seq<HeapCell>, v: RawJsValue, path: Seq<usize>, fuel: nat) -> Result<
    JsValueView,
    DecodeFault,
>
    decreases fuel, 0nat,
{
    match v.payload {
        Payload::Ptr(p) if p < cells.len() => match cells[p as int] {
            HeapCell::Text(s) => Ok(JsValueView::String(s@)),
            HeapCell::Symbol => Ok(JsValueView::Symbol),
            HeapCell::BigInt(b) => Ok(JsValueView::BigInt(b)),
            HeapCell::Module => Err(DecodeFault::Unhandled(JsTag::Module)),
            HeapCell::FunctionBytecode => Err(DecodeFault::Unhandled(JsTag::FunctionBytecode)),
            HeapCell::Function => Ok(JsValueView::Function(v)),
            HeapCell::Date(ms) => Ok(JsValueView::Date(ms)),
            HeapCell::Promise(_, _) => Ok(JsValueView::Object(Seq::empty())),
            HeapCell::Proxy(target) => if path.contains(p) || fuel == 0 {
                Err(DecodeFault::Circular)
            } else {
                decode(cells, target, path.push(p), (fuel - 1) as nat)
            },
            HeapCell::Array(items) => if path.contains(p) || fuel == 0 {
                Err(DecodeFault::Circular)
            } else {
                match decode_items(cells, items@, path.push(p), (fuel - 1) as nat) {
                    Ok(views) => Ok(JsValueView::Array(views)),
                    Err(e) => Err(e),
                }
            },
            HeapCell::Object(props) => if path.contains(p) || fuel == 0 {
                Err(DecodeFault::Circular)
            } else {
                match decode_props(cells, props@, path.push(p), (fuel - 1) as nat) {
                    Ok(views) => Ok(JsValueView::Object(views)),
                    Err(e) => Err(e),
                }
            },
        },
        Payload::Int(i) if v.tag is Int => Ok(JsValueView::Int(i)),
        Payload::Bool(b) if v.tag is Bool => Ok(JsValueView::Bool(b)),
        Payload::Float64(bits) if v.tag is Float64 => Ok(JsValueView::Float(bits)),
        _ => match v.tag {
            JsTag::Null => Ok(JsValueView::Null),
            JsTag::Undefined => Ok(JsValueView::Undefined),
            other => Err(DecodeFault::Unhandled(other)),
        },
    }
}

/// The host values of `items`, in order; the fault of the first that has one.
pub open spec fn decode_items(
    cells: Seq<HeapCell>,
    items: Seq<RawJsValue>,
    path: Seq<usize>,
    fuel: nat,
) -> Result<Seq<JsValueView>, DecodeFault>
    decreases fuel, items.len() + 1,
{
    if items.len() == 0 {
        Ok(Seq::empty())
    } else {
        match decode_items(cells, items.drop_last(), path, fuel) {
            Err(e) => Err(e),
            Ok(before) => match decode(cells, items.last(), path, fuel) {
                Err(e) => Err(e),
                Ok(view) => Ok(before.push(view)),
            },
        }
    }
}

/// The keys and host values of `props`, in order; the fault of the
/// first value that has one.
pub open spec fn decode_props(
    cells: Seq<HeapCell>,
    props: Seq<Property>,
    path: Seq<usize>,
    fuel: nat,
) -> Result<Seq<(Seq<char>, JsValueView)>, DecodeFault>
    decreases fuel, props.len() + 1,
{
    if props.len() == 0 {
        Ok(Seq::empty())
    } else {
        match decode_props(cells, props.drop_last(), path, fuel) {
            Err(e) => Err(e),
            Ok(before) => match decode(cells, props.last().value, path, fuel) {
                Err(e) => Err(e),
                Ok(view) => Ok(before.push((props.last().key@, view))),
            },
        }
    }
}

/// The host value that `v` stands for in a store with the cells `cells`.
pub open spec fn decode_value(cells: Seq<HeapCell>, v: RawJsValue) -> Result<
    JsValueView,
    DecodeFault,
> {
    decode(cells, v, Seq::empty(), cells.len())
}

} // verus!

verus! {

/// The cell that `v` points to, if `v` has the tag `tag` and points
/// into the store.
pub open spec fn cell_of(cells: Seq<HeapCell>, v: RawJsValue, tag: JsTag) -> Option<HeapCell> {
    match v.payload {
        Payload::Ptr(p) if p < cells.len() && v.tag == tag => Some(cells[p as int]),
        _ => None,
    }
}

/// In a store with the cells `cells`, the value `v` is the host value
/// `view`, written out as a tree: each array and each object in its
/// own cell, with the elements and properties in order.
pub open spec fn represents(cells: Seq<HeapCell>, v: RawJsValue, view: JsValueView) -> bool
    decreases view,
{
    match view {
        JsValueView::Undefined => v == RawJsValue::spec_undefined(),
        JsValueView::Null => v == RawJsValue::spec_null(),
        JsValueView::Bool(b) => v == (RawJsValue { tag: JsTag::Bool, payload: Payload::Bool(b) }),
        JsValueView::Int(i) => v == (RawJsValue { tag: JsTag::Int, payload: Payload::Int(i) }),
        JsValueView::Float(bits) => v == (RawJsValue {
            tag: JsTag::Float64,
            payload: Payload::Float64(bits),
        }),
        JsValueView::String(s) => cell_of(cells, v, JsTag::String) matches Some(HeapCell::Text(t))
            && t@ == s,
        JsValueView::Symbol => false,
        JsValueView::BigInt(b) => cell_of(cells, v, JsTag::BigInt) matches Some(HeapCell::BigInt(c))
            && c == b,
        JsValueView::Date(ms) => cell_of(cells, v, JsTag::Object) matches Some(HeapCell::Date(m))
            && m == ms,
        JsValueView::Function(f) => v == f && cell_of(cells, v, JsTag::Object) == Some(
            HeapCell::Function,
        ),
        JsValueView::Array(items) => cell_of(cells, v, JsTag::Object) matches Some(
            HeapCell::Array(raws),
        ) && raws@.len() == items.len() && forall|i: int|
            0 <= i < items.len() ==> represents(cells, raws@[i], #[trigger] items[i]),
        JsValueView::Object(props) => cell_of(cells, v, JsTag::Object) matches Some(
            HeapCell::Object(ps),
        ) && ps@.len() == props.len() && forall|i: int|
            0 <= i < props.len() ==> ps@[i].key@ == (#[trigger] props[i]).0 && represents(
                cells,
                ps@[i].value,
                props[i].1,
            ),
    }
}

/// How deep the containers of a host value are nested.
pub open spec fn height(view: JsValueView) -> nat
    decreases view,
{
    match view {
        JsValueView::Array(items) => 1 + max_height(items),
        JsValueView::Object(props) => 1 + max_prop_height(props),
        _ => 0,
    }
}

/// The greatest height among `items`.
pub open spec fn max_height(items: Seq<JsValueView>) -> nat
    decreases items,
{
    if items.len() == 0 {
        0
    } else {
        let rest = max_height(items.drop_last());
        let last = height(items.last());
        if last > rest {
            last
        } else {
            rest
        }
    }
}

/// The greatest height among the values of `props`.
pub open spec fn max_prop_height(props: Seq<(Seq<char>, JsValueView)>) -> nat
    decreases props,
{
    if props.len() == 0 {
        0
    } else {
        let rest = max_prop_height(props.drop_last());
        let last = height(props.last().1);
        if last > rest {
            last
        } else {
            rest
        }
    }
}

} // verus!

verus! {

/// The host value can be written into a store with the cells `cells`:
/// no symbol occurs in it, no object has a key twice, and each
/// function in it is a function of that store.
pub open spec fn encodable_in(view: JsValueView, cells: Seq<HeapCell>) -> bool
    decreases view,
{
    match view {
        JsValueView::Symbol => false,
        JsValueView::Function(f) => f.wf() && cell_of(cells, f, JsTag::Object) == Some(
            HeapCell::Function,
        ),
        JsValueView::Array(items) => forall|i: int|
            0 <= i < items.len() ==> encodable_in(#[trigger] items[i], cells),
        JsValueView::Object(props) => {
            &&& forall|i: int| 0 <= i < props.len() ==> encodable_in((#[trigger] props[i]).1, cells)
            &&& crate::convert::js_value::keys_of(props).no_duplicates()
        },
        _ => true,
    }
}

/// Some key of some object in the host value holds a zero character.
pub open spec fn has_zero_key(view: JsValueView) -> bool
    decreases view,
{
    match view {
        JsValueView::Array(items) => exists|i: int|
            0 <= i < items.len() && has_zero_key(#[trigger] items[i]),
        JsValueView::Object(props) => exists|i: int|
            0 <= i < props.len() && (crate::utils::has_zero((#[trigger] props[i]).0)
                || has_zero_key(props[i].1)),
        _ => false,
    }
}

} // verus!
