//! Reading a host value out of a store.

use super::js_value::{prop_views_of, views_of, lemma_view_array, lemma_view_object, JsValue, JsValueView};
use super::model::{decode, decode_items, decode_props, decode_value, DecodeFault};
use crate::errors::ValueError;
use crate::serde::error::Error;
use crate::tag::JsTag;
use crate::value::heap::{Heap, HeapCell, Property};
use crate::value::raw::{Payload, RawJsValue};
use vstd::prelude::*;
use vstd::string::StringExecFns;

verus! {

/// The text of the error for a value of a kind that has no host form.
pub open spec fn unhandled_text(tag: JsTag) -> Seq<char> {
    "Unhandled JS_TAG value: "@ + tag.spec_name()
}

/// The result `r` says what the model result `m` says: the same host
/// value, or the error that stands for the same fault.
pub open spec fn reads_as(r: Result<JsValue, Error>, m: Result<JsValueView, DecodeFault>) -> bool {
    match m {
        Ok(view) => r matches Ok(v) && v@ == view,
        Err(DecodeFault::Circular) => r matches Err(Error::CircularReference),
        Err(DecodeFault::Unhandled(tag)) => r matches Err(
            Error::ValueError(ValueError::Internal(text)),
        ) && text@ == unhandled_text(tag),
    }
}

/// The result `r` says what the model result `m` says, for a list of values.
pub open spec fn items_read_as(
    r: Result<Vec<JsValue>, Error>,
    m: Result<Seq<JsValueView>, DecodeFault>,
) -> bool {
    match m {
        Ok(views) => r matches Ok(v) && views_of(v@) == views,
        Err(DecodeFault::Circular) => r matches Err(Error::CircularReference),
        Err(DecodeFault::Unhandled(tag)) => r matches Err(
            Error::ValueError(ValueError::Internal(text)),
        ) && text@ == unhandled_text(tag),
    }
}

/// The result `r` says what the model result `m` says, for a list of properties.
pub open spec fn props_read_as(
    r: Result<Vec<(String, JsValue)>, Error>,
    m: Result<Seq<(Seq<char>, JsValueView)>, DecodeFault>,
) -> bool {
    match m {
        Ok(views) => r matches Ok(v) && prop_views_of(v@) == views,
        Err(DecodeFault::Circular) => r matches Err(Error::CircularReference),
        Err(DecodeFault::Unhandled(tag)) => r matches Err(
            Error::ValueError(ValueError::Internal(text)),
        ) && text@ == unhandled_text(tag),
    }
}

/// The containers that are being read: each a place of the store, none twice.
pub open spec fn path_ok(path: Seq<usize>, cells: nat) -> bool {
    &&& path.no_duplicates()
    &&& forall|i: int| 0 <= i < path.len() ==> #[trigger] path[i] < cells
}

/// A path cannot be longer than the store has cells.
pub proof fn lemma_path_bound(path: Seq<usize>, cells: nat)
    requires
        path_ok(path, cells),
    ensures
        path.len() <= cells,
{
    let ints = path.map_values(|p: usize| p as int);
    assert(ints.no_duplicates()) by {
        assert forall|i: int, j: int| 0 <= i < ints.len() && 0 <= j < ints.len() && i != j implies ints[i]
            != ints[j] by {
            assert(path[i] != path[j]);
        }
    }
    ints.unique_seq_to_set();
    vstd::set_lib::lemma_int_range(0, cells as int);
    assert(ints.to_set().subset_of(vstd::set_lib::set_int_range(0, cells as int))) by {
        assert forall|x: int| ints.to_set().contains(x) implies vstd::set_lib::set_int_range(
            0,
            cells as int,
        ).contains(x) by {
            let i = choose|i: int| 0 <= i < ints.len() && ints[i] == x;
            assert(path[i] < cells);
        }
    }
    vstd::set_lib::lemma_len_subset(ints.to_set(), vstd::set_lib::set_int_range(0, cells as int));
}

/// Whether `place` occurs in `path`.
fn on_path(path: &Vec<usize>, place: usize) -> (r: bool)
    ensures
        r == path@.contains(place),
{
    let mut i: usize = 0;
    while i < path.len()
        invariant
            i <= path.len(),
            forall|k: int| 0 <= k < i ==> path@[k] != place,
        decreases path.len() - i,
    {
        if path[i] == place {
            return true;
        }
        i += 1;
    }
    false
}

/// The error for a value of a kind that has no host form.
fn unhandled(tag: JsTag) -> (e: Error)
    ensures
        e matches Error::ValueError(ValueError::Internal(text)) && text@ == unhandled_text(tag),
{
    Error::ValueError(
        ValueError::Internal(String::from_str("Unhandled JS_TAG value: ").concat(tag.name())),
    )
}

/// Reads the elements `items` of an array that lies on `path`.
pub fn deserialize_array(heap: &Heap, items: &Vec<RawJsValue>, path: &mut Vec<usize>) -> (r: Result<
    Vec<JsValue>,
    Error,
>)
    requires
        path_ok(old(path)@, heap@.len()),
    ensures
        final(path)@ == old(path)@,
        items_read_as(
            r,
            decode_items(heap@, items@, old(path)@, (heap@.len() - old(path)@.len()) as nat),
        ),
    decreases heap@.len() - old(path)@.len(), 1nat, items@.len(),
{
    let ghost fuel = (heap@.len() - path@.len()) as nat;
    let ghost start = path@;
    let mut out: Vec<JsValue> = Vec::new();
    let mut i: usize = 0;
    assert(items@.subrange(0, 0) =~= Seq::<RawJsValue>::empty());
    assert(views_of(out@) =~= Seq::<JsValueView>::empty());
    while i < items.len()
        invariant
            i <= items.len(),
            path@ == start,
            start == old(path)@,
            path_ok(start, heap@.len()),
            fuel == (heap@.len() - start.len()) as nat,
            decode_items(heap@, items@.subrange(0, i as int), start, fuel) == Ok::<
                Seq<JsValueView>,
                DecodeFault,
            >(views_of(out@)),
        decreases items.len() - i,
    {
        let ghost before = items@.subrange(0, i as int);
        let ghost upto = items@.subrange(0, i + 1);
        assert(upto.drop_last() =~= before);
        assert(upto.last() == items@[i as int]);
        let one = deserialize_at(heap, &items[i], path);
        match one {
            Ok(v) => {
                let ghost old_out = out@;
                out.push(v);
                assert(views_of(out@) =~= views_of(old_out).push(v@));
            },
            Err(e) => {
                proof {
                    lemma_items_fault_stays(heap@, items@, i + 1, start, fuel);
                }
                return Err(e);
            },
        }
        i += 1;
    }
    assert(items@.subrange(0, i as int) =~= items@);
    Ok(out)
}

/// Once a prefix of `items` has a fault, the whole list has that fault.
pub proof fn lemma_items_fault_stays(
    cells: Seq<HeapCell>,
    items: Seq<RawJsValue>,
    upto: int,
    path: Seq<usize>,
    fuel: nat,
)
    requires
        0 <= upto <= items.len(),
        decode_items(cells, items.subrange(0, upto), path, fuel) is Err,
    ensures
        decode_items(cells, items, path, fuel) == decode_items(
            cells,
            items.subrange(0, upto),
            path,
            fuel,
        ),
    decreases items.len() - upto,
{
    if upto == items.len() {
        assert(items.subrange(0, upto) =~= items);
    } else {
        let next = items.subrange(0, upto + 1);
        assert(next.drop_last() =~= items.subrange(0, upto));
        lemma_items_fault_stays(cells, items, upto + 1, path, fuel);
    }
}

/// Once a prefix of `props` has a fault, the whole list has that fault.
pub proof fn lemma_props_fault_stays(
    cells: Seq<HeapCell>,
    props: Seq<Property>,
    upto: int,
    path: Seq<usize>,
    fuel: nat,
)
    requires
        0 <= upto <= props.len(),
        decode_props(cells, props.subrange(0, upto), path, fuel) is Err,
    ensures
        decode_props(cells, props, path, fuel) == decode_props(
            cells,
            props.subrange(0, upto),
            path,
            fuel,
        ),
    decreases props.len() - upto,
{
    if upto == props.len() {
        assert(props.subrange(0, upto) =~= props);
    } else {
        let next = props.subrange(0, upto + 1);
        assert(next.drop_last() =~= props.subrange(0, upto));
        lemma_props_fault_stays(cells, props, upto + 1, path, fuel);
    }
}

/// Reads the properties `props` of an object that lies on `path`.
pub fn deserialize_object(heap: &Heap, props: &Vec<Property>, path: &mut Vec<usize>) -> (r: Result<
    Vec<(String, JsValue)>,
    Error,
>)
    requires
        path_ok(old(path)@, heap@.len()),
    ensures
        final(path)@ == old(path)@,
        props_read_as(
            r,
            decode_props(heap@, props@, old(path)@, (heap@.len() - old(path)@.len()) as nat),
        ),
    decreases heap@.len() - old(path)@.len(), 1nat, props@.len(),
{
    let ghost fuel = (heap@.len() - path@.len()) as nat;
    let ghost start = path@;
    let mut out: Vec<(String, JsValue)> = Vec::new();
    let mut i: usize = 0;
    assert(props@.subrange(0, 0) =~= Seq::<Property>::empty());
    assert(prop_views_of(out@) =~= Seq::<(Seq<char>, JsValueView)>::empty());
    while i < props.len()
        invariant
            i <= props.len(),
            path@ == start,
            start == old(path)@,
            path_ok(start, heap@.len()),
            fuel == (heap@.len() - start.len()) as nat,
            decode_props(heap@, props@.subrange(0, i as int), start, fuel) == Ok::<
                Seq<(Seq<char>, JsValueView)>,
                DecodeFault,
            >(prop_views_of(out@)),
        decreases props.len() - i,
    {
        let ghost before = props@.subrange(0, i as int);
        let ghost upto = props@.subrange(0, i + 1);
        assert(upto.drop_last() =~= before);
        assert(upto.last() == props@[i as int]);
        let one = deserialize_at(heap, &props[i].value, path);
        match one {
            Ok(v) => {
                let ghost old_out = out@;
                let key = props[i].key.clone();
                out.push((key, v));
                assert(prop_views_of(out@) =~= prop_views_of(old_out).push((props@[i as int].key@, v@)));
            },
            Err(e) => {
                proof {
                    lemma_props_fault_stays(heap@, props@, i + 1, start, fuel);
                }
                return Err(e);
            },
        }
        i += 1;
    }
    assert(props@.subrange(0, i as int) =~= props@);
    Ok(out)
}

/// Reads `value` below the containers on `path`.
pub fn deserialize_at(heap: &Heap, value: &RawJsValue, path: &mut Vec<usize>) -> (r: Result<
    JsValue,
    Error,
>)
    requires
        path_ok(old(path)@, heap@.len()),
    ensures
        final(path)@ == old(path)@,
        reads_as(r, decode(heap@, *value, old(path)@, (heap@.len() - old(path)@.len()) as nat)),
    decreases heap@.len() - old(path)@.len(), 0nat, 0nat,
{
    proof {
        lemma_path_bound(path@, heap@.len());
    }
    let ghost start = path@;
    match heap.lookup(value) {
        Some(cell) => {
            let place = match value.payload {
                Payload::Ptr(p) => p,
                _ => 0,
            };
            match cell {
                HeapCell::Text(s) => Ok(JsValue::String(s.clone())),
                HeapCell::Symbol => Ok(JsValue::Symbol),
                HeapCell::BigInt(b) => Ok(JsValue::BigInt(b.duplicate())),
                HeapCell::Module => Err(unhandled(JsTag::Module)),
                HeapCell::FunctionBytecode => Err(unhandled(JsTag::FunctionBytecode)),
                HeapCell::Function => Ok(JsValue::Function(*value)),
                HeapCell::Date(ms) => Ok(JsValue::Date(*ms)),
                HeapCell::Promise(_, _) => {
                    let empty: Vec<(String, JsValue)> = Vec::new();
                    proof {
                        lemma_view_object(empty);
                        assert(prop_views_of(empty@) =~= Seq::empty());
                    }
                    Ok(JsValue::Object(empty))
                },
                HeapCell::Proxy(target) => {
                    if on_path(path, place) {
                        return Err(Error::CircularReference);
                    }
                    proof {
                        lemma_path_bound(start.push(place), heap@.len());
                    }
                    path.push(place);
                    let r = deserialize_at(heap, target, path);
                    path.pop();
                    assert(path@ =~= start);
                    r
                },
                HeapCell::Array(items) => {
                    if on_path(path, place) {
                        return Err(Error::CircularReference);
                    }
                    proof {
                        lemma_path_bound(start.push(place), heap@.len());
                    }
                    path.push(place);
                    let r = deserialize_array(heap, items, path);
                    path.pop();
                    assert(path@ =~= start);
                    match r {
                        Ok(values) => {
                            proof {
                                lemma_view_array(values);
                            }
                            Ok(JsValue::Array(values))
                        },
                        Err(e) => Err(e),
                    }
                },
                HeapCell::Object(props) => {
                    if on_path(path, place) {
                        return Err(Error::CircularReference);
                    }
                    proof {
                        lemma_path_bound(start.push(place), heap@.len());
                    }
                    path.push(place);
                    let r = deserialize_object(heap, props, path);
                    path.pop();
                    assert(path@ =~= start);
                    match r {
                        Ok(values) => {
                            proof {
                                lemma_view_object(values);
                            }
                            Ok(JsValue::Object(values))
                        },
                        Err(e) => Err(e),
                    }
                },
            }
        },
        None => match (value.tag, value.payload) {
            (JsTag::Int, Payload::Int(i)) => Ok(JsValue::Int(i)),
            (JsTag::Bool, Payload::Bool(b)) => Ok(JsValue::Bool(b)),
            (JsTag::Float64, Payload::Float64(bits)) => Ok(JsValue::Float(bits)),
            (JsTag::Null, _) => Ok(JsValue::Null),
            (JsTag::Undefined, _) => Ok(JsValue::Undefined),
            (other, _) => Err(unhandled(other)),
        },
    }
}

/// Reads the host value that `value` stands for in `heap`.
///
/// A container that holds itself, directly or through others, is a
/// `CircularReference`; a module, a compiled function and the engine's
/// own markers have no host form.
pub fn deserialize_value(heap: &Heap, value: &RawJsValue) -> (r: Result<JsValue, Error>)
    ensures
        reads_as(r, decode_value(heap@, *value)),
{
    let mut path: Vec<usize> = Vec::new();
    deserialize_at(heap, value, &mut path)
}

} // verus!
