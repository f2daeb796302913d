//! Writing a host value into a store.

use super::js_value::{keys_of, lemma_view_array, lemma_view_object, prop_views_of, views_of, JsValue, JsValueView};
use super::laws::{extends, lemma_represents_grows};
use super::model::{cell_of, encodable_in, has_zero_key, represents};
use crate::errors::ValueError;
use crate::tag::JsTag;
use crate::utils::{contains_zero, create_bool, create_float, create_int, create_null, create_undefined, has_zero};
use crate::value::heap::{cell_ok, cells_ok, lemma_value_ok_grows, value_ok, Heap, HeapCell, Property};
use crate::value::raw::{Payload, RawJsValue};
use vstd::prelude::*;

verus! {

/// What can be written into a store can be written into it when it has grown.
pub proof fn lemma_encodable_grows(view: JsValueView, cells: Seq<HeapCell>, more: Seq<HeapCell>)
    requires
        encodable_in(view, cells),
        extends(more, cells),
    ensures
        encodable_in(view, more),
    decreases view,
{
    match view {
        JsValueView::Array(items) => {
            assert forall|i: int| 0 <= i < items.len() implies encodable_in(
                #[trigger] items[i],
                more,
            ) by {
                lemma_encodable_grows(items[i], cells, more);
            }
        },
        JsValueView::Object(props) => {
            assert forall|i: int| 0 <= i < props.len() implies encodable_in(
                (#[trigger] props[i]).1,
                more,
            ) by {
                lemma_encodable_grows(props[i].1, cells, more);
            }
        },
        JsValueView::Function(f) => {
            assert(cell_of(more, f, JsTag::Object) == cell_of(cells, f, JsTag::Object));
        },
        _ => {},
    }
}

/// What `serialize_value` owes: on success the store has grown, and
/// the value returned is `view` in it; on failure the store is as it was.
pub open spec fn written(
    before: Seq<HeapCell>,
    after: Seq<HeapCell>,
    r: Result<RawJsValue, ValueError>,
    view: JsValueView,
) -> bool {
    match r {
        Ok(v) => {
            &&& !has_zero_key(view)
            &&& extends(after, before)
            &&& value_ok(after, v)
            &&& represents(after, v, view)
        },
        Err(e) => {
            &&& has_zero_key(view)
            &&& e == ValueError::StringWithZeroBytes
            &&& after == before
        },
    }
}

/// Writes `value` into `heap` and returns the value that names it there.
///
/// Each array and each object gets a cell of its own, after the cells
/// of what it holds. The one failure is a key with a zero character;
/// then every cell written so far is taken back, and `heap` is as it
/// was before the call.
pub fn serialize_value(heap: &mut Heap, value: &JsValue) -> (r: Result<RawJsValue, ValueError>)
    requires
        old(heap).wf(),
        encodable_in(value@, old(heap)@),
    ensures
        final(heap).wf(),
        written(old(heap)@, final(heap)@, r, value@),
    decreases value,
{
    let ghost before = heap@;
    match value {
        JsValue::Undefined => Ok(create_undefined()),
        JsValue::Null => Ok(create_null()),
        JsValue::Bool(flag) => Ok(create_bool(*flag)),
        JsValue::Int(val) => Ok(create_int(*val)),
        JsValue::Float(bits) => Ok(create_float(*bits)),
        JsValue::String(val) => Ok(heap.store(HeapCell::Text(val.clone()))),
        JsValue::Date(ms) => Ok(heap.store(HeapCell::Date(*ms))),
        JsValue::BigInt(b) => Ok(heap.store(HeapCell::BigInt(b.duplicate()))),
        JsValue::Function(f) => Ok(*f),
        JsValue::Symbol => {
            assert(false);
            Ok(create_undefined())
        },
        JsValue::Array(items) => {
            let mark = heap.len();
            let mut raws: Vec<RawJsValue> = Vec::new();
            let mut i: usize = 0;
            proof {
                lemma_view_array(*items);
            }
            while i < items.len()
                invariant
                    i <= items.len(),
                    raws@.len() == i,
                    decreases_to!(value => items),
                    value@ == JsValueView::Array(views_of(items@)),
                    before == old(heap)@,
                    cells_ok(before),
                    mark == before.len(),
                    heap.wf(),
                    extends(heap@, before),
                    encodable_in(value@, heap@),
                    forall|k: int|
                        0 <= k < i ==> value_ok(heap@, #[trigger] raws@[k]) && represents(
                            heap@,
                            raws@[k],
                            items@[k]@,
                        ) && !has_zero_key(items@[k]@),
                decreases items.len() - i,
            {
                assert(decreases_to!(value => items[i as int]));
                let ghost prior = heap@;
                assert(encodable_in(items@[i as int]@, heap@)) by {
                    let views = value@->Array_0;
                    assert(encodable_in(views[i as int], heap@));
                }
                match serialize_value(heap, &items[i]) {
                    Ok(raw) => {
                        proof {
                            assert forall|k: int| 0 <= k < i implies value_ok(
                                heap@,
                                #[trigger] raws@[k],
                            ) && represents(heap@, raws@[k], items@[k]@) by {
                                lemma_value_ok_grows(prior, heap@, raws@[k]);
                                lemma_represents_grows(prior, heap@, raws@[k], items@[k]@);
                            }
                            lemma_encodable_grows(value@, prior, heap@);
                        }
                        raws.push(raw);
                    },
                    Err(e) => {
                        assert(heap@.subrange(0, mark as int) =~= before);
                        heap.truncate(mark);
                        proof {
                            let views = value@->Array_0;
                            assert(views[i as int] == items@[i as int]@);
                            assert(has_zero_key(views[i as int]));
                            assert(has_zero_key(value@));
                        }
                        return Err(e);
                    },
                }
                i += 1;
            }
            let ghost prior = heap@;
            let cell = HeapCell::Array(raws);
            assert(cell.keys().no_duplicates());
            let r = heap.store(cell);
            proof {
                assert forall|k: int| 0 <= k < items@.len() implies represents(
                    heap@,
                    raws@[k],
                    #[trigger] views_of(items@)[k],
                ) by {
                    lemma_represents_grows(prior, heap@, raws@[k], items@[k]@);
                }
                assert(cell_of(heap@, r, JsTag::Object) == Some(cell));
                assert forall|k: int| 0 <= k < views_of(items@).len() implies !has_zero_key(
                    #[trigger] views_of(items@)[k],
                ) by {}
            }
            Ok(r)
        },
        JsValue::Object(props) => {
            let mark = heap.len();
            let mut cells: Vec<Property> = Vec::new();
            let mut i: usize = 0;
            proof {
                lemma_view_object(*props);
            }
            while i < props.len()
                invariant
                    i <= props.len(),
                    cells@.len() == i,
                    decreases_to!(value => props),
                    value@ == JsValueView::Object(prop_views_of(props@)),
                    before == old(heap)@,
                    cells_ok(before),
                    mark == before.len(),
                    heap.wf(),
                    extends(heap@, before),
                    encodable_in(value@, heap@),
                    forall|k: int|
                        0 <= k < i ==> value_ok(heap@, (#[trigger] cells@[k]).value) && represents(
                            heap@,
                            cells@[k].value,
                            props@[k].1@,
                        ) && cells@[k].key@ == props@[k].0@ && !has_zero_key(props@[k].1@)
                            && !has_zero(props@[k].0@),
                decreases props.len() - i,
            {
                assert(decreases_to!(value => props[i as int]));
                assert(decreases_to!(props[i as int] => props[i as int].1));
                let ghost prior = heap@;
                assert(encodable_in(props@[i as int].1@, heap@)) by {
                    let views = value@->Object_0;
                    assert(encodable_in(views[i as int].1, heap@));
                }
                if contains_zero(props[i].0.as_str()) {
                    assert(heap@.subrange(0, mark as int) =~= before);
                    heap.truncate(mark);
                    proof {
                        let views = value@->Object_0;
                        assert(views[i as int].0 == props@[i as int].0@);
                        assert(has_zero(views[i as int].0));
                        assert(has_zero_key(value@));
                    }
                    return Err(ValueError::StringWithZeroBytes);
                }
                match serialize_value(heap, &props[i].1) {
                    Ok(raw) => {
                        proof {
                            assert forall|k: int| 0 <= k < i implies value_ok(
                                heap@,
                                (#[trigger] cells@[k]).value,
                            ) && represents(heap@, cells@[k].value, props@[k].1@) by {
                                lemma_value_ok_grows(prior, heap@, cells@[k].value);
                                lemma_represents_grows(prior, heap@, cells@[k].value, props@[k].1@);
                            }
                            lemma_encodable_grows(value@, prior, heap@);
                        }
                        cells.push(Property { key: props[i].0.clone(), value: raw });
                    },
                    Err(e) => {
                        assert(heap@.subrange(0, mark as int) =~= before);
                        heap.truncate(mark);
                        proof {
                            let views = value@->Object_0;
                            assert(views[i as int].1 == props@[i as int].1@);
                            assert(has_zero_key(views[i as int].1));
                            assert(has_zero_key(value@));
                        }
                        return Err(e);
                    },
                }
                i += 1;
            }
            let ghost prior = heap@;
            let cell = HeapCell::Object(cells);
            proof {
                assert(cell.keys() =~= keys_of(prop_views_of(props@)));
                assert forall|k: int| 0 <= k < cell.children().len() implies value_ok(
                    heap@,
                    #[trigger] cell.children()[k],
                ) by {
                    assert(value_ok(heap@, cells@[k].value));
                }
            }
            let r = heap.store(cell);
            proof {
                assert forall|k: int| 0 <= k < props@.len() implies cells@[k].key@ == (
                #[trigger] prop_views_of(props@)[k]).0 && represents(
                    heap@,
                    cells@[k].value,
                    prop_views_of(props@)[k].1,
                ) by {
                    lemma_represents_grows(prior, heap@, cells@[k].value, props@[k].1@);
                }
                assert(cell_of(heap@, r, JsTag::Object) == Some(cell));
                assert forall|k: int| 0 <= k < prop_views_of(props@).len() implies !(has_zero(
                    (#[trigger] prop_views_of(props@)[k]).0,
                ) || has_zero_key(prop_views_of(props@)[k].1)) by {}
            }
            Ok(r)
        },
    }
}

} // verus!
