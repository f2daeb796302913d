//! Arrays.

use super::heap::{cell_ok, is_array_in, target_cell, value_ok, Heap, HeapCell};
use super::raw::{Payload, RawJsValue};
use super::value::{OwnedJsValue, RefOp};
use crate::errors::{ExecutionError, ValueError};
use crate::utils::create_undefined;
use vstd::prelude::*;
use vstd::string::StringExecFns;

verus! {

/// The elements of the array `v`; none where `v` is no array of the store.
pub open spec fn elements_in(cells: Seq<HeapCell>, v: RawJsValue) -> Seq<RawJsValue> {
    match target_cell(cells, v) {
        Some(HeapCell::Array(items)) => items@,
        _ => Seq::empty(),
    }
}

/// The element `index` of the array `v`; `undefined` past its end.
pub open spec fn element_in(cells: Seq<HeapCell>, v: RawJsValue, index: int) -> RawJsValue {
    if 0 <= index < elements_in(cells, v).len() {
        elements_in(cells, v)[index]
    } else {
        RawJsValue::spec_undefined()
    }
}

/// An array.
#[derive(Debug, PartialEq, Eq)]
pub struct OwnedJsArray {
    value: OwnedJsValue,
}

impl OwnedJsArray {
    /// The value that is the array.
    pub closed spec fn spec_value(&self) -> OwnedJsValue {
        self.value
    }

    /// The array as a raw value.
    pub open spec fn raw(&self) -> RawJsValue {
        self.spec_value().spec_inner()
    }

    /// Takes `value` as an array; it must be one. A value of another
    /// kind is handed back with the error, to be used otherwise.
    pub fn try_from_value(heap: &Heap, value: OwnedJsValue) -> (r: Result<
        OwnedJsArray,
        (ValueError, OwnedJsValue),
    >)
        ensures
            r is Ok <==> is_array_in(heap@, value.spec_inner()),
            r matches Ok(a) ==> a.spec_value() == value,
            r matches Err(e) ==> e == (ValueError::UnexpectedType, value),
    {
        let is_array = matches!(heap.target(&value.as_inner()), Some(HeapCell::Array(_)));
        if !is_array {
            Err((ValueError::UnexpectedType, value))
        } else {
            Ok(OwnedJsArray { value })
        }
    }

    /// The array as a value again.
    pub fn into_value(self) -> (v: OwnedJsValue)
        ensures
            v == self.spec_value(),
    {
        self.value
    }

    /// The array as a value.
    pub fn as_value(&self) -> (v: &OwnedJsValue)
        ensures
            *v == self.spec_value(),
    {
        &self.value
    }

    /// The number of elements.
    pub fn length(&self, heap: &Heap) -> (n: u64)
        ensures
            n == elements_in(heap@, self.raw()).len(),
    {
        match heap.target(&self.value.as_inner()) {
            Some(HeapCell::Array(items)) => items.len() as u64,
            _ => 0,
        }
    }

    /// The element `index`.
    ///
    /// `None` stands for `undefined`, which is also what lies past
    /// the end. An element whose reading threw is an error.
    pub fn get_index(&self, heap: &Heap, index: u32) -> (r: Result<
        Option<OwnedJsValue>,
        ExecutionError,
    >)
        ensures
            match r {
                Ok(None) => element_in(heap@, self.raw(), index as int).tag is Undefined,
                Ok(Some(v)) => v.spec_inner() == element_in(heap@, self.raw(), index as int)
                    && v.spec_context() == self.spec_value().spec_context() && !(
                v.spec_inner().tag is Undefined) && !(v.spec_inner().tag is Exception),
                Err(e) => element_in(heap@, self.raw(), index as int).tag is Exception && (
                e matches ExecutionError::Internal(m) && m@ == "Could not build array"@),
            },
    {
        let found = match heap.target(&self.value.as_inner()) {
            Some(HeapCell::Array(items)) => {
                if (index as usize) < items.len() {
                    items[index as usize]
                } else {
                    create_undefined()
                }
            },
            _ => create_undefined(),
        };
        if found.tag.is_exception() {
            Err(ExecutionError::Internal(String::from_str("Could not build array")))
        } else if found.tag.is_undefined() {
            Ok(None)
        } else {
            Ok(Some(OwnedJsValue::new(self.value.context(), found)))
        }
    }

    /// Sets the element `index` to `value`, whose ownership passes to
    /// the array. An index past the end makes the array longer; what
    /// lies between is `undefined`.
    ///
    /// Where `self` is no array of the store nothing changes and the
    /// value is released: the second part of the result is then the
    /// release to carry out. It is `None` on success.
    pub fn set_index(&self, heap: &mut Heap, index: u32, value: OwnedJsValue) -> (r: (
        Result<(), ExecutionError>,
        Option<RefOp>,
    ))
        requires
            old(heap).wf(),
            value_ok(old(heap)@, value.spec_inner()),
        ensures
            final(heap).wf(),
            element_set(old(heap)@, final(heap)@, self.raw(), index as int, value.spec_inner(), r.0),
            r.1 == (if r.0 is Ok {
                None
            } else {
                Some(RefOp::Free(value.spec_inner()))
            }),
    {
        let raw = self.value.as_inner();
        let new = value.as_inner();
        let place = match raw.payload {
            Payload::Ptr(p) => p,
            _ => 0,
        };
        let mut items: Vec<RawJsValue> = Vec::new();
        let at = index as usize;
        match heap.target(&raw) {
            Some(HeapCell::Array(old_items)) => {
                let mut i: usize = 0;
                while i < old_items.len()
                    invariant
                        i <= old_items.len(),
                        items@.len() == i,
                        forall|k: int|
                            0 <= k < i ==> #[trigger] items@[k] == (if k == at {
                                new
                            } else {
                                old_items@[k]
                            }),
                    decreases old_items.len() - i,
                {
                    let v = if i == at {
                        new
                    } else {
                        old_items[i]
                    };
                    items.push(v);
                    i += 1;
                }
                if at >= old_items.len() {
                    while i < at
                        invariant
                            old_items@.len() <= i <= at,
                            items@.len() == i,
                            forall|k: int|
                                0 <= k < i ==> #[trigger] items@[k] == (if k < old_items@.len() {
                                    old_items@[k]
                                } else {
                                    RawJsValue::spec_undefined()
                                }),
                        decreases at - i,
                    {
                        items.push(create_undefined());
                        i += 1;
                    }
                    items.push(new);
                }
            },
            _ => {
                return (
                    Err(ExecutionError::Internal(String::from_str("Could not set property"))),
                    Some(value.release()),
                );
            },
        }
        let cell = HeapCell::Array(items);
        proof {
            let old_cell = heap@[place as int];
            assert(cell_ok(heap@, old_cell));
            assert forall|k: int| 0 <= k < cell.children().len() implies value_ok(
                heap@,
                #[trigger] cell.children()[k],
            ) by {
                if k != at && k < old_cell.children().len() {
                    assert(value_ok(heap@, old_cell.children()[k]));
                }
            }
        }
        heap.replace(place, cell);
        (Ok(()), None)
    }

    /// Appends `value`, whose ownership passes to the array.
    ///
    /// Where `self` is no array of the store, or is as long as an
    /// index can count, nothing changes and the value is released:
    /// the second part of the result is then the release to carry out.
    pub fn push(&self, heap: &mut Heap, value: OwnedJsValue) -> (r: (
        Result<(), ExecutionError>,
        Option<RefOp>,
    ))
        requires
            old(heap).wf(),
            value_ok(old(heap)@, value.spec_inner()),
        ensures
            final(heap).wf(),
            r.1 == (if r.0 is Ok {
                None
            } else {
                Some(RefOp::Free(value.spec_inner()))
            }),
            if is_array_in(old(heap)@, self.raw()) && elements_in(old(heap)@, self.raw()).len()
                <= u32::MAX {
                &&& r.0 is Ok
                &&& element_set(
                    old(heap)@,
                    final(heap)@,
                    self.raw(),
                    elements_in(old(heap)@, self.raw()).len() as int,
                    value.spec_inner(),
                    r.0,
                )
                &&& elements_in(final(heap)@, self.raw()) == elements_in(
                    old(heap)@,
                    self.raw(),
                ).push(value.spec_inner())
            } else {
                &&& final(heap)@ == old(heap)@
                &&& r.0 matches Err(ExecutionError::Internal(m)) && m@ == "Could not set property"@
            },
    {
        let next = self.length(heap);
        let is_array = matches!(heap.target(&self.value.as_inner()), Some(HeapCell::Array(_)));
        if !is_array || next > u32::MAX as u64 {
            return (
                Err(ExecutionError::Internal(String::from_str("Could not set property"))),
                Some(value.release()),
            );
        }
        let ghost before = elements_in(heap@, self.raw());
        let ghost new = value.spec_inner();
        let r = self.set_index(heap, next as u32, value);
        assert(elements_in(heap@, self.raw()) =~= before.push(new));
        r
    }

    /// The elements, as they are: no reference is counted for them.
    pub fn raw_elements(&self, heap: &Heap) -> (r: Vec<RawJsValue>)
        ensures
            r@ == elements_in(heap@, self.raw()),
    {
        let mut ret: Vec<RawJsValue> = Vec::new();
        match heap.target(&self.value.as_inner()) {
            Some(HeapCell::Array(items)) => {
                let mut i: usize = 0;
                while i < items.len()
                    invariant
                        i <= items.len(),
                        ret@ == items@.subrange(0, i as int),
                    decreases items.len() - i,
                {
                    ret.push(items[i]);
                    assert(ret@ =~= items@.subrange(0, i + 1));
                    i += 1;
                }
                assert(ret@ =~= items@);
                ret
            },
            _ => ret,
        }
    }
}

/// What `set_index` does to the store.
///
/// On success the array has `value` at `index` and is otherwise as
/// it was, made longer with `undefined` where `index` lay past the
/// end. On failure nothing has changed.
pub open spec fn element_set(
    before: Seq<HeapCell>,
    after: Seq<HeapCell>,
    array: RawJsValue,
    index: int,
    value: RawJsValue,
    r: Result<(), ExecutionError>,
) -> bool {
    match target_cell(before, array) {
        Some(HeapCell::Array(old_items)) => {
            let place = array.payload->Ptr_0 as int;
            &&& r is Ok
            &&& after == before.update(place, after[place])
            &&& after[place] matches HeapCell::Array(items) && items@.len() == (if index
                < old_items@.len() {
                old_items@.len()
            } else {
                (index + 1) as nat
            }) && forall|k: int|
                0 <= k < items@.len() ==> #[trigger] items@[k] == (if k == index {
                    value
                } else if k < old_items@.len() {
                    old_items@[k]
                } else {
                    RawJsValue::spec_undefined()
                })
        },
        _ => after == before && (r matches Err(ExecutionError::Internal(m)) && m@
            == "Could not set property"@),
    }
}

} // verus!
