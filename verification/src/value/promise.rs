//! Promises.

use super::function::JsFunction;
use super::heap::{is_function_in, is_promise_in, target_cell, Heap, HeapCell};
use super::object::{property_in, OwnedJsObject};
use super::promise_state::PromiseState;
use super::raw::RawJsValue;
use super::value::{OwnedJsValue, RefOp};
use crate::errors::{ExecutionError, ValueError};
use crate::utils::create_undefined;
use vstd::prelude::*;
use vstd::string::StringExecFns;

verus! {

/// A promise.
#[derive(Debug, PartialEq, Eq)]
pub struct OwnedJsPromise {
    value: OwnedJsValue,
}

/// The state of the promise `v`; pending where `v` is no promise of the store.
pub open spec fn state_in(cells: Seq<HeapCell>, v: RawJsValue) -> PromiseState {
    match target_cell(cells, v) {
        Some(HeapCell::Promise(state, _)) => state,
        _ => PromiseState::Pending,
    }
}

/// What the promise `v` has settled to; `undefined` while it is
/// pending or where `v` is no promise of the store.
pub open spec fn result_in(cells: Seq<HeapCell>, v: RawJsValue) -> RawJsValue {
    match target_cell(cells, v) {
        Some(HeapCell::Promise(state, result)) => if state is Pending {
            RawJsValue::spec_undefined()
        } else {
            result
        },
        _ => RawJsValue::spec_undefined(),
    }
}

impl OwnedJsPromise {
    /// The value that is the promise.
    pub closed spec fn spec_value(&self) -> OwnedJsValue {
        self.value
    }

    /// The promise as a raw value.
    pub open spec fn raw(&self) -> RawJsValue {
        self.spec_value().spec_inner()
    }

    /// Takes `value` as a promise; it must be one of the engine's
    /// own. A value of another kind is handed back with the error,
    /// to be used otherwise.
    pub fn try_from_value(heap: &Heap, value: OwnedJsValue) -> (r: Result<
        OwnedJsPromise,
        (ValueError, OwnedJsValue),
    >)
        ensures
            r is Ok <==> is_promise_in(heap@, value.spec_inner()),
            r matches Ok(p) ==> p.spec_value() == value,
            r matches Err(e) ==> e == (ValueError::UnexpectedType, value),
    {
        let is_promise = matches!(heap.target(&value.as_inner()), Some(HeapCell::Promise(_, _)));
        if !is_promise {
            Err((ValueError::UnexpectedType, value))
        } else {
            Ok(OwnedJsPromise { value })
        }
    }

    /// The promise as a value again.
    pub fn into_value(self) -> (v: OwnedJsValue)
        ensures
            v == self.spec_value(),
    {
        self.value
    }

    /// How far the promise has come.
    pub fn state(&self, heap: &Heap) -> (s: PromiseState)
        ensures
            s == state_in(heap@, self.raw()),
    {
        match heap.target(&self.value.as_inner()) {
            Some(HeapCell::Promise(state, _)) => *state,
            _ => PromiseState::Pending,
        }
    }

    /// What the promise has settled to, as a value of its own for
    /// which the engine is asked for a reference; `undefined` while
    /// the promise is pending.
    pub fn result(&self, heap: &Heap) -> (r: (OwnedJsValue, RefOp))
        ensures
            r.0.spec_inner() == result_in(heap@, self.raw()),
            r.0.spec_context() == self.spec_value().spec_context(),
            r.1 == RefOp::Dup(result_in(heap@, self.raw())),
    {
        let found = match heap.target(&self.value.as_inner()) {
            Some(HeapCell::Promise(state, result)) => match state {
                PromiseState::Pending => create_undefined(),
                _ => *result,
            },
            _ => create_undefined(),
        };
        OwnedJsValue::own(self.value.context(), &found)
    }

    /// Takes what the engine returned for `then`, `catch`, `finally`,
    /// `resolve`, `reject`, `all`, `race` and their like. A pending
    /// exception means that the call itself threw, which is the
    /// error; else the value must be a promise.
    pub fn from_combinator(
        heap: &Heap,
        value: OwnedJsValue,
        pending: crate::context::exception::PendingException,
    ) -> (r: (Result<OwnedJsPromise, ExecutionError>, Option<RefOp>))
        ensures
            match pending {
                crate::context::exception::PendingException::Nothing => if is_promise_in(
                    heap@,
                    value.spec_inner(),
                ) {
                    (r.0 matches Ok(p) && p.spec_value() == value) && r.1 is None
                } else {
                    r.0 matches Err(ExecutionError::Conversion(ValueError::UnexpectedType)) && r.1
                        == Some(RefOp::Free(value.spec_inner()))
                },
                _ => (r.0 matches Err(e) && crate::context::exception::exception_of(
                    pending,
                    Some(e),
                )) && r.1 == Some(RefOp::Free(value.spec_inner())),
            },
    {
        match crate::context::exception::get_exception(pending) {
            Some(e) => (Err(e), Some(value.release())),
            None => match OwnedJsPromise::try_from_value(heap, value) {
                Ok(p) => (Ok(p), None),
                Err((e, back)) => (Err(ExecutionError::Conversion(e)), Some(back.release())),
            },
        }
    }

    /// Puts `promises` into a new array of the store, in their order:
    /// the list that `all`, `race` and their like take. The array
    /// holds the promises without owning them anew.
    pub fn iterable_of(heap: &mut Heap, promises: &Vec<OwnedJsPromise>) -> (r: RawJsValue)
        requires
            old(heap).wf(),
            forall|i: int|
                0 <= i < promises@.len() ==> crate::value::heap::value_ok(
                    old(heap)@,
                    (#[trigger] promises@[i]).raw(),
                ),
        ensures
            final(heap).wf(),
            final(heap)@.len() == old(heap)@.len() + 1,
            final(heap)@.drop_last() == old(heap)@,
            r == (RawJsValue {
                tag: crate::tag::JsTag::Object,
                payload: crate::value::raw::Payload::Ptr(old(heap)@.len() as usize),
            }),
            final(heap)@.last() matches HeapCell::Array(items) && items@.len() == promises@.len()
                && forall|i: int| 0 <= i < items@.len() ==> items@[i] == (#[trigger] promises@[i]).raw(),
    {
        let mut items: Vec<RawJsValue> = Vec::new();
        let mut i: usize = 0;
        while i < promises.len()
            invariant
                i <= promises.len(),
                items@.len() == i,
                heap@ == old(heap)@,
                forall|k: int|
                    0 <= k < promises@.len() ==> crate::value::heap::value_ok(
                        heap@,
                        (#[trigger] promises@[k]).raw(),
                    ),
                forall|k: int| 0 <= k < i ==> items@[k] == (#[trigger] promises@[k]).raw(),
            decreases promises.len() - i,
        {
            items.push(promises[i].value.as_inner());
            i += 1;
        }
        let cell = HeapCell::Array(items);
        assert(cell.keys() =~= Seq::<Seq<char>>::empty());
        assert forall|k: int| 0 <= k < cell.children().len() implies crate::value::heap::value_ok(
            heap@,
            #[trigger] cell.children()[k],
        ) by {
            assert(cell.children()[k] == promises@[k].raw());
        }
        let r = heap.store(cell);
        assert(heap@.drop_last() =~= old(heap)@);
        r
    }

    /// Takes apart what the engine hands out for a promise with its
    /// resolvers: an object with the properties `promise`, `resolve`
    /// and `reject`. A missing or ill-typed part is an error.
    pub fn with_resolvers(heap: &Heap, obj: OwnedJsValue) -> (r: Result<
        (OwnedJsPromise, JsFunction, JsFunction),
        ExecutionError,
    >)
        ensures
            r is Ok <==> resolvers_in(heap@, obj.spec_inner()),
            r matches Ok(parts) ==> parts.0.raw() == property_in(
                heap@,
                obj.spec_inner(),
                "promise"@,
            ) && parts.1.spec_value().spec_inner() == property_in(
                heap@,
                obj.spec_inner(),
                "resolve"@,
            ) && parts.2.spec_value().spec_inner() == property_in(
                heap@,
                obj.spec_inner(),
                "reject"@,
            ),
    {
        let obj = match OwnedJsObject::try_from_value(obj) {
            Ok(o) => o,
            Err((e, _)) => {
                return Err(ExecutionError::Conversion(e));
            },
        };
        let promise = match obj.property_require(heap, "promise") {
            Ok(v) => match OwnedJsPromise::try_from_value(heap, v) {
                Ok(p) => p,
                Err((e, _)) => {
                    return Err(ExecutionError::Conversion(e));
                },
            },
            Err(e) => {
                return Err(e);
            },
        };
        let resolve = match obj.property_require(heap, "resolve") {
            Ok(v) => match JsFunction::try_from_value(heap, v) {
                Ok(f) => f,
                Err((e, _)) => {
                    return Err(ExecutionError::Conversion(e));
                },
            },
            Err(e) => {
                return Err(e);
            },
        };
        let reject = match obj.property_require(heap, "reject") {
            Ok(v) => match JsFunction::try_from_value(heap, v) {
                Ok(f) => f,
                Err((e, _)) => {
                    return Err(ExecutionError::Conversion(e));
                },
            },
            Err(e) => {
                return Err(e);
            },
        };
        Ok((promise, resolve, reject))
    }
}

/// The object `v` holds a promise under `promise` and something
/// that can be called under each of `resolve` and `reject`.
pub open spec fn resolvers_in(cells: Seq<HeapCell>, v: RawJsValue) -> bool {
    &&& v.tag is Object
    &&& is_promise_in(cells, property_in(cells, v, "promise"@))
    &&& is_function_in(cells, property_in(cells, v, "resolve"@))
    &&& is_function_in(cells, property_in(cells, v, "reject"@))
}

} // verus!
