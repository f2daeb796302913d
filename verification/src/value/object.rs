//! Objects and the walk over their properties.

use super::heap::{cell_ok, is_function_in, is_promise_in, target_cell, value_ok, Heap, HeapCell, Property};
use super::raw::{Payload, RawJsValue};
use super::value::{OwnedJsValue, RefOp};
use crate::errors::{ExecutionError, ValueError};
use crate::tag::JsTag;
use crate::utils::{contains_zero, has_zero};
use vstd::prelude::*;
use vstd::string::StringExecFns;

verus! {

/// The place of the first property of `props` with the key `key`.
pub open spec fn key_index(props: Seq<Property>, key: Seq<char>) -> Option<int>
    decreases props.len(),
{
    if props.len() == 0 {
        None
    } else if props[0].key@ == key {
        Some(0)
    } else {
        match key_index(props.drop_first(), key) {
            Some(i) => Some(i + 1),
            None => None,
        }
    }
}

/// What `key_index` finds is a property with that key, and the first one.
pub proof fn lemma_key_index(props: Seq<Property>, key: Seq<char>)
    ensures
        match key_index(props, key) {
            Some(i) => 0 <= i < props.len() && props[i].key@ == key && forall|k: int|
                0 <= k < i ==> props[k].key@ != key,
            None => forall|k: int| 0 <= k < props.len() ==> props[k].key@ != key,
        },
    decreases props.len(),
{
    if props.len() > 0 && props[0].key@ != key {
        lemma_key_index(props.drop_first(), key);
        let rest = props.drop_first();
        match key_index(rest, key) {
            Some(i) => {
                assert forall|k: int| 0 <= k < i + 1 implies props[k].key@ != key by {
                    if k > 0 {
                        assert(rest[k - 1] == props[k]);
                    }
                }
            },
            None => {
                assert forall|k: int| 0 <= k < props.len() implies props[k].key@ != key by {
                    if k > 0 {
                        assert(rest[k - 1] == props[k]);
                    }
                }
            },
        }
    }
}

/// The value of the property `key` of the object `v`; `undefined`
/// where `v` is no plain object of the store or has no such property.
pub open spec fn property_in(cells: Seq<HeapCell>, v: RawJsValue, key: Seq<char>) -> RawJsValue {
    match target_cell(cells, v) {
        Some(HeapCell::Object(props)) => match key_index(props@, key) {
            Some(i) => props@[i].value,
            None => RawJsValue::spec_undefined(),
        },
        _ => RawJsValue::spec_undefined(),
    }
}

/// The object behaves as a promise: it is one of the engine's own, or
/// it has both a `then` and a `catch` that can be called.
pub open spec fn thenable_in(cells: Seq<HeapCell>, v: RawJsValue) -> bool {
    is_promise_in(cells, v) || (is_function_in(cells, property_in(cells, v, "then"@))
        && is_function_in(cells, property_in(cells, v, "catch"@)))
}

/// Whether an object behaves as a promise, from what the engine
/// says of it: `native` that it is a promise of the engine's own
/// making, the other two that its `then` and its `catch` can be called.
pub fn thenable(native: bool, then_callable: bool, catch_callable: bool) -> (r: bool)
    ensures
        r == (native || (then_callable && catch_callable)),
{
    native || (then_callable && catch_callable)
}

/// Finds the first property with the key `key`.
pub fn find_key(props: &Vec<Property>, key: &String) -> (r: Option<usize>)
    ensures
        r is Some <==> key_index(props@, key@) is Some,
        r matches Some(j) ==> j < props@.len() && key_index(props@, key@) == Some(j as int),
{
    let mut i: usize = 0;
    while i < props.len()
        invariant
            i <= props.len(),
            forall|k: int| 0 <= k < i ==> props@[k].key@ != key@,
        decreases props.len() - i,
    {
        if props[i].key == *key {
            proof {
                lemma_key_index(props@, key@);
            }
            return Some(i);
        }
        i += 1;
    }
    proof {
        lemma_key_index(props@, key@);
    }
    None
}

/// An object.
#[derive(Debug, PartialEq, Eq)]
pub struct OwnedJsObject {
    value: OwnedJsValue,
}

impl OwnedJsObject {
    /// The value that is the object.
    pub closed spec fn spec_value(&self) -> OwnedJsValue {
        self.value
    }

    /// The object as a raw value.
    pub open spec fn raw(&self) -> RawJsValue {
        self.spec_value().spec_inner()
    }

    /// Takes `value` as an object; it must have the tag of one. A
    /// value of another kind is handed back with the error, to be
    /// used otherwise.
    pub fn try_from_value(value: OwnedJsValue) -> (r: Result<
        OwnedJsObject,
        (ValueError, OwnedJsValue),
    >)
        ensures
            r is Ok <==> value.spec_inner().tag is Object,
            r matches Ok(o) ==> o.spec_value() == value,
            r matches Err(e) ==> e == (ValueError::UnexpectedType, value),
    {
        if !value.is_object() {
            Err((ValueError::UnexpectedType, value))
        } else {
            Ok(OwnedJsObject { value })
        }
    }

    /// The object as a value again.
    pub fn into_value(self) -> (v: OwnedJsValue)
        ensures
            v == self.spec_value(),
    {
        self.value
    }

    /// Starts a walk over the properties of the object. The walk owns
    /// a reference of its own, which the engine is asked for.
    pub fn properties_iter(&self, heap: &Heap) -> (r: (
        Result<OwnedJsPropertyIterator, ValueError>,
        RefOp,
    ))
        ensures
            r.1 == RefOp::Dup(self.raw()),
            r.0 matches Ok(it) && it.object() == *self && it.index() == 0 && !it.at_value()
                && !it.failed() && it.keys() == (match target_cell(heap@, self.raw()) {
                Some(cell) => cell.keys(),
                None => Seq::empty(),
            }),
    {
        let (copy, op) = self.value.duplicate();
        let it = OwnedJsPropertyIterator::from_object(heap, OwnedJsObject { value: copy });
        (it, op)
    }

    /// The value of the property `name`.
    ///
    /// `None` stands for `undefined`, be the property missing or set to
    /// it. A property whose reading threw is an error, never `None`.
    pub fn property(&self, heap: &Heap, name: &str) -> (r: Result<
        Option<OwnedJsValue>,
        ExecutionError,
    >)
        ensures
            match r {
                Ok(None) => property_in(heap@, self.raw(), name@).tag is Undefined,
                Ok(Some(v)) => v.spec_inner() == property_in(heap@, self.raw(), name@)
                    && v.spec_context() == self.spec_value().spec_context() && !(
                v.spec_inner().tag is Undefined) && !(v.spec_inner().tag is Exception),
                Err(e) => property_in(heap@, self.raw(), name@).tag is Exception && (
                e matches ExecutionError::Internal(m) && m@ == "Exception while getting property '"@
                    + name@ + "'"@),
            },
    {
        let raw = self.value.as_inner();
        let found = match heap.target(&raw) {
            Some(HeapCell::Object(props)) => {
                let key = String::from_str(name);
                match find_key(props, &key) {
                    Some(i) => props[i].value,
                    None => crate::utils::create_undefined(),
                }
            },
            _ => crate::utils::create_undefined(),
        };
        if found.tag.is_exception() {
            Err(
                ExecutionError::Internal(
                    String::from_str("Exception while getting property '").concat(name).concat("'"),
                ),
            )
        } else if found.tag.is_undefined() {
            Ok(None)
        } else {
            Ok(Some(OwnedJsValue::new(self.value.context(), found)))
        }
    }

    /// The value of the property `name`, which must not be `undefined`.
    pub fn property_require(&self, heap: &Heap, name: &str) -> (r: Result<
        OwnedJsValue,
        ExecutionError,
    >)
        ensures
            match r {
                Ok(v) => v.spec_inner() == property_in(heap@, self.raw(), name@)
                    && v.spec_context() == self.spec_value().spec_context() && !(
                v.spec_inner().tag is Undefined) && !(v.spec_inner().tag is Exception),
                Err(e) => e matches ExecutionError::Internal(m) && (if property_in(
                    heap@,
                    self.raw(),
                    name@,
                ).tag is Exception {
                    m@ == "Exception while getting property '"@ + name@ + "'"@
                } else {
                    property_in(heap@, self.raw(), name@).tag is Undefined && m@ == "Property '"@
                        + name@ + "' not found"@
                }),
            },
    {
        match self.property(heap, name) {
            Ok(Some(v)) => Ok(v),
            Ok(None) => Err(
                ExecutionError::Internal(
                    String::from_str("Property '").concat(name).concat("' not found"),
                ),
            ),
            Err(e) => Err(e),
        }
    }

    /// Whether the object behaves as a promise: it is one of the
    /// engine's own, or both its `then` and its `catch` can be called.
    pub fn is_promise(&self, heap: &Heap) -> (r: Result<bool, ExecutionError>)
        ensures
            match r {
                Ok(b) => b == thenable_in(heap@, self.raw()),
                Err(e) => !is_promise_in(heap@, self.raw()) && (property_in(
                    heap@,
                    self.raw(),
                    "then"@,
                ).tag is Exception || property_in(heap@, self.raw(), "catch"@).tag is Exception),
            },
    {
        let raw = self.value.as_inner();
        match heap.target(&raw) {
            Some(HeapCell::Promise(_, _)) => {
                return Ok(true);
            },
            _ => {},
        }
        let then = self.property(heap, "then")?;
        let callable_then = match then {
            Some(p) => matches!(heap.target(&p.as_inner()), Some(HeapCell::Function)),
            None => false,
        };
        let catch = self.property(heap, "catch")?;
        let callable_catch = match catch {
            Some(p) => matches!(heap.target(&p.as_inner()), Some(HeapCell::Function)),
            None => false,
        };
        Ok(callable_then && callable_catch)
    }

    /// Sets the property `name` to `value`, whose ownership passes to
    /// the object.
    ///
    /// Where that fails (the name holds a zero character, or `self`
    /// is no plain object of the store) the store stays as it is and
    /// the value is released: the second part of the result is then
    /// the release to carry out. It is `None` on success.
    pub fn set_property(&self, heap: &mut Heap, name: &str, value: OwnedJsValue) -> (r: (
        Result<(), ExecutionError>,
        Option<RefOp>,
    ))
        requires
            old(heap).wf(),
            value_ok(old(heap)@, value.spec_inner()),
        ensures
            final(heap).wf(),
            property_set(old(heap)@, final(heap)@, self.raw(), name@, value.spec_inner(), r.0),
            r.1 == (if r.0 is Ok {
                None
            } else {
                Some(RefOp::Free(value.spec_inner()))
            }),
    {
        let raw = self.value.as_inner();
        let new = value.as_inner();
        if contains_zero(name) {
            return (
                Err(ExecutionError::Conversion(ValueError::StringWithZeroBytes)),
                Some(value.release()),
            );
        }
        let place = match raw.payload {
            Payload::Ptr(p) => p,
            _ => 0,
        };
        let mut props: Vec<Property> = Vec::new();
        let found: Option<usize>;
        match heap.target(&raw) {
            Some(HeapCell::Object(old_props)) => {
                let key = String::from_str(name);
                found = find_key(old_props, &key);
                let mut i: usize = 0;
                while i < old_props.len()
                    invariant
                        i <= old_props.len(),
                        props@.len() == i,
                        found matches Some(j) ==> j < old_props@.len(),
                        forall|k: int|
                            0 <= k < i ==> (#[trigger] props@[k]).key@ == old_props@[k].key@
                                && props@[k].value == (if found == Some(k as usize) {
                                new
                            } else {
                                old_props@[k].value
                            }),
                    decreases old_props.len() - i,
                {
                    let v = if found == Some(i) {
                        new
                    } else {
                        old_props[i].value
                    };
                    props.push(Property { key: old_props[i].key.clone(), value: v });
                    i += 1;
                }
                if found.is_none() {
                    props.push(Property { key, value: new });
                }
            },
            _ => {
                return (
                    Err(ExecutionError::Internal(String::from_str("Could not set property"))),
                    Some(value.release()),
                );
            },
        }
        let cell = HeapCell::Object(props);
        proof {
            let old_props = target_cell(heap@, raw)->Some_0->Object_0;
            lemma_key_index(old_props@, name@);
            let old_cell = heap@[place as int];
            assert(cell_ok(heap@, old_cell));
            assert(old_cell.keys().no_duplicates());
            assert forall|k: int| 0 <= k < cell.children().len() implies value_ok(
                heap@,
                #[trigger] cell.children()[k],
            ) by {
                if k < old_props@.len() {
                    assert(value_ok(heap@, old_cell.children()[k]));
                }
            }
            assert forall|a: int, b: int|
                0 <= a < cell.keys().len() && 0 <= b < cell.keys().len() && a != b implies cell.keys()[a]
                != cell.keys()[b] by {
                if a < old_props@.len() && b < old_props@.len() {
                    assert(old_cell.keys()[a] != old_cell.keys()[b]);
                }
            }
        }
        heap.replace(place, cell);
        (Ok(()), None)
    }
}

/// What `set_property` does to the store.
///
/// On success the object has the property and is otherwise as it
/// was: a property of that name has the new value in its old place,
/// a new property comes last. On failure nothing has changed.
pub open spec fn property_set(
    before: Seq<HeapCell>,
    after: Seq<HeapCell>,
    object: RawJsValue,
    name: Seq<char>,
    value: RawJsValue,
    r: Result<(), ExecutionError>,
) -> bool {
    if has_zero(name) {
        after == before && (r matches Err(ExecutionError::Conversion(e)) && e
            == ValueError::StringWithZeroBytes)
    } else {
        match target_cell(before, object) {
            Some(HeapCell::Object(old_props)) => {
                let place = object.payload->Ptr_0 as int;
                &&& r is Ok
                &&& after == before.update(place, after[place])
                &&& after[place] matches HeapCell::Object(props) && (match key_index(
                    old_props@,
                    name,
                ) {
                    Some(i) => props@.len() == old_props@.len() && forall|k: int|
                        0 <= k < props@.len() ==> (#[trigger] props@[k]).key@ == old_props@[k].key@
                            && props@[k].value == (if k == i {
                            value
                        } else {
                            old_props@[k].value
                        }),
                    None => props@.len() == old_props@.len() + 1 && props@.last().key@ == name
                        && props@.last().value == value && forall|k: int|
                        0 <= k < old_props@.len() ==> (#[trigger] props@[k]).key@
                            == old_props@[k].key@ && props@[k].value == old_props@[k].value,
                })
            },
            _ => after == before && (r matches Err(ExecutionError::Internal(m)) && m@
                == "Could not set property"@),
        }
    }
}

} // verus!

verus! {

/// What one step of the walk over an object's properties hands out.
#[derive(Debug, PartialEq, Eq)]
pub enum PropertyItem {
    /// The key of the property that the walk has reached.
    Key(String),
    /// The value of the property whose key was handed out before.
    Value(OwnedJsValue),
}

/// The walk over the own, enumerable properties of an object.
///
/// The keys are taken when the walk is made; each value is read when
/// the walk reaches it. The walk hands out a key, then its value, then
/// the next key, and ends for good with the first value that cannot
/// be read.
#[derive(Debug, PartialEq, Eq)]
pub struct OwnedJsPropertyIterator {
    object: OwnedJsObject,
    keys: Vec<String>,
    index: usize,
    at_value: bool,
    failed: bool,
}

impl OwnedJsPropertyIterator {
    /// The object that is walked.
    pub closed spec fn object(&self) -> OwnedJsObject {
        self.object
    }

    /// The keys that were taken when the walk was made.
    pub closed spec fn keys(&self) -> Seq<Seq<char>> {
        Seq::new(self.keys@.len(), |i: int| self.keys@[i]@)
    }

    /// The number of properties that the walk has left behind.
    pub closed spec fn index(&self) -> nat {
        self.index as nat
    }

    /// The key at `index` was handed out, its value comes next.
    pub closed spec fn at_value(&self) -> bool {
        self.at_value
    }

    /// A value could not be read; the walk is over.
    pub closed spec fn failed(&self) -> bool {
        self.failed
    }

    /// The walk is over.
    pub open spec fn done(&self) -> bool {
        self.failed() || self.index() >= self.keys().len()
    }

    /// The number of steps that the walk can still make.
    pub open spec fn remaining(&self) -> nat {
        if self.done() {
            0
        } else {
            (2 * (self.keys().len() - self.index()) - (if self.at_value() {
                1int
            } else {
                0int
            })) as nat
        }
    }

    /// Starts a walk over `object`, which the walk owns from then on.
    pub fn from_object(heap: &Heap, object: OwnedJsObject) -> (r: Result<
        OwnedJsPropertyIterator,
        ValueError,
    >)
        ensures
            r matches Ok(it) && it.object() == object && it.index() == 0 && !it.at_value()
                && !it.failed() && it.keys() == (match target_cell(heap@, object.raw()) {
                Some(cell) => cell.keys(),
                None => Seq::empty(),
            }),
    {
        let raw = object.value.as_inner();
        let mut keys: Vec<String> = Vec::new();
        match heap.target(&raw) {
            Some(HeapCell::Object(props)) => {
                let mut i: usize = 0;
                while i < props.len()
                    invariant
                        i <= props.len(),
                        keys@.len() == i,
                        forall|k: int| 0 <= k < i ==> (#[trigger] keys@[k])@ == props@[k].key@,
                    decreases props.len() - i,
                {
                    keys.push(props[i].key.clone());
                    i += 1;
                }
                let it = OwnedJsPropertyIterator {
                    object,
                    keys,
                    index: 0,
                    at_value: false,
                    failed: false,
                };
                assert(it.keys() =~= target_cell(heap@, raw)->Some_0.keys());
                Ok(it)
            },
            Some(_) => {
                let it = OwnedJsPropertyIterator {
                    object,
                    keys,
                    index: 0,
                    at_value: false,
                    failed: false,
                };
                assert(it.keys() =~= target_cell(heap@, raw)->Some_0.keys());
                Ok(it)
            },
            None => {
                let it = OwnedJsPropertyIterator {
                    object,
                    keys,
                    index: 0,
                    at_value: false,
                    failed: false,
                };
                assert(it.keys() =~= Seq::<Seq<char>>::empty());
                Ok(it)
            },
        }
    }

    /// The next step of the walk: `None` once it is over.
    pub fn next(&mut self, heap: &Heap) -> (r: Option<Result<PropertyItem, ExecutionError>>)
        ensures
            final(self).object() == old(self).object(),
            final(self).keys() == old(self).keys(),
            walk_step(*old(self), *final(self), heap@, r),
    {
        if self.failed || self.index >= self.keys.len() {
            return None;
        }
        let ghost keys_before = self.keys();
        if !self.at_value {
            let key = self.keys[self.index].clone();
            self.at_value = true;
            assert(self.keys() =~= keys_before);
            Some(Ok(PropertyItem::Key(key)))
        } else {
            let raw = self.object.value.as_inner();
            let found = match heap.target(&raw) {
                Some(HeapCell::Object(props)) => {
                    match find_key(props, &self.keys[self.index]) {
                        Some(i) => props[i].value,
                        None => crate::utils::create_undefined(),
                    }
                },
                _ => crate::utils::create_undefined(),
            };
            if found.tag.is_exception() {
                self.failed = true;
                assert(self.keys() =~= keys_before);
                Some(
                    Err(ExecutionError::Internal(String::from_str("Could not get object property"))),
                )
            } else {
                self.index = self.index + 1;
                self.at_value = false;
                assert(self.keys() =~= keys_before);
                Some(
                    Ok(PropertyItem::Value(OwnedJsValue::new(self.object.value.context(), found))),
                )
            }
        }
    }

    /// Ends the walk: the object that it owned is released.
    pub fn finish(self) -> (op: RefOp)
        ensures
            op == RefOp::Free(self.object().raw()),
    {
        self.object.value.release()
    }
}

/// One step of the walk, from the state `before` to the state `after`.
pub open spec fn walk_step(
    before: OwnedJsPropertyIterator,
    after: OwnedJsPropertyIterator,
    cells: Seq<HeapCell>,
    r: Option<Result<PropertyItem, ExecutionError>>,
) -> bool {
    if before.done() {
        r is None && after.index() == before.index() && after.at_value() == before.at_value()
            && after.failed() == before.failed()
    } else if !before.at_value() {
        &&& r matches Some(Ok(PropertyItem::Key(k))) && k@ == before.keys()[before.index() as int]
        &&& after.index() == before.index()
        &&& after.at_value()
        &&& !after.failed()
    } else {
        let value = property_in(
            cells,
            before.object().raw(),
            before.keys()[before.index() as int],
        );
        if value.tag is Exception {
            &&& r matches Some(Err(ExecutionError::Internal(m))) && m@
                == "Could not get object property"@
            &&& after.failed()
            &&& after.index() == before.index()
        } else {
            &&& r matches Some(Ok(PropertyItem::Value(v))) && v.spec_inner() == value
                && v.spec_context() == before.object().spec_value().spec_context()
            &&& after.index() == before.index() + 1
            &&& !after.at_value()
            &&& !after.failed()
        }
    }
}

/// Every step that hands something out brings the walk nearer to its
/// end, and a walk that is over stays over.
pub proof fn lemma_walk_ends(
    before: OwnedJsPropertyIterator,
    after: OwnedJsPropertyIterator,
    cells: Seq<HeapCell>,
    r: Option<Result<PropertyItem, ExecutionError>>,
)
    requires
        walk_step(before, after, cells, r),
        after.keys() == before.keys(),
    ensures
        r is Some ==> after.remaining() < before.remaining(),
        r is None <==> before.done(),
        before.done() ==> after.done(),
        r matches Some(Err(_)) ==> after.done(),
{
}

} // verus!
