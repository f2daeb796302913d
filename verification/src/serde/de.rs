//! The cursor that walks a value of a store as structured data.
//!
//! The cursor keeps the containers that it has entered as a stack of
//! frames. Entering a container that is already on the stack would
//! never end, so it is refused as a `CircularReference`.

use super::error::Error;
use crate::errors::ValueError;
use crate::tag::JsTag;
use crate::value::array::{element_in, OwnedJsArray};
use crate::value::heap::{is_array_in, is_proxy_in, target_cell, Heap, HeapCell};
use crate::value::object::{walk_step, OwnedJsObject, OwnedJsPropertyIterator, PropertyItem};
use crate::value::raw::{Payload, RawJsValue};
use crate::value::value::OwnedJsValue;
use vstd::prelude::*;
use vstd::string::StringExecFns;

verus! {

/// What the cursor stands on: a value, or the key of a property.
#[derive(Debug, PartialEq, Eq)]
pub enum Current {
    Value(RawJsValue),
    Key(String),
}

/// One container that the cursor has entered.
#[derive(Debug, PartialEq, Eq)]
pub struct Frame {
    /// The container.
    pub container: RawJsValue,
    /// The number of steps made in it.
    pub index: u32,
    /// The walk over the properties, where the container was entered as an object.
    pub iter: Option<OwnedJsPropertyIterator>,
}

/// The value behind `v`: `v` itself, or the target where `v` is a
/// proxy, followed through at most `fuel` proxies.
pub open spec fn behind_proxy(cells: Seq<HeapCell>, v: RawJsValue, fuel: nat) -> RawJsValue
    decreases fuel,
{
    match target_cell(cells, v) {
        Some(HeapCell::Proxy(target)) if fuel > 0 => behind_proxy(cells, target, (fuel - 1) as nat),
        _ => v,
    }
}

/// Some frame of `frames` holds the same value as `v`.
pub open spec fn on_stack(frames: Seq<Frame>, v: RawJsValue) -> bool {
    exists|i: int| 0 <= i < frames.len() && (#[trigger] frames[i]).container.same(&v)
}

/// No two frames hold the same container.
pub open spec fn frames_distinct(frames: Seq<Frame>) -> bool {
    forall|i: int, j: int|
        0 <= i < frames.len() && 0 <= j < frames.len() && i != j ==> !(
        #[trigger] frames[i]).container.same(&(#[trigger] frames[j]).container)
}

/// A cursor over a value of a store.
pub struct Deserializer<'h> {
    heap: &'h Heap,
    context: usize,
    root: RawJsValue,
    paths: Vec<Frame>,
    current: Option<Current>,
}

impl<'h> Deserializer<'h> {
    /// The store that is read.
    pub closed spec fn heap(&self) -> Seq<HeapCell> {
        self.heap@
    }

    /// The value that the walk started at.
    pub closed spec fn root(&self) -> RawJsValue {
        self.root
    }

    /// The frames, outermost first.
    pub closed spec fn frames(&self) -> Seq<Frame> {
        self.paths@
    }

    /// What the cursor stands on, where it has moved.
    pub closed spec fn current(&self) -> Option<Current> {
        self.current
    }

    /// What the cursor stands on: the root while it has not moved.
    pub open spec fn spec_get_current(&self) -> Current {
        match self.current() {
            Some(c) => c,
            None => Current::Value(self.root()),
        }
    }

    /// The value that the cursor stands on; `undefined` on a key.
    pub open spec fn current_value(&self) -> RawJsValue {
        match self.spec_get_current() {
            Current::Value(v) => v,
            Current::Key(_) => RawJsValue::spec_undefined(),
        }
    }

    /// No container is on the stack twice.
    pub open spec fn wf(&self) -> bool {
        frames_distinct(self.frames())
    }

    /// A cursor that stands on `root`.
    pub fn from_js(heap: &'h Heap, context: usize, root: &OwnedJsValue) -> (de: Deserializer<'h>)
        ensures
            de.heap() == heap@,
            de.root() == root.spec_inner(),
            de.frames() == Seq::<Frame>::empty(),
            de.current() == Some(Current::Value(root.spec_inner())),
            de.wf(),
    {
        Deserializer {
            heap,
            context,
            root: root.as_inner(),
            paths: Vec::new(),
            current: Some(Current::Value(root.as_inner())),
        }
    }

    /// The value that the cursor stands on; `undefined` on a key.
    pub fn get_current(&self) -> (v: RawJsValue)
        ensures
            v == self.current_value(),
    {
        match &self.current {
            Some(Current::Value(v)) => *v,
            Some(Current::Key(_)) => crate::utils::create_undefined(),
            None => self.root,
        }
    }

    /// The number of containers that the cursor is in.
    pub fn depth(&self) -> (n: usize)
        ensures
            n == self.frames().len(),
    {
        self.paths.len()
    }

    /// Fails with `CircularReference` exactly when `candidate` is a
    /// container that the cursor is in already.
    pub fn guard_circular_reference(&self, candidate: &RawJsValue) -> (r: Result<(), Error>)
        ensures
            r is Err <==> on_stack(self.frames(), *candidate),
            r matches Err(e) ==> e matches Error::CircularReference,
    {
        let mut i: usize = 0;
        while i < self.paths.len()
            invariant
                i <= self.paths.len(),
                forall|k: int| 0 <= k < i ==> !(#[trigger] self.paths@[k]).container.same(candidate),
            decreases self.paths.len() - i,
        {
            if self.paths[i].container.is_same(candidate) {
                return Err(Error::CircularReference);
            }
            i += 1;
        }
        Ok(())
    }

    /// The value behind the one that the cursor stands on: a proxy
    /// gives way to its target.
    fn unwrapped(&self) -> (v: RawJsValue)
        ensures
            v == behind_proxy(self.heap(), self.current_value(), self.heap().len()),
    {
        let mut v = self.get_current();
        let mut left = self.heap.len();
        loop
            invariant
                left <= self.heap@.len(),
                behind_proxy(self.heap@, v, left as nat) == behind_proxy(
                    self.heap@,
                    self.current_value(),
                    self.heap@.len(),
                ),
            ensures
                v == behind_proxy(self.heap@, self.current_value(), self.heap@.len()),
            decreases left,
        {
            match self.heap.target(&v) {
                Some(HeapCell::Proxy(target)) => {
                    if left == 0 {
                        break ;
                    }
                    v = *target;
                    left = left - 1;
                },
                _ => {
                    break ;
                },
            }
        }
        v
    }

    /// Enters the array that the cursor stands on.
    ///
    /// That is an `ExpectedArray` where the value, seen through any
    /// proxy, is no array, and a `CircularReference` where the cursor
    /// is in that array already. The cursor then stays as it is.
    pub fn enter_array(&mut self) -> (r: Result<(), Error>)
        requires
            old(self).wf(),
        ensures
            final(self).wf(),
            final(self).heap() == old(self).heap(),
            final(self).root() == old(self).root(),
            final(self).current() == old(self).current(),
            entered(
                old(self).frames(),
                final(self).frames(),
                behind_proxy(old(self).heap(), old(self).current_value(), old(self).heap().len()),
                is_array_in(
                    old(self).heap(),
                    behind_proxy(
                        old(self).heap(),
                        old(self).current_value(),
                        old(self).heap().len(),
                    ),
                ),
                false,
                r,
            ),
    {
        let current = self.unwrapped();
        let is_array = matches!(self.heap.target(&current), Some(HeapCell::Array(_)));
        if is_array {
            match self.guard_circular_reference(&current) {
                Ok(()) => {},
                Err(e) => {
                    return Err(e);
                },
            }
            self.paths.push(Frame { container: current, index: 0, iter: None });
            assert(self.paths@.drop_last() =~= old(self).paths@);
            Ok(())
        } else {
            Err(Error::ExpectedArray)
        }
    }

    /// Enters the object that the cursor stands on.
    ///
    /// That is an `ExpectedObject` where the value, seen through any
    /// proxy, is no object, and a `CircularReference` where the cursor
    /// is in that object already. The cursor then stays as it is.
    pub fn enter_object(&mut self) -> (r: Result<(), Error>)
        requires
            old(self).wf(),
        ensures
            final(self).wf(),
            final(self).heap() == old(self).heap(),
            final(self).root() == old(self).root(),
            final(self).current() == old(self).current(),
            entered(
                old(self).frames(),
                final(self).frames(),
                behind_proxy(old(self).heap(), old(self).current_value(), old(self).heap().len()),
                behind_proxy(
                    old(self).heap(),
                    old(self).current_value(),
                    old(self).heap().len(),
                ).tag is Object,
                true,
                r,
            ),
    {
        let current = self.unwrapped();
        if current.tag.is_object() {
            match self.guard_circular_reference(&current) {
                Ok(()) => {},
                Err(e) => {
                    return Err(e);
                },
            }
            let object = match OwnedJsObject::try_from_value(
                OwnedJsValue::new(self.context, current),
            ) {
                Ok(o) => o,
                Err(_) => {
                    return Err(Error::ExpectedObject);
                },
            };
            let iter = match OwnedJsPropertyIterator::from_object(self.heap, object) {
                Ok(it) => it,
                Err(e) => {
                    return Err(Error::ValueError(e));
                },
            };
            self.paths.push(Frame { container: current, index: 0, iter: Some(iter) });
            assert(self.paths@.drop_last() =~= old(self).paths@);
            Ok(())
        } else {
            Err(Error::ExpectedObject)
        }
    }

    /// Leaves the innermost container: the cursor then stands on it.
    /// Outside of any container nothing changes.
    pub fn leave(&mut self)
        requires
            old(self).wf(),
        ensures
            final(self).wf(),
            final(self).heap() == old(self).heap(),
            final(self).root() == old(self).root(),
            if old(self).frames().len() == 0 {
                final(self).frames() == old(self).frames() && final(self).current() == old(self).current()
            } else {
                final(self).frames() == old(self).frames().drop_last() && final(self).current()
                    == Some(Current::Value(old(self).frames().last().container))
            },
    {
        if let Some(frame) = self.paths.pop() {
            self.current = Some(Current::Value(frame.container));
        }
    }

    /// The text of the string that the cursor stands on.
    pub fn parse_string(&self) -> (r: Result<String, Error>)
        ensures
            match self.spec_get_current() {
                Current::Key(k) => r matches Ok(s) && s@ == k@,
                Current::Value(v) => match target_cell(self.heap(), v) {
                    Some(HeapCell::Text(t)) => r matches Ok(s) && s@ == t@,
                    _ => r matches Err(Error::ExpectedString),
                },
            },
    {
        match &self.current {
            Some(Current::Key(k)) => Ok(k.clone()),
            Some(Current::Value(v)) => match self.heap.target(v) {
                Some(HeapCell::Text(t)) => Ok(t.clone()),
                _ => Err(Error::ExpectedString),
            },
            None => match self.heap.target(&self.root) {
                Some(HeapCell::Text(t)) => Ok(t.clone()),
                _ => Err(Error::ExpectedString),
            },
        }
    }

    /// Whether the cursor stands on `null` or `undefined`, which read as no value.
    pub fn is_none(&self) -> (r: bool)
        ensures
            r == (match self.spec_get_current() {
                Current::Value(v) => v.tag is Null || v.tag is Undefined,
                Current::Key(_) => false,
            }),
    {
        match &self.current {
            Some(Current::Value(v)) => v.tag.is_null() || v.tag.is_undefined(),
            Some(Current::Key(_)) => false,
            None => self.root.tag.is_null() || self.root.tag.is_undefined(),
        }
    }
}

/// What entering a container does to the stack.
///
/// `container` is the value to enter, `fits` says whether it is of
/// the kind that was asked for, and `as_object` whether it is
/// entered as an object. On success a frame for `container` is on
/// top; on failure the stack is as it was.
pub open spec fn entered(
    before: Seq<Frame>,
    after: Seq<Frame>,
    container: RawJsValue,
    fits: bool,
    as_object: bool,
    r: Result<(), Error>,
) -> bool {
    if !fits {
        after == before && (if as_object {
            r matches Err(Error::ExpectedObject)
        } else {
            r matches Err(Error::ExpectedArray)
        })
    } else if on_stack(before, container) {
        after == before && r matches Err(Error::CircularReference)
    } else {
        &&& r is Ok
        &&& after.len() == before.len() + 1
        &&& after.drop_last() == before
        &&& after.last().container == container
        &&& after.last().index == 0
        &&& after.last().iter is Some == as_object
    }
}

/// A container cannot be entered while the cursor is in it: the
/// second attempt is a `CircularReference`, whatever lies between.
pub proof fn lemma_reentry_is_circular(
    before: Seq<Frame>,
    after: Seq<Frame>,
    container: RawJsValue,
    fits: bool,
    as_object: bool,
    r: Result<(), Error>,
)
    requires
        entered(before, after, container, fits, as_object, r),
        fits,
        on_stack(before, container),
    ensures
        r matches Err(Error::CircularReference),
        after == before,
{
}

} // verus!

verus! {

/// What the data type that is being read is shown for a value.
#[derive(Debug, PartialEq, Eq)]
pub enum Visit {
    Unit,
    Bool(bool),
    I32(i32),
    I64(i64),
    /// A float, as its bits.
    F64(u64),
    String(String),
    /// An array: to be read element by element.
    Sequence,
    /// An object: to be read property by property.
    Mapping,
}

/// What `deserialize_any` shows for what the cursor stands on.
pub open spec fn visits(cells: Seq<HeapCell>, current: Current, r: Result<Visit, Error>) -> bool {
    match current {
        Current::Key(k) => r matches Ok(Visit::String(s)) && s@ == k@,
        Current::Value(v) => match v.tag {
            JsTag::Undefined
            | JsTag::Null
            | JsTag::Symbol
            | JsTag::Module
            | JsTag::CatchOffset
            | JsTag::Uninitialized
            | JsTag::FunctionBytecode => r matches Ok(Visit::Unit),
            JsTag::Int => r matches Ok(Visit::I32(i)) && i == (match v.payload {
                Payload::Int(x) => x,
                _ => 0i32,
            }),
            JsTag::Bool => r matches Ok(Visit::Bool(b)) && b == (match v.payload {
                Payload::Bool(x) => x,
                _ => false,
            }),
            JsTag::Float64 => r matches Ok(Visit::F64(bits)) && bits == (match v.payload {
                Payload::Float64(x) => x,
                _ => 0u64,
            }),
            JsTag::String => match target_cell(cells, v) {
                Some(HeapCell::Text(t)) => r matches Ok(Visit::String(s)) && s@ == t@,
                _ => r matches Err(Error::ValueError(ValueError::Internal(m))) && m@
                    == "Could not convert string: got a null pointer"@,
            },
            JsTag::Object => if is_array_in(cells, v) {
                r matches Ok(Visit::Sequence)
            } else {
                r matches Ok(Visit::Mapping)
            },
            JsTag::Exception => r matches Ok(Visit::Mapping),
            JsTag::BigInt => match target_cell(cells, v) {
                Some(HeapCell::BigInt(b)) => match b.inner {
                    crate::value::bigint::BigIntOrI64::Int(i) => r matches Ok(Visit::I64(x)) && x
                        == i,
                    _ => r matches Ok(Visit::I64(_)) || r matches Err(Error::BigIntOverflow),
                },
                _ => r matches Err(Error::ValueError(ValueError::UnexpectedType)),
            },
        },
    }
}

/// What `deserialize_enum` does, from the cursor `before` to the
/// cursor `after`.
pub open spec fn enum_started(
    before: Deserializer,
    after: Deserializer,
    r: Result<Option<String>, Error>,
) -> bool {
    match before.spec_get_current() {
        Current::Value(v) if v.tag is Object => {
            let container = behind_proxy(before.heap(), v, before.heap().len());
            if !(container.tag is Object) {
                &&& r matches Err(Error::ExpectedObject)
                &&& after.frames() == before.frames()
                &&& after.current() == before.current()
            } else if on_stack(before.frames(), container) {
                &&& r matches Err(Error::CircularReference)
                &&& after.frames() == before.frames()
                &&& after.current() == before.current()
            } else {
                &&& after.frames().len() == before.frames().len() + 1
                &&& after.frames().drop_last() == before.frames()
                &&& exists|first: Frame, step: Result<Option<()>, Error>|
                    #![trigger moved(before.heap(), first, after.frames().last(), before.current(), after.current(), step)]
                    {
                        &&& first.container == container
                        &&& first.index == 0
                        &&& first.iter is Some
                        &&& moved(
                            before.heap(),
                            first,
                            after.frames().last(),
                            before.current(),
                            after.current(),
                            step,
                        )
                        &&& match step {
                            Ok(_) => r == Ok::<Option<String>, Error>(None),
                            Err(e) => r == Err::<Option<String>, Error>(e),
                        }
                    }
            }
        },
        Current::Value(v) => {
            &&& after.frames() == before.frames()
            &&& after.current() == before.current()
            &&& match target_cell(before.heap(), v) {
                Some(HeapCell::Text(t)) => r matches Ok(Some(s)) && s@ == t@,
                _ => r matches Err(Error::ExpectedString),
            }
        },
        Current::Key(k) => {
            &&& after.frames() == before.frames()
            &&& after.current() == before.current()
            &&& r matches Ok(Some(s)) && s@ == k@
        },
    }
}

/// One step of the cursor inside the innermost container.
pub open spec fn moved(
    cells: Seq<HeapCell>,
    before: Frame,
    after: Frame,
    old_current: Option<Current>,
    new_current: Option<Current>,
    r: Result<Option<()>, Error>,
) -> bool {
    &&& after.container == before.container
    &&& if is_array_in(cells, before.container) {
        let item = element_in(cells, before.container, before.index as int);
        &&& after.iter == before.iter
        &&& if item.tag is Exception {
            &&& r matches Err(Error::ExecutionError(crate::errors::ExecutionError::Internal(m)))
                && m@ == "Could not build array"@
            &&& after.index == before.index
            &&& new_current == old_current
        } else if item.tag is Undefined || before.index == u32::MAX {
            &&& r == Ok::<Option<()>, Error>(None)
            &&& after.index == before.index
            &&& new_current == old_current
        } else {
            &&& r == Ok::<Option<()>, Error>(Some(()))
            &&& after.index == before.index + 1
            &&& new_current == Some(Current::Value(item))
        }
    } else if before.container.tag is Object && before.iter is Some {
        let it = before.iter->Some_0;
        &&& after.iter matches Some(next) && next.keys() == it.keys() && next.object()
            == it.object() && exists|step: Option<Result<PropertyItem, crate::errors::ExecutionError>>|
         #[trigger]
            walk_step(it, next, cells, step) && (match step {
                None => r == Ok::<Option<()>, Error>(None) && new_current == old_current
                    && after.index == before.index,
                Some(Ok(PropertyItem::Key(k))) => r == Ok::<Option<()>, Error>(Some(()))
                    && new_current == Some(Current::Key(k)),
                Some(Ok(PropertyItem::Value(v))) => r == Ok::<Option<()>, Error>(Some(()))
                    && new_current == Some(Current::Value(v.spec_inner())),
                Some(Err(e)) => r == Err::<Option<()>, Error>(Error::ExecutionError(e))
                    && new_current == old_current && after.index == before.index,
            })
    } else {
        &&& after == before
        &&& new_current == old_current
        &&& r matches Err(Error::ExpectedArrayOrObject)
    }
}

impl<'h> Deserializer<'h> {
    /// Moves the cursor to what comes next in the innermost
    /// container: the next element of an array, or the next key or
    /// value of an object. `None` says that nothing is left, and the
    /// cursor stays where it was.
    pub fn next(&mut self) -> (r: Result<Option<()>, Error>)
        requires
            old(self).wf(),
            old(self).frames().len() > 0,
        ensures
            final(self).wf(),
            final(self).heap() == old(self).heap(),
            final(self).root() == old(self).root(),
            final(self).frames().len() == old(self).frames().len(),
            final(self).frames().drop_last() == old(self).frames().drop_last(),
            moved(
                old(self).heap(),
                old(self).frames().last(),
                final(self).frames().last(),
                old(self).current(),
                final(self).current(),
                r,
            ),
    {
        let ghost before = self.paths@;
        let frame = self.paths.pop().unwrap();
        let Frame { container, index, iter } = frame;
        let is_array = matches!(self.heap.target(&container), Some(HeapCell::Array(_)));
        let (back, r) = if is_array {
            let found = match self.heap.target(&container) {
                Some(HeapCell::Array(items)) => {
                    if (index as usize) < items.len() {
                        items[index as usize]
                    } else {
                        crate::utils::create_undefined()
                    }
                },
                _ => crate::utils::create_undefined(),
            };
            if found.tag.is_exception() {
                (
                    Frame { container, index, iter },
                    Err(
                        Error::ExecutionError(
                            crate::errors::ExecutionError::Internal(
                                String::from_str("Could not build array"),
                            ),
                        ),
                    ),
                )
            } else if found.tag.is_undefined() || index == u32::MAX {
                (Frame { container, index, iter }, Ok(None))
            } else {
                self.current = Some(Current::Value(found));
                (Frame { container, index: index + 1, iter }, Ok(Some(())))
            }
        } else if container.tag.is_object() {
            match iter {
                Some(mut it) => {
                    let ghost it_before = it;
                    let step = it.next(self.heap);
                    let ghost witness = step;
                    assert(walk_step(it_before, it, self.heap@, witness));
                    let next_index = if index < u32::MAX {
                        index + 1
                    } else {
                        index
                    };
                    match step {
                        None => (Frame { container, index, iter: Some(it) }, Ok(None)),
                        Some(Ok(PropertyItem::Key(k))) => {
                            self.current = Some(Current::Key(k));
                            (Frame { container, index: next_index, iter: Some(it) }, Ok(Some(())))
                        },
                        Some(Ok(PropertyItem::Value(v))) => {
                            self.current = Some(Current::Value(v.as_inner()));
                            (Frame { container, index: next_index, iter: Some(it) }, Ok(Some(())))
                        },
                        Some(Err(e)) => (
                            Frame { container, index, iter: Some(it) },
                            Err(Error::ExecutionError(e)),
                        ),
                    }
                },
                None => (Frame { container, index, iter: None }, Err(Error::ExpectedArrayOrObject)),
            }
        } else {
            (Frame { container, index, iter }, Err(Error::ExpectedArrayOrObject))
        };
        self.paths.push(back);
        proof {
            assert(self.paths@.drop_last() =~= before.drop_last());
            assert forall|i: int, j: int|
                0 <= i < self.paths@.len() && 0 <= j < self.paths@.len() && i != j implies !(
            #[trigger] self.paths@[i]).container.same(&(#[trigger] self.paths@[j]).container) by {
                assert(self.paths@[i].container == before[i].container);
                assert(self.paths@[j].container == before[j].container);
            }
            assert(self.paths@.last() == back);
            assert(moved(
                self.heap@,
                before.last(),
                self.paths@.last(),
                old(self).current,
                self.current,
                r,
            ));
        }
        r
    }

    /// Starts the reading of an enum. Where the cursor stands on an
    /// object, the object is entered as by `enter_object` and the
    /// cursor makes one step as by `next`, which brings it to the
    /// key that names the variant; `None` is returned. Any other
    /// value must be a string, which names a variant without fields
    /// and is returned.
    pub fn deserialize_enum(&mut self) -> (r: Result<Option<String>, Error>)
        requires
            old(self).wf(),
        ensures
            final(self).wf(),
            final(self).heap() == old(self).heap(),
            final(self).root() == old(self).root(),
            enum_started(*old(self), *final(self), r),
    {
        let is_object = match &self.current {
            Some(Current::Value(v)) => v.tag.is_object(),
            Some(Current::Key(_)) => false,
            None => self.root.tag.is_object(),
        };
        if is_object {
            match self.enter_object() {
                Ok(()) => {},
                Err(e) => {
                    return Err(e);
                },
            }
            let ghost first = self.paths@.last();
            let step = self.next();
            proof {
                let witness: Result<Option<()>, Error> = step;
                assert(moved(
                    self.heap@,
                    first,
                    self.paths@.last(),
                    old(self).current,
                    self.current,
                    witness,
                ));
                assert(self.paths@.drop_last() =~= old(self).paths@);
            }
            match step {
                Ok(_) => Ok(None),
                Err(e) => Err(e),
            }
        } else {
            match self.parse_string() {
                Ok(s) => Ok(Some(s)),
                Err(e) => Err(e),
            }
        }
    }

    /// Shows what the cursor stands on: a plain value as itself, an
    /// array as a sequence, any other object as a map.
    ///
    /// A symbol, a module, a compiled function and the engine's own
    /// markers read as the unit; a big integer must fit 64 bits.
    pub fn deserialize_any(&self) -> (r: Result<Visit, Error>)
        ensures
            visits(self.heap(), self.spec_get_current(), r),
    {
        let v = match &self.current {
            Some(Current::Key(k)) => {
                return Ok(Visit::String(k.clone()));
            },
            Some(Current::Value(v)) => *v,
            None => self.root,
        };
        match v.tag {
            JsTag::Undefined => Ok(Visit::Unit),
            JsTag::Int => Ok(
                Visit::I32(
                    match v.payload {
                        Payload::Int(x) => x,
                        _ => 0,
                    },
                ),
            ),
            JsTag::Bool => Ok(
                Visit::Bool(
                    match v.payload {
                        Payload::Bool(x) => x,
                        _ => false,
                    },
                ),
            ),
            JsTag::Null => Ok(Visit::Unit),
            JsTag::String => match self.heap.target(&v) {
                Some(HeapCell::Text(t)) => Ok(Visit::String(t.clone())),
                _ => Err(
                    Error::ValueError(
                        ValueError::Internal(
                            String::from_str(
                                "Could not convert string: got a null pointer",
                            ),
                        ),
                    ),
                ),
            },
            JsTag::Float64 => Ok(
                Visit::F64(
                    match v.payload {
                        Payload::Float64(x) => x,
                        _ => 0,
                    },
                ),
            ),
            JsTag::Object => {
                if matches!(self.heap.target(&v), Some(HeapCell::Array(_))) {
                    Ok(Visit::Sequence)
                } else {
                    Ok(Visit::Mapping)
                }
            },
            JsTag::Symbol => Ok(Visit::Unit),
            JsTag::Module => Ok(Visit::Unit),
            JsTag::Exception => Ok(Visit::Mapping),
            JsTag::CatchOffset => Ok(Visit::Unit),
            JsTag::Uninitialized => Ok(Visit::Unit),
            JsTag::FunctionBytecode => Ok(Visit::Unit),
            JsTag::BigInt => match self.heap.target(&v) {
                Some(HeapCell::BigInt(b)) => match b.as_i64() {
                    Some(i) => Ok(Visit::I64(i)),
                    None => Err(Error::BigIntOverflow),
                },
                _ => Err(Error::ValueError(ValueError::UnexpectedType)),
            },
        }
    }
}

} // verus!
