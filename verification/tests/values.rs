use quickjs_rusty::serde::{from_js, to_js, Current, Deserializer, Error, Visit};
use quickjs_rusty::serde::ser::{
    serialize_newtype_variant, serialize_none, serialize_some, serialize_struct_variant,
    serialize_tuple_variant, serialize_unit, serialize_unit_variant,
};
use quickjs_rusty::context::PendingException;
use quickjs_rusty::convert::JsValue;
use quickjs_rusty::utils::{
    add_array_element, add_object_property, create_bool, create_empty_array, create_empty_object,
    create_function, create_int, create_null, create_string, create_undefined,
    deserialize_borrowed_str, own_raw_value,
};
use quickjs_rusty::value::bigint::{create_bigint, create_bigint_checked, to_bigint};
use quickjs_rusty::value::date::{create_date, date_from_timestamp, to_date};
use quickjs_rusty::value::read::{array_items, object_entries};
use quickjs_rusty::value::{
    AtomOp, BigIntAnswer, BigIntOrI64, BigIntRequest, Heap, HeapCell, JsBigInt,
    JsCompiledFunction, JsFunction, JsModule, OwnedJsArray, OwnedJsAtom, OwnedJsObject,
    OwnedJsPromise, OwnedJsPropertyIterator, OwnedJsValue, Payload, PromiseState, Property,
    PropertyItem, RawJsValue, RefOp, Timestamp,
};
use quickjs_rusty::{ExecutionError, JsTag, ValueError};

fn own(raw: RawJsValue) -> OwnedJsValue {
    OwnedJsValue::new(1, raw)
}

fn text(heap: &mut Heap, s: &str) -> RawJsValue {
    create_string(heap, s).unwrap()
}

#[test]
fn typed_views_check_their_kind() {
    let mut heap = Heap::new();
    let s = text(&mut heap, "abc");
    let a = heap.store(HeapCell::Array(vec![create_int(1), create_int(2)]));
    let o = heap.store(HeapCell::Object(vec![]));
    let f = heap.store(HeapCell::Function);
    let p = heap.store(HeapCell::Promise(PromiseState::Fulfilled, create_int(5)));
    let m = heap.store(HeapCell::Module);
    let c = heap.store(HeapCell::FunctionBytecode);

    assert!(own(a).is_array(&heap));
    assert!(!own(o).is_array(&heap));
    assert!(own(a).is_object());
    assert!(own(f).is_function(&heap));
    assert!(!own(o).is_function(&heap));
    assert!(own(p).is_promise(&heap));
    assert!(!own(o).is_promise(&heap));
    assert!(own(s).is_string());
    assert!(own(m).is_module());
    assert!(own(c).is_compiled_function());

    assert!(OwnedJsArray::try_from_value(&heap, own(a)).is_ok());
    assert_eq!(
        OwnedJsArray::try_from_value(&heap, own(o)).unwrap_err(),
        (ValueError::UnexpectedType, own(o))
    );
    assert!(OwnedJsObject::try_from_value(own(a)).is_ok());
    assert_eq!(
        OwnedJsObject::try_from_value(own(s)).unwrap_err(),
        (ValueError::UnexpectedType, own(s))
    );
    assert!(own(f).try_into_function(&heap).is_ok());
    assert_eq!(
        JsFunction::try_from_value(&heap, own(create_int(1))).unwrap_err(),
        (ValueError::UnexpectedType, own(create_int(1)))
    );
    assert!(own(p).try_into_promise(&heap).is_ok());
    assert_eq!(
        OwnedJsPromise::try_from_value(&heap, own(o)).unwrap_err(),
        (ValueError::UnexpectedType, own(o))
    );
    assert!(own(m).try_into_module().is_ok());
    assert_eq!(
        JsModule::try_from_value(own(o)).unwrap_err(),
        (ValueError::UnexpectedType, own(o))
    );
    assert!(own(c).try_into_compiled_function().is_ok());
    assert_eq!(
        JsCompiledFunction::try_from_value(own(s)).unwrap_err(),
        (ValueError::UnexpectedType, own(s))
    );
    let (_, back) = own(o).try_into_function(&heap).unwrap_err();
    assert!(back.try_into_object().is_ok());
    let back = own(o).try_into_object().unwrap().into_value();
    assert_eq!(back.as_inner(), o);
}

#[test]
fn strings_are_read_from_the_store() {
    let mut heap = Heap::new();
    let s = text(&mut heap, "165!");
    assert_eq!(own(s).to_string(&heap), Ok("165!".to_string()));
    assert_eq!(own(create_int(1)).to_string(&heap), Err(ValueError::UnexpectedType));
    let dangling = RawJsValue { tag: JsTag::String, payload: Payload::Ptr(99) };
    assert_eq!(
        own(dangling).to_string(&heap),
        Err(ValueError::Internal(
            "Could not convert string: got a null pointer".to_string()
        ))
    );
    assert_eq!(deserialize_borrowed_str(&heap, &s), Ok("165!".to_string()));
    assert_eq!(
        deserialize_borrowed_str(&heap, &create_int(1)),
        Err(ValueError::Internal("Expected a string, got a Int".to_string()))
    );
    let n = own(create_int(3));
    let converted = own(text(&mut heap, "3"));
    assert_eq!(n.js_to_string(&heap, &converted), Ok("3".to_string()));
    assert_eq!(own(s).js_to_string(&heap, &n), Ok("165!".to_string()));
    assert_eq!(
        n.js_to_string(&heap, &own(create_null())),
        Err(ExecutionError::Internal("Could not convert value to string".to_string()))
    );
    assert_eq!(OwnedJsValue::to_json_string(&heap, &converted), Ok("3".to_string()));
    assert!(OwnedJsValue::to_json_string(&heap, &n).is_err());
}

#[test]
fn arrays_are_read_and_written() {
    let mut heap = Heap::new();
    let a = create_empty_array(&mut heap).unwrap();
    let array = OwnedJsArray::try_from_value(&heap, own(a)).unwrap();
    assert_eq!(array.length(&heap), 0);
    assert_eq!(array.push(&mut heap, own(create_int(1))), (Ok(()), None));
    assert_eq!(array.push(&mut heap, own(create_int(2))), (Ok(()), None));
    assert_eq!(array.length(&heap), 2);
    assert_eq!(array.get_index(&heap, 0).unwrap().unwrap().to_int(), Ok(1));
    assert_eq!(array.get_index(&heap, 1).unwrap().unwrap().to_int(), Ok(2));
    assert_eq!(array.get_index(&heap, 2), Ok(None));
    assert_eq!(array.set_index(&mut heap, 4, own(create_bool(true))), (Ok(()), None));
    assert_eq!(array.length(&heap), 5);
    assert_eq!(array.get_index(&heap, 3), Ok(None));
    assert_eq!(array.get_index(&heap, 4).unwrap().unwrap().to_bool(), Ok(true));
    assert_eq!(array.set_index(&mut heap, 0, own(create_int(9))), (Ok(()), None));
    assert_eq!(
        array.raw_elements(&heap),
        vec![create_int(9), create_int(2), create_undefined(), create_undefined(), create_bool(true)]
    );
    assert_eq!(
        array_items(&heap, array.as_value()),
        Ok(vec![create_int(9), create_int(2), create_bool(true)])
    );
    assert_eq!(add_array_element(&mut heap, a, 1, create_int(7)), Ok(()));
    assert_eq!(array.get_index(&heap, 1).unwrap().unwrap().to_int(), Ok(7));
    assert_eq!(
        add_array_element(&mut heap, create_int(0), 1, create_int(7)),
        Err(ValueError::Internal("Could not add element to array".to_string()))
    );
}

#[test]
fn an_array_of_ints_is_read_as_ints() {
    let mut heap = Heap::new();
    let a = heap.store(HeapCell::Array(vec![create_int(1), create_int(2), create_int(3)]));
    let items = array_items(&heap, &own(a)).unwrap();
    let ints: Vec<i32> = items.into_iter().map(|v| own(v).to_int().unwrap()).collect();
    assert_eq!(ints, vec![1, 2, 3]);
    assert_eq!(array_items(&heap, &own(create_int(1))), Err(ValueError::UnexpectedType));
    assert_eq!(object_entries(&heap, &own(create_int(1))), Err(ValueError::UnexpectedType));
    let (r, ops) = own(a).to_array(&heap);
    assert!(r.is_ok());
    assert_eq!(ops, vec![RefOp::Dup(a)]);
    let (r, ops) = own(create_int(1)).to_array(&heap);
    assert_eq!(r.unwrap_err(), ValueError::UnexpectedType);
    assert_eq!(ops, vec![RefOp::Dup(create_int(1)), RefOp::Free(create_int(1))]);
    let bad = heap.store(HeapCell::Array(vec![create_int(1), RawJsValue::exception()]));
    assert_eq!(
        array_items(&heap, &own(bad)),
        Err(ValueError::Internal("Could not build array".to_string()))
    );
}

#[test]
fn a_value_that_is_dropped_on_failure_is_released() {
    let mut heap = Heap::new();
    let f = heap.store(HeapCell::Function);
    let o = heap.store(HeapCell::Object(vec![]));
    let s = text(&mut heap, "v");
    let not_array = OwnedJsArray::try_from_value(&heap, own(o));
    assert!(not_array.is_err());
    let holder = OwnedJsObject::try_from_value(own(f)).unwrap();
    let before = heap.len();
    let (r, op) = holder.set_property(&mut heap, "a", own(s));
    assert_eq!(r, Err(ExecutionError::Internal("Could not set property".to_string())));
    assert_eq!(op, Some(RefOp::Free(s)));
    assert_eq!(heap.len(), before);
    let holder = OwnedJsObject::try_from_value(own(o)).unwrap();
    let (r, op) = holder.set_property(&mut heap, "a\0b", own(s));
    assert_eq!(r, Err(ExecutionError::Conversion(ValueError::StringWithZeroBytes)));
    assert_eq!(op, Some(RefOp::Free(s)));
}

#[test]
fn properties_are_read_and_written() {
    let mut heap = Heap::new();
    let o = create_empty_object(&mut heap).unwrap();
    let obj = OwnedJsObject::try_from_value(own(o)).unwrap();
    assert_eq!(obj.property(&heap, "a"), Ok(None));
    assert_eq!(
        obj.property_require(&heap, "a"),
        Err(ExecutionError::Internal("Property 'a' not found".to_string()))
    );
    assert_eq!(obj.set_property(&mut heap, "a", own(create_int(1))), (Ok(()), None));
    assert_eq!(obj.set_property(&mut heap, "b", own(create_int(2))), (Ok(()), None));
    assert_eq!(obj.set_property(&mut heap, "a", own(create_int(3))), (Ok(()), None));
    assert_eq!(obj.property(&heap, "a").unwrap().unwrap().to_int(), Ok(3));
    assert_eq!(obj.property_require(&heap, "b").unwrap().to_int(), Ok(2));
    assert_eq!(
        object_entries(&heap, &own(o)),
        Ok(vec![("a".to_string(), create_int(3)), ("b".to_string(), create_int(2))])
    );
    assert_eq!(add_object_property(&mut heap, o, "c", create_undefined()), Ok(()));
    assert_eq!(obj.property(&heap, "c"), Ok(None));
    assert_eq!(
        object_entries(&heap, &own(o)),
        Ok(vec![("a".to_string(), create_int(3)), ("b".to_string(), create_int(2))])
    );
    assert_eq!(
        add_object_property(&mut heap, o, "x\0", create_int(1)),
        Err(ValueError::StringWithZeroBytes)
    );
    let thrown = heap.store(HeapCell::Object(vec![Property {
        key: "boom".to_string(),
        value: RawJsValue::exception(),
    }]));
    let thrower = OwnedJsObject::try_from_value(own(thrown)).unwrap();
    assert_eq!(
        thrower.property(&heap, "boom"),
        Err(ExecutionError::Internal(
            "Exception while getting property 'boom'".to_string()
        ))
    );
}

#[test]
fn a_thenable_has_then_and_catch() {
    let mut heap = Heap::new();
    let f = heap.store(HeapCell::Function);
    let both = heap.store(HeapCell::Object(vec![
        Property { key: "then".to_string(), value: f },
        Property { key: "catch".to_string(), value: f },
    ]));
    let only_then = heap.store(HeapCell::Object(vec![Property { key: "then".to_string(), value: f }]));
    let not_callable = heap.store(HeapCell::Object(vec![
        Property { key: "then".to_string(), value: create_int(1) },
        Property { key: "catch".to_string(), value: f },
    ]));
    let native = heap.store(HeapCell::Promise(PromiseState::Pending, create_undefined()));
    let check = |heap: &Heap, v: RawJsValue| {
        OwnedJsObject::try_from_value(own(v)).unwrap().is_promise(heap)
    };
    assert_eq!(check(&heap, both), Ok(true));
    assert_eq!(check(&heap, only_then), Ok(false));
    assert_eq!(check(&heap, not_callable), Ok(false));
    assert_eq!(check(&heap, native), Ok(true));
    assert_eq!(check(&heap, f), Ok(false));
}

#[test]
fn the_walk_hands_out_key_then_value() {
    let mut heap = Heap::new();
    let o = heap.store(HeapCell::Object(vec![
        Property { key: "a".to_string(), value: create_int(1) },
        Property { key: "b".to_string(), value: create_bool(false) },
    ]));
    let obj = OwnedJsObject::try_from_value(own(o)).unwrap();
    let (it, op) = obj.properties_iter(&heap);
    assert_eq!(op, RefOp::Dup(o));
    let mut it = it.unwrap();
    assert_eq!(it.next(&heap), Some(Ok(PropertyItem::Key("a".to_string()))));
    assert_eq!(it.next(&heap), Some(Ok(PropertyItem::Value(own(create_int(1))))));
    assert_eq!(it.next(&heap), Some(Ok(PropertyItem::Key("b".to_string()))));
    assert_eq!(it.next(&heap), Some(Ok(PropertyItem::Value(own(create_bool(false))))));
    assert_eq!(it.next(&heap), None);
    assert_eq!(it.next(&heap), None);
    assert_eq!(it.finish(), RefOp::Free(o));
}

#[test]
fn the_walk_ends_with_the_first_failure() {
    let mut heap = Heap::new();
    let o = heap.store(HeapCell::Object(vec![
        Property { key: "a".to_string(), value: RawJsValue::exception() },
        Property { key: "b".to_string(), value: create_int(2) },
    ]));
    let obj = OwnedJsObject::try_from_value(own(o)).unwrap();
    let mut it = OwnedJsPropertyIterator::from_object(&heap, obj).unwrap();
    assert_eq!(it.next(&heap), Some(Ok(PropertyItem::Key("a".to_string()))));
    assert_eq!(
        it.next(&heap),
        Some(Err(ExecutionError::Internal("Could not get object property".to_string())))
    );
    assert_eq!(it.next(&heap), None);
}

#[test]
fn promises_show_their_state() {
    let mut heap = Heap::new();
    let pending = heap.store(HeapCell::Promise(PromiseState::Pending, create_int(1)));
    let done = heap.store(HeapCell::Promise(PromiseState::Fulfilled, create_int(5)));
    let failed = heap.store(HeapCell::Promise(PromiseState::Rejected, create_int(6)));
    let p = OwnedJsPromise::try_from_value(&heap, own(pending)).unwrap();
    assert_eq!(p.state(&heap), PromiseState::Pending);
    assert_eq!(p.result(&heap).0.as_inner(), create_undefined());
    let d = OwnedJsPromise::try_from_value(&heap, own(done)).unwrap();
    assert_eq!(d.state(&heap), PromiseState::Fulfilled);
    let (value, op) = d.result(&heap);
    assert_eq!(value.to_int(), Ok(5));
    assert_eq!(op, RefOp::Dup(create_int(5)));
    let f = OwnedJsPromise::try_from_value(&heap, own(failed)).unwrap();
    assert_eq!(f.state(&heap), PromiseState::Rejected);
    assert_eq!(f.into_value().as_inner(), failed);
}

#[test]
fn a_promise_with_resolvers_is_taken_apart() {
    let mut heap = Heap::new();
    let p = heap.store(HeapCell::Promise(PromiseState::Pending, create_undefined()));
    let f = heap.store(HeapCell::Function);
    let g = heap.store(HeapCell::Function);
    let whole = heap.store(HeapCell::Object(vec![
        Property { key: "promise".to_string(), value: p },
        Property { key: "resolve".to_string(), value: f },
        Property { key: "reject".to_string(), value: g },
    ]));
    let (promise, resolve, reject) = OwnedJsPromise::with_resolvers(&heap, own(whole)).unwrap();
    assert_eq!(promise.into_value().as_inner(), p);
    assert_eq!(resolve.into_value().as_inner(), f);
    assert_eq!(reject.into_value().as_inner(), g);
    let broken = heap.store(HeapCell::Object(vec![Property { key: "promise".to_string(), value: p }]));
    assert!(OwnedJsPromise::with_resolvers(&heap, own(broken)).is_err());
    assert!(OwnedJsPromise::with_resolvers(&heap, own(create_int(1))).is_err());

    let (r, op) = OwnedJsPromise::from_combinator(&heap, own(p), PendingException::Nothing);
    assert!(r.is_ok());
    assert_eq!(op, None);
    let (r, op) = OwnedJsPromise::from_combinator(&heap, own(f), PendingException::Nothing);
    assert_eq!(r.unwrap_err(), ExecutionError::Conversion(ValueError::UnexpectedType));
    assert_eq!(op, Some(RefOp::Free(f)));
    let (r, op) = OwnedJsPromise::from_combinator(
        &heap,
        own(p),
        PendingException::Text(Ok("TypeError: not a function".to_string())),
    );
    assert_eq!(
        r.unwrap_err(),
        ExecutionError::Exception("TypeError: not a function".to_string())
    );
    assert_eq!(op, Some(RefOp::Free(p)));
}

#[test]
fn a_call_marshals_its_arguments() {
    let mut heap = Heap::new();
    let f = heap.store(HeapCell::Function);
    let func = JsFunction::try_from_value(&heap, own(f)).unwrap();
    let args = vec![own(create_int(1)), own(create_bool(true))];
    let request = func.call(&args);
    assert_eq!(request.function, f);
    assert_eq!(request.this, create_null());
    assert_eq!(request.args, vec![create_int(1), create_bool(true)]);
    assert_eq!(create_function(func), Ok(f));
    assert_eq!(own_raw_value(3, f).context(), 3);
}

#[test]
fn atoms_are_counted_like_values() {
    let atom = OwnedJsAtom::new(1, 55);
    let (copy, op) = atom.duplicate();
    assert_eq!(op, AtomOp::Dup(55));
    assert_eq!(copy, atom);
    assert_eq!(atom.release(), AtomOp::Free(55));
}

#[test]
fn the_cursor_walks_an_array() {
    let mut heap = Heap::new();
    let a = heap.store(HeapCell::Array(vec![create_int(1), create_bool(true)]));
    let root = own(a);
    let mut de = Deserializer::from_js(&heap, 1, &root);
    assert_eq!(de.deserialize_any().unwrap(), Visit::Sequence);
    assert!(de.enter_array().is_ok());
    assert_eq!(de.depth(), 1);
    assert_eq!(de.next().unwrap(), Some(()));
    assert_eq!(de.deserialize_any().unwrap(), Visit::I32(1));
    assert_eq!(de.next().unwrap(), Some(()));
    assert_eq!(de.deserialize_any().unwrap(), Visit::Bool(true));
    assert_eq!(de.next().unwrap(), None);
    de.leave();
    assert_eq!(de.depth(), 0);
    assert_eq!(de.get_current(), a);
}

#[test]
fn the_cursor_walks_an_object() {
    let mut heap = Heap::new();
    let s = text(&mut heap, "Bar");
    let o = heap.store(HeapCell::Object(vec![
        Property { key: "a".to_string(), value: create_int(233) },
        Property { key: "foo".to_string(), value: s },
    ]));
    let root = own(o);
    let mut de = Deserializer::from_js(&heap, 1, &root);
    assert_eq!(de.deserialize_any().unwrap(), Visit::Mapping);
    assert!(matches!(de.enter_array(), Err(Error::ExpectedArray)));
    assert!(de.enter_object().is_ok());
    assert_eq!(de.next().unwrap(), Some(()));
    assert_eq!(de.parse_string().unwrap(), "a");
    assert_eq!(de.next().unwrap(), Some(()));
    assert_eq!(de.deserialize_any().unwrap(), Visit::I32(233));
    assert_eq!(de.next().unwrap(), Some(()));
    assert_eq!(de.deserialize_any().unwrap(), Visit::String("foo".to_string()));
    assert_eq!(de.next().unwrap(), Some(()));
    assert_eq!(de.parse_string().unwrap(), "Bar");
    assert_eq!(de.next().unwrap(), None);
    de.leave();
    assert_eq!(de.get_current(), o);
}

#[test]
fn the_cursor_refuses_to_enter_a_container_twice() {
    let mut heap = Heap::new();
    let o = create_empty_object(&mut heap).unwrap();
    assert_eq!(add_object_property(&mut heap, o, "self", o), Ok(()));
    let root = own(o);
    let mut de = Deserializer::from_js(&heap, 1, &root);
    assert!(de.enter_object().is_ok());
    assert_eq!(de.next().unwrap(), Some(()));
    assert_eq!(de.parse_string().unwrap(), "self");
    assert_eq!(de.next().unwrap(), Some(()));
    assert_eq!(de.get_current(), o);
    assert!(matches!(de.enter_object(), Err(Error::CircularReference)));
    assert!(matches!(de.guard_circular_reference(&o), Err(Error::CircularReference)));
    assert_eq!(de.depth(), 1);
    assert!(matches!(from_js(&heap, &o), Err(Error::CircularReference)));
}

#[test]
fn the_cursor_sees_through_a_proxy() {
    let mut heap = Heap::new();
    let a = heap.store(HeapCell::Array(vec![create_int(1)]));
    let p = heap.store(HeapCell::Proxy(a));
    let root = own(p);
    let mut de = Deserializer::from_js(&heap, 1, &root);
    assert!(de.enter_array().is_ok());
    assert_eq!(de.next().unwrap(), Some(()));
    assert_eq!(de.deserialize_any().unwrap(), Visit::I32(1));
    assert_eq!(from_js(&heap, &p).unwrap(), JsValue::Array(vec![JsValue::Int(1)]));
}

#[test]
fn the_cursor_reads_options_and_enums() {
    let mut heap = Heap::new();
    let a = text(&mut heap, "A");
    let inner = text(&mut heap, "bar");
    let foo = heap.store(HeapCell::Object(vec![Property { key: "Foo".to_string(), value: inner }]));
    let n = own(create_null());
    let u = own(create_undefined());
    let i = own(create_int(1));
    assert!(Deserializer::from_js(&heap, 1, &n).is_none());
    assert!(Deserializer::from_js(&heap, 1, &u).is_none());
    assert!(!Deserializer::from_js(&heap, 1, &i).is_none());
    let unit = own(a);
    let mut de = Deserializer::from_js(&heap, 1, &unit);
    assert_eq!(de.deserialize_enum().unwrap(), Some("A".to_string()));
    let newtype = own(foo);
    let mut de = Deserializer::from_js(&heap, 1, &newtype);
    assert_eq!(de.deserialize_enum().unwrap(), None);
    assert_eq!(de.parse_string().unwrap(), "Foo");
    assert_eq!(de.next().unwrap(), Some(()));
    assert_eq!(de.parse_string().unwrap(), "bar");
    let mut de = Deserializer::from_js(&heap, 1, &i);
    assert!(matches!(de.deserialize_enum(), Err(Error::ExpectedString)));
    assert!(matches!(de.enter_object(), Err(Error::ExpectedObject)));
    assert_eq!(Error::custom("x").to_string(), "x");
    assert_eq!(Error::ExpectedArray.to_string(), "expect array");
    assert_eq!(Error::CircularReference.to_string(), "circular reference");
    assert!(matches!(de.get_current(), v if v == create_int(1)));
    let _ = Current::Value(create_int(1));
}

#[test]
fn variants_are_written_with_their_name_outside() {
    assert_eq!(serialize_unit(), JsValue::Null);
    assert_eq!(serialize_none(), JsValue::Null);
    assert_eq!(serialize_some(JsValue::Int(1)), JsValue::Int(1));
    assert_eq!(serialize_unit_variant("A"), JsValue::String("A".to_string()));
    assert_eq!(
        serialize_newtype_variant("Foo", JsValue::String("bar".to_string())),
        JsValue::Object(vec![("Foo".to_string(), JsValue::String("bar".to_string()))])
    );
    assert_eq!(
        serialize_tuple_variant("D", vec![JsValue::Bool(true), JsValue::Int(2233)]),
        JsValue::Object(vec![(
            "D".to_string(),
            JsValue::Array(vec![JsValue::Bool(true), JsValue::Int(2233)])
        )])
    );
    assert_eq!(
        serialize_tuple_variant("B", vec![]),
        JsValue::Object(vec![("B".to_string(), JsValue::Array(vec![]))])
    );
    assert_eq!(
        serialize_struct_variant(
            "C",
            vec![
                ("a".to_string(), JsValue::Int(233)),
                ("foo".to_string(), JsValue::String("Bar".to_string()))
            ]
        ),
        JsValue::Object(vec![(
            "C".to_string(),
            JsValue::Object(vec![
                ("a".to_string(), JsValue::Int(233)),
                ("foo".to_string(), JsValue::String("Bar".to_string()))
            ])
        )])
    );
    let mut heap = Heap::new();
    let v = serialize_struct_variant("C", vec![("a".to_string(), JsValue::Int(233))]);
    let raw = to_js(&mut heap, &v).unwrap();
    assert_eq!(from_js(&heap, &raw).unwrap(), v);
    let bad = serialize_newtype_variant("a\0", JsValue::Null);
    assert!(matches!(
        to_js(&mut heap, &bad),
        Err(Error::ValueError(ValueError::StringWithZeroBytes))
    ));
}

#[test]
fn values_without_a_host_form_are_errors() {
    let mut heap = Heap::new();
    let m = heap.store(HeapCell::Module);
    match from_js(&heap, &m) {
        Err(Error::ValueError(ValueError::Internal(text))) => {
            assert_eq!(text, "Unhandled JS_TAG value: Module")
        }
        other => panic!("unexpected {:?}", other),
    }
    match from_js(&heap, &RawJsValue::exception()) {
        Err(Error::ValueError(ValueError::Internal(text))) => {
            assert_eq!(text, "Unhandled JS_TAG value: Exception")
        }
        other => panic!("unexpected {:?}", other),
    }
    let f = heap.store(HeapCell::Function);
    assert_eq!(from_js(&heap, &f).unwrap(), JsValue::Function(f));
    let d = heap.store(HeapCell::Date(1_000));
    assert_eq!(from_js(&heap, &d).unwrap(), JsValue::Date(1_000));
    let s = heap.store(HeapCell::Symbol);
    assert_eq!(from_js(&heap, &s).unwrap(), JsValue::Symbol);
}

#[test]
fn big_integers_that_fit_are_kept_as_64_bits() {
    assert_eq!(JsBigInt::from_i64(-5).as_i64(), Some(-5));
    assert_eq!(JsBigInt::from_u64(7).inner, BigIntOrI64::Int(7));
    assert_eq!(JsBigInt::from_i128(-7).inner, BigIntOrI64::Int(-7));
    assert_eq!(JsBigInt::from_u128(1 << 40).inner, BigIntOrI64::Int(1 << 40));
    assert_eq!(JsBigInt::from_i64(1 << 30).to_u64(), Ok(1 << 30));
    assert_eq!(JsBigInt::from_i64(-1).to_u64(), Err(ValueError::BigIntOverflow));
    assert_eq!(JsBigInt::from_i64(-1).to_i128(), Ok(-1));
    assert_eq!(JsBigInt::from_i64(-1).to_u128(), Err(ValueError::BigIntOverflow));
    assert_eq!(JsBigInt::from_i64(9).to_u128(), Ok(9));
    assert_eq!(create_bigint(&JsBigInt::from_i64(12)), BigIntRequest::FromI64(12));
    assert_eq!(to_bigint(BigIntAnswer::Fits(3)), Ok(JsBigInt::from_i64(3)));
    assert_eq!(JsBigInt::from_i64(4).duplicate(), JsBigInt::from_i64(4));
}

#[test]
fn larger_big_integers_go_through_num_bigint() {
    let big = JsBigInt::from_u128(1u128 << 100);
    assert!(matches!(big.inner, BigIntOrI64::Big(_)));
    assert_eq!(big.to_u128(), Ok(1u128 << 100));
    assert_eq!(big.to_i128(), Ok(1i128 << 100));
    assert_eq!(big.to_u64(), Err(ValueError::BigIntOverflow));
    assert_eq!(big.as_i64(), None);
    assert_eq!(
        create_bigint(&big),
        BigIntRequest::FromDecimal("1267650600228229401496703205376".to_string())
    );
    let parsed = to_bigint(BigIntAnswer::Text(Some(
        "1267650600228229401496703205376".to_string(),
    )))
    .unwrap();
    assert_eq!(parsed, big);
    assert_eq!(parsed.into_bigint(), num_bigint::BigInt::from(1u128 << 100));
    let negative = JsBigInt::from_i128(i128::MIN);
    assert_eq!(negative.to_i128(), Ok(i128::MIN));
    assert_eq!(negative.to_u128(), Err(ValueError::BigIntOverflow));
    assert_eq!(JsBigInt::from_u64(u64::MAX).to_u64(), Ok(u64::MAX));
    assert_eq!(
        JsBigInt::from_i64(5).into_bigint(),
        num_bigint::BigInt::from(5)
    );
    assert_eq!(
        to_bigint(BigIntAnswer::Text(None)),
        Err(ValueError::Internal(
            "Could not convert BigInt to string: got a null pointer".to_string()
        ))
    );
    assert_eq!(
        to_bigint(BigIntAnswer::Text(Some("12x".to_string()))),
        Err(ValueError::Internal(
            "Could not convert BigInt to string: not a number".to_string()
        ))
    );
    assert_eq!(create_bigint_checked(JsTag::String, Some(JsTag::BigInt)), Ok(()));
    assert_eq!(
        create_bigint_checked(JsTag::Exception, None),
        Err(ValueError::Internal(
            "Could not construct String object needed to create BigInt object".to_string()
        ))
    );
    assert_eq!(
        create_bigint_checked(JsTag::String, Some(JsTag::Exception)),
        Err(ValueError::Internal("Could not construct BigInt object".to_string()))
    );
}

#[test]
fn big_integers_in_the_store() {
    let mut heap = Heap::new();
    let b = heap.store(HeapCell::BigInt(JsBigInt::from_i64(1 << 40)));
    assert_eq!(own(b).to_bigint(&heap), Ok(JsBigInt::from_i64(1 << 40)));
    assert_eq!(own(create_int(1)).to_bigint(&heap), Err(ValueError::UnexpectedType));
    let root = own(b);
    let de = Deserializer::from_js(&heap, 1, &root);
    assert_eq!(de.deserialize_any().unwrap(), Visit::I64(1 << 40));
    let huge = heap.store(HeapCell::BigInt(JsBigInt::from_u128(u128::MAX)));
    let root = own(huge);
    let de = Deserializer::from_js(&heap, 1, &root);
    assert!(matches!(de.deserialize_any(), Err(Error::BigIntOverflow)));
}

#[test]
fn dates_are_instants_that_chrono_knows() {
    assert_eq!(to_date(true, Timestamp::Float(1_000_000_000_555)), Some(Ok(1_000_000_000_555)));
    assert_eq!(to_date(true, Timestamp::Int(1_444)), Some(Ok(1_444)));
    assert_eq!(to_date(true, Timestamp::Float(-1)), Some(Ok(-1)));
    assert_eq!(to_date(true, Timestamp::Float(i64::MAX)), None);
    assert_eq!(to_date(true, Timestamp::Float(i64::MIN)), None);
    assert_eq!(to_date(false, Timestamp::Int(0)), Some(Err(ValueError::UnexpectedType)));
    assert_eq!(
        to_date(true, Timestamp::Other(JsTag::Exception)),
        Some(Err(ValueError::Internal(
            "Could not convert 'Date' instance to timestamp".to_string()
        )))
    );
    assert_eq!(date_from_timestamp(Timestamp::Int(5)), Ok(5));
    assert_eq!(create_date(JsTag::Object), Ok(()));
    assert_eq!(
        create_date(JsTag::Exception),
        Err(ValueError::Internal("Could not construct Date object".to_string()))
    );
    let mut heap = Heap::new();
    let d = heap.store(HeapCell::Date(86_400_000));
    assert_eq!(own(d).to_date(&heap), Some(Ok(86_400_000)));
    let far = heap.store(HeapCell::Date(i64::MAX));
    assert_eq!(own(far).to_date(&heap), None);
    assert_eq!(own(create_int(1)).to_date(&heap), Some(Err(ValueError::UnexpectedType)));
}

#[test]
fn the_cursor_reports_an_element_that_threw() {
    let mut heap = Heap::new();
    let a = heap.store(HeapCell::Array(vec![create_int(1), RawJsValue::exception()]));
    let root = own(a);
    let mut de = Deserializer::from_js(&heap, 1, &root);
    assert!(de.enter_array().is_ok());
    assert_eq!(de.next().unwrap(), Some(()));
    match de.next() {
        Err(Error::ExecutionError(e)) => {
            assert_eq!(e, ExecutionError::Internal("Could not build array".to_string()))
        }
        other => panic!("unexpected {:?}", other),
    }
}

#[test]
fn promises_are_listed_for_the_engine() {
    let mut heap = Heap::new();
    let p = heap.store(HeapCell::Promise(PromiseState::Pending, create_undefined()));
    let q = heap.store(HeapCell::Promise(PromiseState::Fulfilled, create_int(1)));
    let list = vec![
        OwnedJsPromise::try_from_value(&heap, own(p)).unwrap(),
        OwnedJsPromise::try_from_value(&heap, own(q)).unwrap(),
    ];
    let iterable = OwnedJsPromise::iterable_of(&mut heap, &list);
    let array = OwnedJsArray::try_from_value(&heap, own(iterable)).unwrap();
    assert_eq!(array.raw_elements(&heap), vec![p, q]);
}

#[test]
fn what_can_be_written_is_told_beforehand() {
    let mut heap = Heap::new();
    let f = heap.store(HeapCell::Function);
    let o = heap.store(HeapCell::Object(vec![]));
    assert!(JsValue::Int(1).encodable(&heap));
    assert!(JsValue::Function(f).encodable(&heap));
    assert!(!JsValue::Function(o).encodable(&heap));
    assert!(!JsValue::Symbol.encodable(&heap));
    assert!(!JsValue::Array(vec![JsValue::Int(1), JsValue::Symbol]).encodable(&heap));
    let twice = JsValue::Object(vec![
        ("a".to_string(), JsValue::Int(1)),
        ("a".to_string(), JsValue::Int(2)),
    ]);
    assert!(!twice.encodable(&heap));
    let fine = JsValue::Object(vec![
        ("a".to_string(), JsValue::Int(1)),
        ("b".to_string(), JsValue::Array(vec![JsValue::Function(f)])),
    ]);
    assert!(fine.encodable(&heap));
    let raw = to_js(&mut heap, &fine).unwrap();
    assert_eq!(from_js(&heap, &raw).unwrap(), fine);
    assert!(heap.is_valid(&raw));
    assert!(heap.is_valid(&create_int(1)));
    let dangling = RawJsValue { tag: JsTag::Object, payload: Payload::Ptr(1000) };
    assert!(!heap.is_valid(&dangling));
    let wrong = RawJsValue { tag: JsTag::String, payload: Payload::Ptr(0) };
    assert!(!heap.is_valid(&wrong));
}
