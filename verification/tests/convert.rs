use quickjs_rusty::convert::{deserialize_value, serialize_value, JsValue};
use quickjs_rusty::errors::ValueError;
use quickjs_rusty::serde::Error;
use quickjs_rusty::value::{Heap, HeapCell, OwnedJsArray, OwnedJsValue, Payload, RawJsValue};
use quickjs_rusty::JsTag;

fn round_trip(value: JsValue) -> JsValue {
    let mut heap = Heap::new();
    let raw = serialize_value(&mut heap, &value).unwrap();
    deserialize_value(&heap, &raw).unwrap()
}

#[test]
fn round_trip_primitives() {
    assert_eq!(round_trip(JsValue::Bool(true)), JsValue::Bool(true));
    assert_eq!(round_trip(JsValue::Bool(false)), JsValue::Bool(false));
    assert_eq!(round_trip(JsValue::Int(-7)), JsValue::Int(-7));
    assert_eq!(round_trip(JsValue::Int(i32::MAX)), JsValue::Int(i32::MAX));
    let bits = 1.5f64.to_bits();
    assert_eq!(round_trip(JsValue::Float(bits)), JsValue::Float(bits));
    assert_eq!(
        round_trip(JsValue::String("héllo".to_string())),
        JsValue::String("héllo".to_string())
    );
    assert_eq!(round_trip(JsValue::Null), JsValue::Null);
    assert_eq!(round_trip(JsValue::Undefined), JsValue::Undefined);
}

#[test]
fn round_trip_vec_of_ints() {
    let v = JsValue::Array(vec![JsValue::Int(1), JsValue::Int(2), JsValue::Int(3)]);
    assert_eq!(
        round_trip(v),
        JsValue::Array(vec![JsValue::Int(1), JsValue::Int(2), JsValue::Int(3)])
    );
}

#[test]
fn round_trip_flat_map() {
    let v = JsValue::Object(vec![
        ("a".to_string(), JsValue::String("x".to_string())),
        ("b".to_string(), JsValue::String("y".to_string())),
    ]);
    let expected = JsValue::Object(vec![
        ("a".to_string(), JsValue::String("x".to_string())),
        ("b".to_string(), JsValue::String("y".to_string())),
    ]);
    assert_eq!(round_trip(v), expected);
}

#[test]
fn failed_element_leaves_no_cell_behind() {
    let mut heap = Heap::new();
    let baseline = heap.len();
    let bad = JsValue::Array(vec![
        JsValue::String("kept?".to_string()),
        JsValue::Array(vec![JsValue::Int(1)]),
        JsValue::Object(vec![("bad\0key".to_string(), JsValue::Int(1))]),
    ]);
    assert_eq!(
        serialize_value(&mut heap, &bad),
        Err(ValueError::StringWithZeroBytes)
    );
    assert_eq!(heap.len(), baseline);
}

#[test]
fn object_that_holds_itself_is_circular() {
    let mut heap = Heap::new();
    let a = heap.store(HeapCell::Array(vec![]));
    let array = OwnedJsArray::try_from_value(&heap, OwnedJsValue::new(1, a)).unwrap();
    let (r, release) = array.push(&mut heap, OwnedJsValue::new(1, a));
    assert!(r.is_ok());
    assert_eq!(release, None);
    let decoded = deserialize_value(&heap, &a);
    assert!(matches!(decoded, Err(Error::CircularReference)));
}

#[test]
fn shared_value_is_not_circular() {
    let mut heap = Heap::new();
    let inner = heap.store(HeapCell::Array(vec![RawJsValue {
        tag: JsTag::Int,
        payload: Payload::Int(5),
    }]));
    let outer = heap.store(HeapCell::Array(vec![inner, inner]));
    let decoded = deserialize_value(&heap, &outer).unwrap();
    assert_eq!(
        decoded,
        JsValue::Array(vec![
            JsValue::Array(vec![JsValue::Int(5)]),
            JsValue::Array(vec![JsValue::Int(5)]),
        ])
    );
}
