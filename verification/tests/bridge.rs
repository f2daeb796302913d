use quickjs_rusty::bridge::{Explorer, Materializer, Slot};
use quickjs_rusty::convert::{deserialize_value, serialize_value, JsValue};
use quickjs_rusty::serde::Error;
use quickjs_rusty::utils::create_int;
use quickjs_rusty::value::{Heap, HeapCell, Payload, Property, RawJsValue, RefOp};
use quickjs_rusty::JsTag;

fn engine_object(address: usize) -> RawJsValue {
    RawJsValue { tag: JsTag::Object, payload: Payload::Ptr(address) }
}

#[test]
fn the_explorer_gives_each_address_one_place() {
    let mut ex = Explorer::new();
    let a = ex.intern(engine_object(0x1000));
    let b = ex.intern(engine_object(0x2000));
    let again = ex.intern(engine_object(0x1000));
    assert_eq!(a.payload, Payload::Ptr(0));
    assert_eq!(b.payload, Payload::Ptr(1));
    assert_eq!(again, a);
    assert_eq!(ex.intern(create_int(5)), create_int(5));
    assert_eq!(ex.len(), 2);
    assert_eq!(ex.address(0), Some(0x1000));
    assert_eq!(ex.address(1), Some(0x2000));
    assert_eq!(ex.address(2), None);
}

#[test]
fn the_explorer_copies_a_value_that_holds_itself() {
    let mut ex = Explorer::new();
    let root = ex.intern(engine_object(0xA0));
    assert_eq!(ex.pending(), Some((0, 0xA0)));
    let this = ex.intern(engine_object(0xA0));
    let child = ex.intern(engine_object(0xB0));
    assert!(ex.describe(
        0,
        HeapCell::Object(vec![
            Property { key: "self".to_string(), value: this },
            Property { key: "list".to_string(), value: child },
        ])
    ));
    assert_eq!(ex.pending(), Some((1, 0xB0)));
    assert!(!ex.describe(0, HeapCell::Function));
    assert!(!ex.describe(7, HeapCell::Function));
    assert!(ex.describe(1, HeapCell::Array(vec![create_int(1)])));
    assert_eq!(ex.pending(), None);
    let heap = ex.finish().unwrap();
    assert_eq!(heap.len(), 2);
    assert!(matches!(deserialize_value(&heap, &root), Err(Error::CircularReference)));
    assert_eq!(
        deserialize_value(&heap, &child).unwrap(),
        JsValue::Array(vec![JsValue::Int(1)])
    );
}

#[test]
fn the_explorer_makes_no_store_before_all_is_described() {
    let mut ex = Explorer::new();
    let _ = ex.intern(engine_object(1));
    assert!(ex.finish().is_none());
    let mut ex = Explorer::new();
    let _ = ex.intern(engine_object(1));
    let dangling = RawJsValue { tag: JsTag::Object, payload: Payload::Ptr(9) };
    assert!(ex.describe(0, HeapCell::Array(vec![dangling])));
    assert!(ex.finish().is_none());
}

#[test]
fn a_store_is_only_made_of_valid_cells() {
    assert!(Heap::from_cells(vec![HeapCell::Array(vec![create_int(1)])]).is_some());
    let forward = RawJsValue { tag: JsTag::Object, payload: Payload::Ptr(1) };
    assert!(Heap::from_cells(vec![HeapCell::Array(vec![forward]), HeapCell::Function]).is_some());
    let wrong_kind = RawJsValue { tag: JsTag::String, payload: Payload::Ptr(1) };
    assert!(Heap::from_cells(vec![HeapCell::Array(vec![wrong_kind]), HeapCell::Function]).is_none());
    let twice = HeapCell::Object(vec![
        Property { key: "a".to_string(), value: create_int(1) },
        Property { key: "a".to_string(), value: create_int(2) },
    ]);
    assert!(Heap::from_cells(vec![twice]).is_none());
    let ill = RawJsValue { tag: JsTag::Int, payload: Payload::Empty };
    assert!(Heap::from_cells(vec![HeapCell::Proxy(ill)]).is_none());
}

#[test]
fn the_materializer_moves_each_value_once() {
    let mut heap = Heap::new();
    let value = JsValue::Array(vec![JsValue::String("a".to_string()), JsValue::Int(1)]);
    let root = serialize_value(&mut heap, &value).unwrap();
    let mut m = Materializer::new(heap.len());
    assert_eq!(m.next(), Some(0));
    let text = RawJsValue { tag: JsTag::String, payload: Payload::Ptr(0x10) };
    assert!(m.created(0, text, true));
    assert!(!m.created(0, text, true));
    assert_eq!(m.next(), Some(1));
    let array = engine_object(0x20);
    assert!(m.created(1, array, true));
    assert_eq!(m.next(), None);
    let elements = match heap.cell(1) {
        HeapCell::Array(items) => items.clone(),
        other => panic!("unexpected {:?}", other),
    };
    assert_eq!(m.take(elements[0]), Some((text, None)));
    assert_eq!(m.take(elements[1]), Some((create_int(1), None)));
    assert_eq!(m.take(elements[0]), Some((text, Some(RefOp::Dup(text)))));
    let (handle, ops) = m.finish(root);
    assert_eq!(handle, Some(array));
    assert_eq!(ops, vec![]);
}

#[test]
fn giving_up_releases_what_was_made() {
    let mut m = Materializer::new(3);
    let a = engine_object(0x10);
    let b = engine_object(0x20);
    let c = engine_object(0x30);
    assert!(m.created(0, a, true));
    assert!(m.created(1, b, true));
    assert!(m.created(2, c, false));
    let inner = RawJsValue { tag: JsTag::Object, payload: Payload::Ptr(0) };
    assert_eq!(m.take(inner), Some((a, None)));
    let borrowed = RawJsValue { tag: JsTag::Object, payload: Payload::Ptr(2) };
    assert_eq!(m.take(borrowed), Some((c, Some(RefOp::Dup(c)))));
    assert_eq!(m.abort(), vec![RefOp::Free(b)]);
    let mut m = Materializer::new(1);
    let pending = RawJsValue { tag: JsTag::Object, payload: Payload::Ptr(0) };
    assert_eq!(m.take(pending), None);
    let out_of_range = RawJsValue { tag: JsTag::Object, payload: Payload::Ptr(5) };
    assert_eq!(m.take(out_of_range), None);
    let (handle, ops) = m.finish(pending);
    assert_eq!(handle, None);
    assert_eq!(ops, vec![]);
    let _ = Slot::Pending;
}

#[test]
fn a_store_tells_which_cells_it_takes() {
    let mut heap = Heap::new();
    let f = heap.store(HeapCell::Function);
    assert!(heap.accepts(&HeapCell::Array(vec![f, create_int(1)])));
    let dangling = RawJsValue { tag: JsTag::Object, payload: Payload::Ptr(5) };
    assert!(!heap.accepts(&HeapCell::Array(vec![f, dangling])));
    assert!(!heap.accepts(&HeapCell::Proxy(dangling)));
    assert!(heap.accepts(&HeapCell::Proxy(f)));
    assert!(heap.accepts(&HeapCell::Text("x".to_string())));
    let twice = HeapCell::Object(vec![
        Property { key: "k".to_string(), value: f },
        Property { key: "k".to_string(), value: f },
    ]);
    assert!(!heap.accepts(&twice));
}
