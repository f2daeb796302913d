use quickjs_rusty::tag::{JsTag, TagTable};
use quickjs_rusty::utils::{create_bool, create_float, create_int, create_null, create_undefined};
use quickjs_rusty::value::{OwnedJsValue, Payload, RawJsValue, RefOp};
use quickjs_rusty::ValueError;

fn table() -> TagTable {
    TagTable {
        big_int: -9,
        symbol: -8,
        string: -7,
        module: -3,
        function_bytecode: -2,
        object: -1,
        int: 0,
        bool: 1,
        null: 2,
        undefined: 3,
        uninitialized: 4,
        catch_offset: 5,
        exception: 6,
        float64: 8,
    }
}

const ALL: [JsTag; 14] = [
    JsTag::BigInt,
    JsTag::Symbol,
    JsTag::String,
    JsTag::Module,
    JsTag::FunctionBytecode,
    JsTag::Object,
    JsTag::Int,
    JsTag::Bool,
    JsTag::Null,
    JsTag::Undefined,
    JsTag::Uninitialized,
    JsTag::CatchOffset,
    JsTag::Exception,
    JsTag::Float64,
];

#[test]
fn from_c_reads_every_number_of_the_table() {
    let t = table();
    assert!(t.is_distinct());
    assert_eq!(JsTag::from_c(&t, 0), Some(JsTag::Int));
    assert_eq!(JsTag::from_c(&t, 1), Some(JsTag::Bool));
    assert_eq!(JsTag::from_c(&t, -1), Some(JsTag::Object));
    assert_eq!(JsTag::from_c(&t, -7), Some(JsTag::String));
    assert_eq!(JsTag::from_c(&t, 6), Some(JsTag::Exception));
    assert_eq!(JsTag::from_c(&t, 8), Some(JsTag::Float64));
    assert_eq!(JsTag::from_c(&t, -9), Some(JsTag::BigInt));
    assert_eq!(JsTag::from_c(&t, 7), None);
    assert_eq!(JsTag::from_c(&t, 100), None);
}

#[test]
fn to_c_and_from_c_round_trip_but_for_big_int() {
    let t = table();
    for tag in ALL {
        if tag == JsTag::BigInt {
            assert_eq!(tag.to_c(&t), t.function_bytecode);
        } else {
            assert_eq!(JsTag::from_c(&t, tag.to_c(&t)), Some(tag));
        }
    }
}

#[test]
fn a_table_with_a_number_twice_is_not_distinct() {
    let mut t = table();
    t.float64 = t.int;
    assert!(!t.is_distinct());
}

#[test]
fn tag_predicates() {
    assert!(JsTag::Undefined.is_undefined());
    assert!(!JsTag::Null.is_undefined());
    assert!(JsTag::Object.is_object());
    assert!(JsTag::Exception.is_exception());
    assert!(JsTag::Int.is_int());
    assert!(JsTag::Bool.is_bool());
    assert!(JsTag::Null.is_null());
    assert!(JsTag::Module.is_module());
    assert!(JsTag::String.is_string());
    assert!(JsTag::Symbol.is_symbol());
    assert!(JsTag::BigInt.is_big_int());
    assert!(JsTag::Float64.is_float64());
    assert!(!JsTag::Float64.is_int());
    assert!(JsTag::Object.has_ref_count());
    assert!(JsTag::String.has_ref_count());
    assert!(!JsTag::Int.has_ref_count());
    assert_eq!(JsTag::FunctionBytecode.name(), "FunctionBytecode");
}

#[test]
fn scalars_are_made_with_their_tag() {
    assert_eq!(create_undefined().tag, JsTag::Undefined);
    assert_eq!(create_null().tag, JsTag::Null);
    assert_eq!(create_bool(true).payload, Payload::Bool(true));
    assert_eq!(create_int(-5).payload, Payload::Int(-5));
    assert_eq!(create_float(2.5f64.to_bits()).payload, Payload::Float64(2.5f64.to_bits()));
    assert!(create_int(1).is_wf());
    let odd = RawJsValue { tag: JsTag::Int, payload: Payload::Bool(true) };
    assert!(!odd.is_wf());
}

#[test]
fn own_then_release_is_net_zero() {
    let raw = RawJsValue { tag: JsTag::Object, payload: Payload::Ptr(40) };
    let (owned, first) = OwnedJsValue::own(7, &raw);
    assert_eq!(first, RefOp::Dup(raw));
    assert_eq!(owned.context(), 7);
    let second = owned.release();
    assert_eq!(second, RefOp::Free(raw));
    let mut count: i64 = 3;
    for op in [first, second] {
        match op {
            RefOp::Dup(v) if v.tag.has_ref_count() => count += 1,
            RefOp::Free(v) if v.tag.has_ref_count() => count -= 1,
            _ => {}
        }
    }
    assert_eq!(count, 3);
}

#[test]
fn new_and_extract_do_not_touch_the_count() {
    let raw = RawJsValue { tag: JsTag::String, payload: Payload::Ptr(3) };
    let owned = OwnedJsValue::new(1, raw);
    assert_eq!(owned.as_inner(), raw);
    assert_eq!(owned.extract(), raw);
}

#[test]
fn duplicate_and_replace() {
    let a = RawJsValue { tag: JsTag::Object, payload: Payload::Ptr(1) };
    let b = RawJsValue { tag: JsTag::Object, payload: Payload::Ptr(2) };
    let mut owned = OwnedJsValue::new(1, a);
    let (copy, op) = owned.duplicate();
    assert_eq!(op, RefOp::Dup(a));
    assert!(copy.is_same(&owned));
    let op = owned.replace(b);
    assert_eq!(op, RefOp::Free(a));
    assert_eq!(owned.as_inner(), b);
    assert!(!copy.is_same(&owned));
}

#[test]
fn plain_conversions_check_the_tag() {
    let t = OwnedJsValue::new(1, create_bool(true));
    assert_eq!(t.to_bool(), Ok(true));
    assert_eq!(t.to_int(), Err(ValueError::UnexpectedType));
    let i = OwnedJsValue::new(1, create_int(33));
    assert_eq!(i.to_int(), Ok(33));
    assert_eq!(i.to_float(), Err(ValueError::UnexpectedType));
    let f = OwnedJsValue::new(1, create_float(9.4f64.to_bits()));
    assert_eq!(f.to_float().map(f64::from_bits), Ok(9.4));
    assert!(f.is_float());
    assert!(OwnedJsValue::new(1, create_null()).is_null());
    assert!(OwnedJsValue::new(1, create_undefined()).is_undefined());
    assert!(i.check_tag(JsTag::Int).is_ok());
    assert_eq!(i.check_tag(JsTag::Bool), Err(ValueError::UnexpectedType));
}
