//! Small helpers: making values, checking text, writing numbers.

use crate::errors::ValueError;
use crate::tag::JsTag;
use crate::value::array::OwnedJsArray;
use crate::value::function::JsFunction;
use crate::value::object::OwnedJsObject;
use crate::value::heap::{Heap, HeapCell};
use crate::value::raw::{Payload, RawJsValue};
use crate::value::value::OwnedJsValue;
use vstd::prelude::*;
use vstd::string::StringSliceAdditionalSpecFns;
use vstd::string::StrSliceExecFns;
use vstd::string::StringExecFns;

verus! {

/// The `undefined` value.
pub fn create_undefined() -> (r: RawJsValue)
    ensures
        r == RawJsValue::spec_undefined(),
        r.wf(),
{
    RawJsValue { tag: JsTag::Undefined, payload: Payload::Empty }
}

/// The `null` value.
pub fn create_null() -> (r: RawJsValue)
    ensures
        r == RawJsValue::spec_null(),
        r.wf(),
{
    RawJsValue { tag: JsTag::Null, payload: Payload::Empty }
}

/// The boolean `value` as an engine value.
pub fn create_bool(value: bool) -> (r: RawJsValue)
    ensures
        r == (RawJsValue { tag: JsTag::Bool, payload: Payload::Bool(value) }),
        r.wf(),
{
    RawJsValue { tag: JsTag::Bool, payload: Payload::Bool(value) }
}

/// The integer `value` as an engine value.
pub fn create_int(value: i32) -> (r: RawJsValue)
    ensures
        r == (RawJsValue { tag: JsTag::Int, payload: Payload::Int(value) }),
        r.wf(),
{
    RawJsValue { tag: JsTag::Int, payload: Payload::Int(value) }
}

/// The float with the bits `bits` as an engine value.
pub fn create_float(bits: u64) -> (r: RawJsValue)
    ensures
        r == (RawJsValue { tag: JsTag::Float64, payload: Payload::Float64(bits) }),
        r.wf(),
{
    RawJsValue { tag: JsTag::Float64, payload: Payload::Float64(bits) }
}

/// Whether `text` holds the character with the number zero.
pub open spec fn has_zero(text: Seq<char>) -> bool {
    exists|i: int| 0 <= i < text.len() && text[i] == '\0'
}

/// Whether `text` holds the character with the number zero. Such
/// text cannot go to the engine as a C string.
pub fn contains_zero(text: &str) -> (r: bool)
    ensures
        r == has_zero(text@),
{
    let n = text.unicode_len();
    let mut i: usize = 0;
    while i < n
        invariant
            i <= n,
            n == text@.len(),
            forall|k: int| 0 <= k < i ==> text@[k] != '\0',
        decreases n - i,
    {
        if text.get_char(i) == '\0' {
            return true;
        }
        i += 1;
    }
    false
}

/// Checks that `value` can go to the engine as a C string: it fails
/// exactly when the text holds a zero character.
pub fn make_cstring(value: &str) -> (r: Result<(), ValueError>)
    ensures
        r is Err <==> has_zero(value@),
        r matches Err(e) ==> e == ValueError::StringWithZeroBytes,
{
    if contains_zero(value) {
        Err(ValueError::StringWithZeroBytes)
    } else {
        Ok(())
    }
}

} // verus!

verus! {

/// The character that stands for the digit `d`.
pub open spec fn digit_char(d: nat) -> char {
    if d == 0 {
        '0'
    } else if d == 1 {
        '1'
    } else if d == 2 {
        '2'
    } else if d == 3 {
        '3'
    } else if d == 4 {
        '4'
    } else if d == 5 {
        '5'
    } else if d == 6 {
        '6'
    } else if d == 7 {
        '7'
    } else if d == 8 {
        '8'
    } else {
        '9'
    }
}

/// The number `n` written in decimal, without leading zeros.
pub open spec fn decimal_digits(n: nat) -> Seq<char>
    decreases n,
{
    if n < 10 {
        seq![digit_char(n)]
    } else {
        decimal_digits(n / 10).push(digit_char(n % 10))
    }
}

/// The digit `d` as text.
fn digit_str(d: usize) -> (r: &'static str)
    requires
        d < 10,
    ensures
        r@ == seq![digit_char(d as nat)],
{
    proof {
        reveal_strlit("0");
        reveal_strlit("1");
        reveal_strlit("2");
        reveal_strlit("3");
        reveal_strlit("4");
        reveal_strlit("5");
        reveal_strlit("6");
        reveal_strlit("7");
        reveal_strlit("8");
        reveal_strlit("9");
    }
    let r = if d == 0 {
        "0"
    } else if d == 1 {
        "1"
    } else if d == 2 {
        "2"
    } else if d == 3 {
        "3"
    } else if d == 4 {
        "4"
    } else if d == 5 {
        "5"
    } else if d == 6 {
        "6"
    } else if d == 7 {
        "7"
    } else if d == 8 {
        "8"
    } else {
        "9"
    };
    assert(r@ =~= seq![digit_char(d as nat)]);
    r
}

/// Writes `n` in decimal.
pub fn decimal(n: usize) -> (r: String)
    ensures
        r@ == decimal_digits(n as nat),
    decreases n,
{
    if n < 10 {
        String::from_str(digit_str(n))
    } else {
        let mut s = decimal(n / 10);
        s.append(digit_str(n % 10));
        assert(s@ =~= decimal_digits((n / 10) as nat).push(digit_char((n % 10) as nat)));
        s
    }
}

} // verus!

verus! {

/// `needle` occurs in `haystack` at the place `at`.
pub open spec fn occurs_at(needle: Seq<u8>, haystack: Seq<u8>, at: int) -> bool {
    &&& 0 <= at
    &&& at + needle.len() <= haystack.len()
    &&& haystack.subrange(at, at + needle.len()) == needle
}

/// `needle` occurs somewhere in `haystack`.
pub open spec fn occurs_in(needle: Seq<u8>, haystack: Seq<u8>) -> bool {
    exists|at: int| occurs_at(needle, haystack, at)
}

/// Whether `needle` occurs in `haystack` at the place `at`.
fn matches_at(needle: &[u8], haystack: &[u8], at: usize) -> (r: bool)
    requires
        at + needle@.len() <= haystack@.len(),
    ensures
        r == occurs_at(needle@, haystack@, at as int),
{
    let n = needle.len();
    let h = haystack.len();
    let mut j: usize = 0;
    while j < n
        invariant
            j <= n,
            n == needle@.len(),
            h == haystack@.len(),
            at + n <= h,
            forall|k: int| 0 <= k < j ==> haystack@[at + k] == needle@[k],
        decreases n - j,
    {
        if haystack[at + j] != needle[j] {
            assert(haystack@.subrange(at as int, at + needle@.len())[j as int] != needle@[j as int]);
            return false;
        }
        j += 1;
    }
    assert(haystack@.subrange(at as int, at + needle@.len()) =~= needle@);
    true
}

/// The text `needle` occurs in the text `haystack`, both taken as
/// the bytes of their UTF-8 form.
pub open spec fn text_contains(haystack: Seq<char>, needle: Seq<char>) -> bool {
    occurs_in(vstd::utf8::encode_utf8(needle), vstd::utf8::encode_utf8(haystack))
}

/// Whether the text `needle` occurs in the text `haystack`.
pub fn contains(haystack: &str, needle: &str) -> (r: bool)
    ensures
        r == text_contains(haystack@, needle@),
{
    let h = haystack.as_bytes();
    let n = needle.as_bytes();
    if n.len() > h.len() {
        return false;
    }
    let last = h.len() - n.len();
    let mut i: usize = 0;
    loop
        invariant
            i <= last,
            last == h@.len() - n@.len(),
            h@ == vstd::utf8::encode_utf8(haystack@),
            n@ == vstd::utf8::encode_utf8(needle@),
            forall|k: int| 0 <= k < i ==> !occurs_at(n@, h@, k),
        ensures
            i == last,
            forall|k: int| 0 <= k <= last ==> !occurs_at(n@, h@, k),
        decreases last - i,
    {
        if matches_at(n, h, i) {
            assert(occurs_at(n@, h@, i as int));
            return true;
        }
        if i == last {
            break ;
        }
        i += 1;
    }
    false
}

} // verus!

verus! {

/// A new string with the text `value`.
pub fn create_string(heap: &mut Heap, value: &str) -> (r: Result<RawJsValue, ValueError>)
    requires
        old(heap).wf(),
    ensures
        final(heap).wf(),
        r matches Ok(v) && final(heap)@.len() == old(heap)@.len() + 1 && final(heap)@.drop_last() == old(heap)@ && (final(heap)@.last() matches HeapCell::Text(t) && t@
            == value@) && v == (RawJsValue {
            tag: JsTag::String,
            payload: Payload::Ptr(old(heap)@.len() as usize),
        }),
{
    let v = heap.store(HeapCell::Text(String::from_str(value)));
    assert(heap@.drop_last() =~= old(heap)@);
    Ok(v)
}

/// A new array without elements.
pub fn create_empty_array(heap: &mut Heap) -> (r: Result<RawJsValue, ValueError>)
    requires
        old(heap).wf(),
    ensures
        final(heap).wf(),
        r matches Ok(v) && final(heap)@.len() == old(heap)@.len() + 1 && final(heap)@.drop_last() == old(heap)@ && (final(heap)@.last() matches HeapCell::Array(items)
            && items@.len() == 0) && v == (RawJsValue {
            tag: JsTag::Object,
            payload: Payload::Ptr(old(heap)@.len() as usize),
        }),
{
    let v = heap.store(HeapCell::Array(Vec::new()));
    assert(heap@.drop_last() =~= old(heap)@);
    Ok(v)
}

/// A new object without properties.
pub fn create_empty_object(heap: &mut Heap) -> (r: Result<RawJsValue, ValueError>)
    requires
        old(heap).wf(),
    ensures
        final(heap).wf(),
        r matches Ok(v) && final(heap)@.len() == old(heap)@.len() + 1 && final(heap)@.drop_last() == old(heap)@ && (final(heap)@.last() matches HeapCell::Object(props)
            && props@.len() == 0) && v == (RawJsValue {
            tag: JsTag::Object,
            payload: Payload::Ptr(old(heap)@.len() as usize),
        }),
{
    let cell = HeapCell::Object(Vec::new());
    assert(cell.keys() =~= Seq::<Seq<char>>::empty());
    let v = heap.store(cell);
    assert(heap@.drop_last() =~= old(heap)@);
    Ok(v)
}

/// The value that a function is, handed out together with the duty
/// to release it.
pub fn create_function(func: JsFunction) -> (r: Result<RawJsValue, ValueError>)
    ensures
        r == Ok::<RawJsValue, ValueError>(func.spec_value().spec_inner()),
{
    Ok(func.into_value().extract())
}

/// Takes `value` over as it is: it already carries the reference
/// that is handed over.
pub fn own_raw_value(context: usize, value: RawJsValue) -> (r: OwnedJsValue)
    ensures
        r.spec_context() == context,
        r.spec_inner() == value,
{
    OwnedJsValue::new(context, value)
}

/// The text of a string of the store, for a reader that wants to
/// borrow it. Any value but a string is an error that names its kind.
pub fn deserialize_borrowed_str(heap: &Heap, value: &RawJsValue) -> (r: Result<String, ValueError>)
    ensures
        if !(value.tag is String) {
            r matches Err(ValueError::Internal(m)) && m@ == "Expected a string, got a "@
                + value.tag.spec_name()
        } else {
            match crate::value::heap::target_cell(heap@, *value) {
                Some(HeapCell::Text(t)) => r matches Ok(s) && s@ == t@,
                _ => r matches Err(ValueError::Internal(m)) && m@
                    == "Could not convert string: got a null pointer"@,
            }
        },
{
    if !value.tag.is_string() {
        return Err(
            ValueError::Internal(
                String::from_str("Expected a string, got a ").concat(value.tag.name()),
            ),
        );
    }
    match heap.target(value) {
        Some(HeapCell::Text(t)) => Ok(t.clone()),
        _ => Err(
            ValueError::Internal(String::from_str("Could not convert string: got a null pointer")),
        ),
    }
}

} // verus!

verus! {

/// Sets the element `index` of the array `array` to `value`, which
/// the array takes over.
pub fn add_array_element(heap: &mut Heap, array: RawJsValue, index: u32, value: RawJsValue) -> (r:
    Result<(), ValueError>)
    requires
        old(heap).wf(),
        crate::value::heap::value_ok(old(heap)@, value),
    ensures
        final(heap).wf(),
        r is Ok <==> crate::value::heap::is_array_in(old(heap)@, array),
        r matches Err(e) ==> (e matches ValueError::Internal(m) && m@
            == "Could not add element to array"@) && final(heap)@ == old(heap)@,
        r is Ok ==> crate::value::array::element_set(
            old(heap)@,
            final(heap)@,
            array,
            index as int,
            value,
            Ok(()),
        ),
{
    let holder = match OwnedJsArray::try_from_value(heap, OwnedJsValue::new(0, array)) {
        Ok(a) => a,
        Err(_) => {
            return Err(ValueError::Internal(String::from_str("Could not add element to array")));
        },
    };
    let (r, _) = holder.set_index(heap, index, OwnedJsValue::new(0, value));
    match r {
        Ok(()) => Ok(()),
        Err(_) => Err(ValueError::Internal(String::from_str("Could not add element to array"))),
    }
}

/// Sets the property `key` of the object `object` to `value`, which
/// the object takes over.
pub fn add_object_property(heap: &mut Heap, object: RawJsValue, key: &str, value: RawJsValue) -> (r:
    Result<(), ValueError>)
    requires
        old(heap).wf(),
        crate::value::heap::value_ok(old(heap)@, value),
    ensures
        final(heap).wf(),
        if has_zero(key@) {
            r == Err::<(), ValueError>(ValueError::StringWithZeroBytes) && final(heap)@ == old(heap)@
        } else if crate::value::heap::target_cell(old(heap)@, object) matches Some(
            HeapCell::Object(_),
        ) {
            r is Ok && crate::value::object::property_set(
                old(heap)@,
                final(heap)@,
                object,
                key@,
                value,
                Ok(()),
            )
        } else {
            (r matches Err(ValueError::Internal(m)) && m@ == "Could not add property to object"@)
                && final(heap)@ == old(heap)@
        },
{
    if contains_zero(key) {
        return Err(ValueError::StringWithZeroBytes);
    }
    let holder = match OwnedJsObject::try_from_value(OwnedJsValue::new(0, object)) {
        Ok(o) => o,
        Err(_) => {
            return Err(ValueError::Internal(String::from_str("Could not add property to object")));
        },
    };
    let (r, _) = holder.set_property(heap, key, OwnedJsValue::new(0, value));
    match r {
        Ok(()) => Ok(()),
        Err(_) => Err(ValueError::Internal(String::from_str("Could not add property to object"))),
    }
}

} // verus!
