//! A script value as a host value: a tree of plain data.

use crate::value::bigint::JsBigInt;
use crate::value::raw::RawJsValue;
use vstd::prelude::*;

verus! {

/// A script value on the host side.
#[derive(Debug, PartialEq)]
pub enum JsValue {
    Undefined,
    Null,
    Bool(bool),
    Int(i32),
    /// A float, as its bits.
    Float(u64),
    String(String),
    Array(Vec<JsValue>),
    /// An object: its properties in order. No key occurs twice.
    Object(Vec<(String, JsValue)>),
    /// A function, named by the value that points to it.
    Function(RawJsValue),
    /// A date, as milliseconds since the epoch.
    Date(i64),
    Symbol,
    BigInt(JsBigInt),
}

/// What a `JsValue` stands for.
pub enum JsValueView {
    Undefined,
    Null,
    Bool(bool),
    Int(i32),
    Float(u64),
    String(Seq<char>),
    Array(Seq<JsValueView>),
    Object(Seq<(Seq<char>, JsValueView)>),
    Function(RawJsValue),
    Date(i64),
    Symbol,
    BigInt(JsBigInt),
}

impl JsValue {
    /// What the value stands for.
    pub open spec fn view(&self) -> JsValueView
        decreases self,
    {
        match self {
            JsValue::Undefined => JsValueView::Undefined,
            JsValue::Null => JsValueView::Null,
            JsValue::Bool(b) => JsValueView::Bool(*b),
            JsValue::Int(i) => JsValueView::Int(*i),
            JsValue::Float(bits) => JsValueView::Float(*bits),
            JsValue::String(s) => JsValueView::String(s@),
            JsValue::Array(items) => JsValueView::Array(
                Seq::new(
                    items@.len(),
                    |i: int|
                        if 0 <= i < items@.len() {
                            items@[i].view()
                        } else {
                            JsValueView::Undefined
                        },
                ),
            ),
            JsValue::Object(props) => JsValueView::Object(
                Seq::new(
                    props@.len(),
                    |i: int|
                        if 0 <= i < props@.len() {
                            (props@[i].0@, props@[i].1.view())
                        } else {
                            (Seq::empty(), JsValueView::Undefined)
                        },
                ),
            ),
            JsValue::Function(f) => JsValueView::Function(*f),
            JsValue::Date(ms) => JsValueView::Date(*ms),
            JsValue::Symbol => JsValueView::Symbol,
            JsValue::BigInt(b) => JsValueView::BigInt(*b),
        }
    }
}

/// The views of `items`, in order.
pub open spec fn views_of(items: Seq<JsValue>) -> Seq<JsValueView> {
    Seq::new(items.len(), |i: int| items[i]@)
}

/// The keys and the views of the values of `props`, in order.
pub open spec fn prop_views_of(props: Seq<(String, JsValue)>) -> Seq<(Seq<char>, JsValueView)> {
    Seq::new(props.len(), |i: int| (props[i].0@, props[i].1@))
}

/// The keys of the properties `props`, in order.
pub open spec fn keys_of(props: Seq<(Seq<char>, JsValueView)>) -> Seq<Seq<char>> {
    Seq::new(props.len(), |i: int| props[i].0)
}

/// The view of an array is the array of the views.
pub proof fn lemma_view_array(items: Vec<JsValue>)
    ensures
        JsValue::Array(items)@ == JsValueView::Array(views_of(items@)),
{
    let whole = JsValue::Array(items);
    assert(whole@ is Array);
    let got = whole@->Array_0;
    assert(got.len() == items@.len());
    assert forall|i: int| 0 <= i < got.len() implies got[i] == views_of(items@)[i] by {}
    assert(got =~= views_of(items@));
}

/// The view of an object is the object of the keys and the views.
pub proof fn lemma_view_object(props: Vec<(String, JsValue)>)
    ensures
        JsValue::Object(props)@ == JsValueView::Object(prop_views_of(props@)),
{
    let whole = JsValue::Object(props);
    assert(whole@ is Object);
    let got = whole@->Object_0;
    assert(got.len() == props@.len());
    assert forall|i: int| 0 <= i < got.len() implies got[i] == prop_views_of(props@)[i] by {}
    assert(got =~= prop_views_of(props@));
}

/// Whether no key occurs twice among `props`.
fn keys_distinct(props: &Vec<(String, JsValue)>) -> (r: bool)
    ensures
        r == keys_of(prop_views_of(props@)).no_duplicates(),
{
    let ghost keys = keys_of(prop_views_of(props@));
    let mut i: usize = 0;
    while i < props.len()
        invariant
            i <= props.len(),
            keys == keys_of(prop_views_of(props@)),
            forall|a: int, b: int| 0 <= b < a < i ==> keys[a] != keys[b],
        decreases props.len() - i,
    {
        let mut j: usize = 0;
        while j < i
            invariant
                j <= i,
                i < props.len(),
                keys == keys_of(prop_views_of(props@)),
                forall|b: int| 0 <= b < j ==> keys[i as int] != keys[b],
            decreases i - j,
        {
            if props[i].0 == props[j].0 {
                assert(keys[i as int] == keys[j as int]);
                return false;
            }
            j += 1;
        }
        i += 1;
    }
    assert forall|a: int, b: int| 0 <= a < keys.len() && 0 <= b < keys.len() && a != b implies keys[a]
        != keys[b] by {
        if b < a {
        } else {
            assert(keys[b] != keys[a]);
        }
    }
    true
}

impl JsValue {
    /// Whether the value can be written into `heap`: no symbol
    /// occurs in it, no object has a key twice, and each function
    /// in it is a function of that store.
    pub fn encodable(&self, heap: &crate::value::heap::Heap) -> (r: bool)
        ensures
            r == crate::convert::model::encodable_in(self@, heap@),
        decreases self,
    {
        match self {
            JsValue::Symbol => false,
            JsValue::Function(f) => f.is_wf() && f.tag.is_object() && matches!(
                heap.target(f),
                Some(crate::value::heap::HeapCell::Function)
            ),
            JsValue::Array(items) => {
                proof {
                    lemma_view_array(*items);
                }
                let mut i: usize = 0;
                while i < items.len()
                    invariant
                        i <= items.len(),
                        decreases_to!(self => items),
                        self@ == JsValueView::Array(views_of(items@)),
                        forall|k: int|
                            0 <= k < i ==> crate::convert::model::encodable_in(
                                #[trigger] views_of(items@)[k],
                                heap@,
                            ),
                    decreases items.len() - i,
                {
                    assert(decreases_to!(self => items[i as int]));
                    if !items[i].encodable(heap) {
                        proof {
                            let views = self@->Array_0;
                            assert(views[i as int] == items@[i as int]@);
                            assert(!crate::convert::model::encodable_in(views[i as int], heap@));
                        }
                        return false;
                    }
                    i += 1;
                }
                true
            },
            JsValue::Object(props) => {
                proof {
                    lemma_view_object(*props);
                }
                let mut i: usize = 0;
                while i < props.len()
                    invariant
                        i <= props.len(),
                        decreases_to!(self => props),
                        self@ == JsValueView::Object(prop_views_of(props@)),
                        forall|k: int|
                            0 <= k < i ==> crate::convert::model::encodable_in(
                                (#[trigger] prop_views_of(props@)[k]).1,
                                heap@,
                            ),
                    decreases props.len() - i,
                {
                    assert(decreases_to!(self => props[i as int]));
                    assert(decreases_to!(props[i as int] => props[i as int].1));
                    if !props[i].1.encodable(heap) {
                        proof {
                            let views = self@->Object_0;
                            assert(views[i as int].1 == props@[i as int].1@);
                            assert(!crate::convert::model::encodable_in(views[i as int].1, heap@));
                        }
                        return false;
                    }
                    i += 1;
                }
                keys_distinct(props)
            },
            _ => true,
        }
    }
}

} // verus!
