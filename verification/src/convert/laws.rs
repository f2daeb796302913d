//! What holds of reading and writing together.

use super::de::{lemma_path_bound, path_ok};
use super::js_value::JsValueView;
use super::model::{
    cell_of, decode, decode_items, decode_props, decode_value, height, max_height,
    max_prop_height, represents, DecodeFault,
};
use crate::tag::JsTag;
use crate::value::heap::{HeapCell, Property};
use crate::value::raw::{Payload, RawJsValue};
use vstd::prelude::*;

verus! {

/// The store `more` holds all of `cells`, in the same places.
pub open spec fn extends(more: Seq<HeapCell>, cells: Seq<HeapCell>) -> bool {
    &&& cells.len() <= more.len()
    &&& forall|i: int| 0 <= i < cells.len() ==> #[trigger] more[i] == cells[i]
}

/// The value that names the object in the place `place`.
pub open spec fn object_at(place: usize) -> RawJsValue {
    RawJsValue { tag: JsTag::Object, payload: Payload::Ptr(place) }
}

/// No element is higher than the highest.
pub proof fn lemma_max_height(items: Seq<JsValueView>, i: int)
    requires
        0 <= i < items.len(),
    ensures
        height(items[i]) <= max_height(items),
    decreases items.len(),
{
    if i < items.len() - 1 {
        lemma_max_height(items.drop_last(), i);
    }
}

/// No property value is higher than the highest.
pub proof fn lemma_max_prop_height(props: Seq<(Seq<char>, JsValueView)>, i: int)
    requires
        0 <= i < props.len(),
    ensures
        height(props[i].1) <= max_prop_height(props),
    decreases props.len(),
{
    if i < props.len() - 1 {
        lemma_max_prop_height(props.drop_last(), i);
    }
}

/// What a value is in a store, it still is when the store has grown.
pub proof fn lemma_represents_grows(
    cells: Seq<HeapCell>,
    more: Seq<HeapCell>,
    v: RawJsValue,
    view: JsValueView,
)
    requires
        represents(cells, v, view),
        extends(more, cells),
    ensures
        represents(more, v, view),
    decreases view,
{
    match view {
        JsValueView::Array(items) => {
            let raws = cell_of(cells, v, JsTag::Object)->Some_0->Array_0;
            assert(cell_of(more, v, JsTag::Object) == cell_of(cells, v, JsTag::Object));
            assert forall|i: int| 0 <= i < items.len() implies represents(
                more,
                raws@[i],
                #[trigger] items[i],
            ) by {
                lemma_represents_grows(cells, more, raws@[i], items[i]);
            }
        },
        JsValueView::Object(props) => {
            let ps = cell_of(cells, v, JsTag::Object)->Some_0->Object_0;
            assert(cell_of(more, v, JsTag::Object) == cell_of(cells, v, JsTag::Object));
            assert forall|i: int| 0 <= i < props.len() implies ps@[i].key@ == (
            #[trigger] props[i]).0 && represents(more, ps@[i].value, props[i].1) by {
                lemma_represents_grows(cells, more, ps@[i].value, props[i].1);
            }
        },
        JsValueView::String(_) => {
            assert(cell_of(more, v, JsTag::String) == cell_of(cells, v, JsTag::String));
        },
        JsValueView::BigInt(_) => {
            assert(cell_of(more, v, JsTag::BigInt) == cell_of(cells, v, JsTag::BigInt));
        },
        JsValueView::Date(_) => {
            assert(cell_of(more, v, JsTag::Object) == cell_of(cells, v, JsTag::Object));
        },
        JsValueView::Function(_) => {
            assert(cell_of(more, v, JsTag::Object) == cell_of(cells, v, JsTag::Object));
        },
        _ => {},
    }
}

/// A value of a store is at most one host value.
pub proof fn lemma_represents_unique(
    cells: Seq<HeapCell>,
    v: RawJsValue,
    a: JsValueView,
    b: JsValueView,
)
    requires
        represents(cells, v, a),
        represents(cells, v, b),
    ensures
        a == b,
    decreases a,
{
    match a {
        JsValueView::Array(items) => {
            assert(b is Array);
            let others = b->Array_0;
            let raws = cell_of(cells, v, JsTag::Object)->Some_0->Array_0;
            assert forall|i: int| 0 <= i < items.len() implies items[i] == others[i] by {
                lemma_represents_unique(cells, raws@[i], items[i], others[i]);
            }
            assert(items =~= others);
        },
        JsValueView::Object(props) => {
            assert(b is Object);
            let others = b->Object_0;
            let ps = cell_of(cells, v, JsTag::Object)->Some_0->Object_0;
            assert forall|i: int| 0 <= i < props.len() implies props[i] == others[i] by {
                lemma_represents_unique(cells, ps@[i].value, props[i].1, others[i].1);
            }
            assert(props =~= others);
        },
        JsValueView::String(s) => {
            assert(b is String);
            assert(b->String_0 =~= s);
        },
        _ => {},
    }
}

/// The container in the place `place` is a host value that is higher than `view`.
pub open spec fn higher(cells: Seq<HeapCell>, place: usize, view: JsValueView) -> bool {
    exists|w: JsValueView| #[trigger]
        represents(cells, object_at(place), w) && height(w) > height(view)
}

/// Every container on `path` is a host value that is higher than `view`.
pub open spec fn above(cells: Seq<HeapCell>, path: Seq<usize>, view: JsValueView) -> bool {
    forall|k: int| 0 <= k < path.len() ==> higher(cells, #[trigger] path[k], view)
}

/// Reading a value that is a host value gives that host value, below
/// any containers that are higher than it.
pub proof fn lemma_decode_represented(
    cells: Seq<HeapCell>,
    v: RawJsValue,
    view: JsValueView,
    path: Seq<usize>,
    fuel: nat,
)
    requires
        represents(cells, v, view),
        path_ok(path, cells.len()),
        fuel + path.len() == cells.len(),
        above(cells, path, view),
    ensures
        decode(cells, v, path, fuel) == Ok::<JsValueView, DecodeFault>(view),
    decreases view, 1nat, 0nat,
{
    match view {
        JsValueView::Array(items) => {
            let p = v.payload->Ptr_0;
            lemma_enter(cells, v, view, path, fuel);
            lemma_decode_items_represented(cells, v, view, path.push(p), (fuel - 1) as nat, items.len());
            let raws = cell_of(cells, v, JsTag::Object)->Some_0->Array_0;
            assert(raws@.subrange(0, items.len() as int) =~= raws@);
            assert(items.subrange(0, items.len() as int) =~= items);
        },
        JsValueView::Object(props) => {
            let p = v.payload->Ptr_0;
            lemma_enter(cells, v, view, path, fuel);
            lemma_decode_props_represented(cells, v, view, path.push(p), (fuel - 1) as nat, props.len());
            let ps = cell_of(cells, v, JsTag::Object)->Some_0->Object_0;
            assert(ps@.subrange(0, props.len() as int) =~= ps@);
            assert(props.subrange(0, props.len() as int) =~= props);
        },
        JsValueView::String(s) => {},
        _ => {},
    }
}

/// A container that is a host value is not on a path of higher
/// containers, and the path can take it.
pub proof fn lemma_enter(
    cells: Seq<HeapCell>,
    v: RawJsValue,
    view: JsValueView,
    path: Seq<usize>,
    fuel: nat,
)
    requires
        represents(cells, v, view),
        view is Array || view is Object,
        path_ok(path, cells.len()),
        fuel + path.len() == cells.len(),
        above(cells, path, view),
    ensures
        v.payload is Ptr,
        v == object_at(v.payload->Ptr_0),
        !path.contains(v.payload->Ptr_0),
        fuel > 0,
        path_ok(path.push(v.payload->Ptr_0), cells.len()),
{
    let p = v.payload->Ptr_0;
    assert(v == object_at(p));
    if path.contains(p) {
        let k = choose|k: int| 0 <= k < path.len() && path[k] == p;
        assert(higher(cells, path[k], view));
        let w = choose|w: JsValueView| #[trigger]
            represents(cells, object_at(p), w) && height(w) > height(view);
        lemma_represents_unique(cells, v, w, view);
    }
    let longer = path.push(p);
    assert(longer.no_duplicates()) by {
        assert forall|i: int, j: int| 0 <= i < longer.len() && 0 <= j < longer.len() && i != j implies longer[i]
            != longer[j] by {
            if i < path.len() && j < path.len() {
                assert(path[i] != path[j]);
            } else if i < path.len() {
                assert(path.contains(path[i]));
            } else {
                assert(path.contains(path[j]));
            }
        }
    }
    lemma_path_bound(longer, cells.len());
}

/// Reading the first `n` elements of an array that is a host value
/// gives the first `n` elements of that host value.
pub proof fn lemma_decode_items_represented(
    cells: Seq<HeapCell>,
    v: RawJsValue,
    view: JsValueView,
    path: Seq<usize>,
    fuel: nat,
    n: nat,
)
    requires
        represents(cells, v, view),
        view is Array,
        n <= view->Array_0.len(),
        v.payload is Ptr,
        path_ok(path, cells.len()),
        fuel + path.len() == cells.len(),
        path.len() > 0,
        path.last() == v.payload->Ptr_0,
        above(cells, path.drop_last(), view),
    ensures
        decode_items(
            cells,
            cell_of(cells, v, JsTag::Object)->Some_0->Array_0@.subrange(0, n as int),
            path,
            fuel,
        ) == Ok::<Seq<JsValueView>, DecodeFault>(view->Array_0.subrange(0, n as int)),
    decreases view, 0nat, n,
{
    let items = view->Array_0;
    let raws = cell_of(cells, v, JsTag::Object)->Some_0->Array_0@;
    if n == 0 {
        assert(items.subrange(0, 0) =~= Seq::<JsValueView>::empty());
    } else {
        lemma_decode_items_represented(cells, v, view, path, fuel, (n - 1) as nat);
        assert(raws.subrange(0, n as int).drop_last() =~= raws.subrange(0, n - 1));
        assert(raws.subrange(0, n as int).last() == raws[n - 1]);
        lemma_max_height(items, n - 1);
        lemma_child_above(cells, v, view, path, items[n - 1]);
        lemma_decode_represented(cells, raws[n - 1], items[n - 1], path, fuel);
        assert(items.subrange(0, n as int) =~= items.subrange(0, n - 1).push(items[n - 1]));
    }
}

/// Reading the first `n` properties of an object that is a host value
/// gives the first `n` properties of that host value.
pub proof fn lemma_decode_props_represented(
    cells: Seq<HeapCell>,
    v: RawJsValue,
    view: JsValueView,
    path: Seq<usize>,
    fuel: nat,
    n: nat,
)
    requires
        represents(cells, v, view),
        view is Object,
        n <= view->Object_0.len(),
        v.payload is Ptr,
        path_ok(path, cells.len()),
        fuel + path.len() == cells.len(),
        path.len() > 0,
        path.last() == v.payload->Ptr_0,
        above(cells, path.drop_last(), view),
    ensures
        decode_props(
            cells,
            cell_of(cells, v, JsTag::Object)->Some_0->Object_0@.subrange(0, n as int),
            path,
            fuel,
        ) == Ok::<Seq<(Seq<char>, JsValueView)>, DecodeFault>(
            view->Object_0.subrange(0, n as int),
        ),
    decreases view, 0nat, n,
{
    let props = view->Object_0;
    let ps = cell_of(cells, v, JsTag::Object)->Some_0->Object_0@;
    if n == 0 {
        assert(props.subrange(0, 0) =~= Seq::<(Seq<char>, JsValueView)>::empty());
    } else {
        lemma_decode_props_represented(cells, v, view, path, fuel, (n - 1) as nat);
        assert(ps.subrange(0, n as int).drop_last() =~= ps.subrange(0, n - 1));
        assert(ps.subrange(0, n as int).last() == ps[n - 1]);
        lemma_max_prop_height(props, n - 1);
        lemma_child_above(cells, v, view, path, props[n - 1].1);
        lemma_decode_represented(cells, ps[n - 1].value, props[n - 1].1, path, fuel);
        assert(props.subrange(0, n as int) =~= props.subrange(0, n - 1).push(props[n - 1]));
    }
}

/// Below a container, all containers of the path are higher than what
/// the container holds.
pub proof fn lemma_child_above(
    cells: Seq<HeapCell>,
    v: RawJsValue,
    view: JsValueView,
    path: Seq<usize>,
    child: JsValueView,
)
    requires
        represents(cells, v, view),
        v.payload is Ptr,
        v.tag is Object,
        path.len() > 0,
        path.last() == v.payload->Ptr_0,
        above(cells, path.drop_last(), view),
        height(child) < height(view),
    ensures
        above(cells, path, child),
{
    assert forall|k: int| 0 <= k < path.len() implies higher(cells, #[trigger] path[k], child) by {
        if k < path.len() - 1 {
            assert(path.drop_last()[k] == path[k]);
            assert(higher(cells, path.drop_last()[k], view));
            let w = choose|w: JsValueView| #[trigger]
                represents(cells, object_at(path[k]), w) && height(w) > height(view);
            assert(represents(cells, object_at(path[k]), w) && height(w) > height(child));
        } else {
            assert(v == object_at(path[k]));
            assert(represents(cells, object_at(path[k]), view) && height(view) > height(child));
        }
    }
}

/// A value that was written as a host value reads back as that host value.
pub proof fn lemma_round_trip(cells: Seq<HeapCell>, v: RawJsValue, view: JsValueView)
    requires
        represents(cells, v, view),
    ensures
        decode_value(cells, v) == Ok::<JsValueView, DecodeFault>(view),
{
    lemma_decode_represented(cells, v, view, Seq::empty(), cells.len());
}

} // verus!

verus! {

/// What `serialize_value` has written reads back as the host value
/// that was written.
pub proof fn lemma_written_reads_back(
    before: Seq<HeapCell>,
    after: Seq<HeapCell>,
    v: RawJsValue,
    view: JsValueView,
)
    requires
        crate::convert::ser::written(before, after, Ok(v), view),
    ensures
        decode_value(after, v) == Ok::<JsValueView, DecodeFault>(view),
{
    lemma_round_trip(after, v, view);
}

/// An object that holds itself as the value of a property cannot be
/// read: the reading ends in a fault, and in `Circular` where that
/// property is the first of the object.
pub proof fn lemma_self_reference_is_circular(cells: Seq<HeapCell>, place: usize, at: int)
    requires
        place < cells.len(),
        cells[place as int] matches HeapCell::Object(props) && 0 <= at < props@.len()
            && props@[at].value == object_at(place),
    ensures
        decode_value(cells, object_at(place)) is Err,
        at == 0 ==> decode_value(cells, object_at(place)) == Err::<JsValueView, DecodeFault>(
            DecodeFault::Circular,
        ),
{
    let props = cells[place as int]->Object_0@;
    let path = Seq::<usize>::empty().push(place);
    let fuel = (cells.len() - 1) as nat;
    assert(!Seq::<usize>::empty().contains(place));
    assert(path.contains(place)) by {
        assert(path[0] == place);
    }
    let upto = props.subrange(0, at + 1);
    assert(upto.last() == props[at]);
    assert(decode(cells, props[at].value, path, fuel) == Err::<JsValueView, DecodeFault>(
        DecodeFault::Circular,
    ));
    if at == 0 {
        assert(upto.drop_last() =~= Seq::<Property>::empty());
        assert(decode_props(cells, upto.drop_last(), path, fuel) == Ok::<
            Seq<(Seq<char>, JsValueView)>,
            DecodeFault,
        >(Seq::empty()));
        assert(decode_props(cells, upto, path, fuel) == Err::<
            Seq<(Seq<char>, JsValueView)>,
            DecodeFault,
        >(DecodeFault::Circular));
    }
    assert(decode_props(cells, upto, path, fuel) is Err);
    crate::convert::de::lemma_props_fault_stays(cells, props, at + 1, path, fuel);
}

} // verus!
