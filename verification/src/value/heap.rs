//! A detached store of values.
//!
//! The bridge copies engine values into a `Heap` to read them, and
//! builds values in one before they are handed to the engine. A value
//! that lives in the store is named by its place in it, so two values
//! are the same value exactly when they name the same place.

use super::bigint::JsBigInt;
use super::promise_state::PromiseState;
use super::raw::{Payload, RawJsValue};
use crate::tag::JsTag;
use vstd::prelude::*;

verus! {

/// One own, enumerable property of an object.
#[derive(Debug, Clone, PartialEq, Eq)]
pub struct Property {
    pub key: String,
    pub value: RawJsValue,
}

/// What lives at one place of the store.
#[derive(Debug, Clone, PartialEq, Eq)]
pub enum HeapCell {
    /// A string and its text.
    Text(String),
    /// A symbol.
    Symbol,
    /// A big integer.
    BigInt(JsBigInt),
    /// A module.
    Module,
    /// A compiled function.
    FunctionBytecode,
    /// An array and its elements.
    Array(Vec<RawJsValue>),
    /// A plain object and its properties, in the order of their creation.
    Object(Vec<Property>),
    /// Something that can be called.
    Function,
    /// A promise, its state and what it settled to.
    Promise(PromiseState, RawJsValue),
    /// A date, as milliseconds since the epoch.
    Date(i64),
    /// A proxy and its target.
    Proxy(RawJsValue),
}

impl HeapCell {
    /// The tag of a value that lives in this cell.
    pub open spec fn tag(&self) -> JsTag {
        match self {
            HeapCell::Text(_) => JsTag::String,
            HeapCell::Symbol => JsTag::Symbol,
            HeapCell::BigInt(_) => JsTag::BigInt,
            HeapCell::Module => JsTag::Module,
            HeapCell::FunctionBytecode => JsTag::FunctionBytecode,
            _ => JsTag::Object,
        }
    }

    /// The values that this cell refers to.
    pub open spec fn children(&self) -> Seq<RawJsValue> {
        match self {
            HeapCell::Array(items) => items@,
            HeapCell::Object(props) => Seq::new(props@.len(), |i: int| props@[i].value),
            HeapCell::Promise(_, result) => seq![*result],
            HeapCell::Proxy(target) => seq![*target],
            _ => Seq::empty(),
        }
    }

    /// The keys of an object's properties, in order; empty for any other cell.
    pub open spec fn keys(&self) -> Seq<Seq<char>> {
        match self {
            HeapCell::Object(props) => Seq::new(props@.len(), |i: int| props@[i].key@),
            _ => Seq::empty(),
        }
    }
}

/// The value `v` is valid in a store with the cells `cells`: its
/// payload fits its tag, and where it points there is a cell of its kind.
pub open spec fn value_ok(cells: Seq<HeapCell>, v: RawJsValue) -> bool {
    &&& v.wf()
    &&& v.payload matches Payload::Ptr(p) ==> p < cells.len() && cells[p as int].tag() == v.tag
}

/// The cell `cell` is valid in a store with the cells `cells`: all it
/// refers to is valid there, and no key occurs twice.
pub open spec fn cell_ok(cells: Seq<HeapCell>, cell: HeapCell) -> bool {
    &&& forall|k: int| 0 <= k < cell.children().len() ==> value_ok(cells, #[trigger] cell.children()[k])
    &&& cell.keys().no_duplicates()
}

/// Every cell of the store is valid in it.
pub open spec fn cells_ok(cells: Seq<HeapCell>) -> bool {
    forall|i: int| 0 <= i < cells.len() ==> cell_ok(cells, #[trigger] cells[i])
}

/// A value that is valid in a store stays valid when the store grows.
pub proof fn lemma_value_ok_grows(cells: Seq<HeapCell>, more: Seq<HeapCell>, v: RawJsValue)
    requires
        value_ok(cells, v),
        cells.len() <= more.len(),
        forall|i: int| 0 <= i < cells.len() ==> #[trigger] more[i].tag() == cells[i].tag(),
    ensures
        value_ok(more, v),
{
}

/// A cell that is valid in a store stays valid when the store grows.
pub proof fn lemma_cell_ok_grows(cells: Seq<HeapCell>, more: Seq<HeapCell>, cell: HeapCell)
    requires
        cell_ok(cells, cell),
        cells.len() <= more.len(),
        forall|i: int| 0 <= i < cells.len() ==> #[trigger] more[i].tag() == cells[i].tag(),
    ensures
        cell_ok(more, cell),
{
    assert forall|k: int| 0 <= k < cell.children().len() implies value_ok(
        more,
        #[trigger] cell.children()[k],
    ) by {
        lemma_value_ok_grows(cells, more, cell.children()[k]);
    }
}

/// The store.
#[derive(Debug, Clone, PartialEq, Eq)]
pub struct Heap {
    cells: Vec<HeapCell>,
}

impl View for Heap {
    type V = Seq<HeapCell>;

    closed spec fn view(&self) -> Seq<HeapCell> {
        self.cells@
    }
}

impl Heap {
    /// Every cell is valid.
    pub open spec fn wf(&self) -> bool {
        cells_ok(self@)
    }

    /// An empty store.
    pub fn new() -> (heap: Heap)
        ensures
            heap@ == Seq::<HeapCell>::empty(),
            heap.wf(),
    {
        Heap { cells: Vec::new() }
    }

    /// The number of cells.
    pub fn len(&self) -> (n: usize)
        ensures
            n == self@.len(),
    {
        self.cells.len()
    }

    /// The cell at place `at`.
    pub fn cell(&self, at: usize) -> (cell: &HeapCell)
        requires
            at < self@.len(),
        ensures
            *cell == self@[at as int],
    {
        &self.cells[at]
    }

    /// The cell that `value` points to, if it points to one in this store.
    pub fn lookup(&self, value: &RawJsValue) -> (cell: Option<&HeapCell>)
        ensures
            match value.payload {
                Payload::Ptr(p) if p < self@.len() => cell == Some(&self@[p as int]),
                _ => cell is None,
            },
    {
        match value.payload {
            Payload::Ptr(p) => {
                if p < self.cells.len() {
                    Some(&self.cells[p])
                } else {
                    None
                }
            },
            _ => None,
        }
    }

    /// Whether `value` is valid in this store.
    pub fn is_valid(&self, value: &RawJsValue) -> (r: bool)
        ensures
            r == value_ok(self@, *value),
    {
        if !value.is_wf() {
            return false;
        }
        match value.payload {
            Payload::Ptr(_) => self.target(value).is_some(),
            _ => true,
        }
    }

    /// Puts `cell` at a new place and returns the value that names it.
    pub fn store(&mut self, cell: HeapCell) -> (value: RawJsValue)
        requires
            old(self).wf(),
            cell_ok(old(self)@, cell),
        ensures
            final(self)@ == old(self)@.push(cell),
            final(self).wf(),
            old(self)@.len() < usize::MAX,
            value == (RawJsValue { tag: cell.tag(), payload: Payload::Ptr(old(self)@.len() as usize) }),
            value_ok(final(self)@, value),
    {
        let at = self.cells.len();
        let tag = match &cell {
            HeapCell::Text(_) => JsTag::String,
            HeapCell::Symbol => JsTag::Symbol,
            HeapCell::BigInt(_) => JsTag::BigInt,
            HeapCell::Module => JsTag::Module,
            HeapCell::FunctionBytecode => JsTag::FunctionBytecode,
            _ => JsTag::Object,
        };
        self.cells.push(cell);
        proof {
            assert(self.cells@.len() == self.cells.len());
            let before = old(self)@;
            let after = self@;
            assert forall|i: int| 0 <= i < after.len() implies cell_ok(after, #[trigger] after[i]) by {
                if i < before.len() {
                    lemma_cell_ok_grows(before, after, before[i]);
                } else {
                    lemma_cell_ok_grows(before, after, cell);
                }
            }
        }
        RawJsValue { tag, payload: Payload::Ptr(at) }
    }

    /// Puts `cell` in the place `at`, whose cell was of the same kind.
    pub fn replace(&mut self, at: usize, cell: HeapCell)
        requires
            old(self).wf(),
            at < old(self)@.len(),
            cell_ok(old(self)@, cell),
            cell.tag() == old(self)@[at as int].tag(),
        ensures
            final(self)@ == old(self)@.update(at as int, cell),
            final(self).wf(),
    {
        self.cells.set(at, cell);
        proof {
            let before = old(self)@;
            let after = self@;
            assert forall|i: int| 0 <= i < after.len() implies cell_ok(after, #[trigger] after[i]) by {
                if i == at {
                    lemma_cell_ok_grows(before, after, cell);
                } else {
                    lemma_cell_ok_grows(before, after, before[i]);
                }
            }
        }
    }

    /// Drops every cell from the place `len` on. The cells that stay
    /// must not refer to one that goes.
    pub(crate) fn truncate(&mut self, len: usize)
        requires
            len <= old(self)@.len(),
            cells_ok(old(self)@.subrange(0, len as int)),
        ensures
            final(self)@ == old(self)@.subrange(0, len as int),
            final(self).wf(),
    {
        self.cells.truncate(len);
    }
}

} // verus!

verus! {

/// The cell that `v` points to in a store with the cells `cells`, if
/// it points to one of its own kind.
pub open spec fn target_cell(cells: Seq<HeapCell>, v: RawJsValue) -> Option<HeapCell> {
    match v.payload {
        Payload::Ptr(p) if p < cells.len() && cells[p as int].tag() == v.tag => Some(
            cells[p as int],
        ),
        _ => None,
    }
}

/// The value is an array of the store.
pub open spec fn is_array_in(cells: Seq<HeapCell>, v: RawJsValue) -> bool {
    target_cell(cells, v) matches Some(HeapCell::Array(_))
}

/// The value can be called.
pub open spec fn is_function_in(cells: Seq<HeapCell>, v: RawJsValue) -> bool {
    target_cell(cells, v) matches Some(HeapCell::Function)
}

/// The value is a promise of the engine's own making.
pub open spec fn is_promise_in(cells: Seq<HeapCell>, v: RawJsValue) -> bool {
    target_cell(cells, v) matches Some(HeapCell::Promise(_, _))
}

/// The value is a proxy.
pub open spec fn is_proxy_in(cells: Seq<HeapCell>, v: RawJsValue) -> bool {
    target_cell(cells, v) matches Some(HeapCell::Proxy(_))
}

impl Heap {
    /// The cell that `value` points to, if it points to one of its own kind.
    pub fn target(&self, value: &RawJsValue) -> (cell: Option<&HeapCell>)
        ensures
            match target_cell(self@, *value) {
                Some(c) => cell == Some(&c),
                None => cell is None,
            },
    {
        match self.lookup(value) {
            Some(cell) => {
                let tag = match cell {
                    HeapCell::Text(_) => JsTag::String,
                    HeapCell::Symbol => JsTag::Symbol,
                    HeapCell::BigInt(_) => JsTag::BigInt,
                    HeapCell::Module => JsTag::Module,
                    HeapCell::FunctionBytecode => JsTag::FunctionBytecode,
                    _ => JsTag::Object,
                };
                if tag == value.tag {
                    Some(cell)
                } else {
                    None
                }
            },
            None => None,
        }
    }
}

} // verus!

verus! {

/// Whether `v` is valid in a store whose cells have the tags `tags`.
fn check_value(tags: &Vec<JsTag>, v: &RawJsValue) -> (r: bool)
    ensures
        r == (v.wf() && (v.payload matches Payload::Ptr(p) ==> p < tags@.len() && tags@[p as int]
            == v.tag)),
{
    if !v.is_wf() {
        return false;
    }
    match v.payload {
        Payload::Ptr(p) => p < tags.len() && tags[p] == v.tag,
        _ => true,
    }
}

/// Whether no key occurs twice among `props`.
fn check_keys(props: &Vec<Property>) -> (r: bool)
    ensures
        r == Seq::new(props@.len(), |i: int| props@[i].key@).no_duplicates(),
{
    let ghost keys = Seq::new(props@.len(), |i: int| props@[i].key@);
    let mut i: usize = 0;
    while i < props.len()
        invariant
            i <= props.len(),
            keys == Seq::new(props@.len(), |i: int| props@[i].key@),
            forall|a: int, b: int| 0 <= a < i && 0 <= b < a ==> keys[a] != keys[b],
        decreases props.len() - i,
    {
        let mut j: usize = 0;
        while j < i
            invariant
                j <= i,
                i < props.len(),
                keys == Seq::new(props@.len(), |i: int| props@[i].key@),
                forall|b: int| 0 <= b < j ==> keys[i as int] != keys[b],
            decreases i - j,
        {
            if props[i].key == props[j].key {
                assert(keys[i as int] == keys[j as int]);
                return false;
            }
            j += 1;
        }
        i += 1;
    }
    assert forall|a: int, b: int| 0 <= a < keys.len() && 0 <= b < keys.len() && a != b implies keys[a]
        != keys[b] by {
        if b < a {
        } else {
            assert(keys[b] != keys[a]);
        }
    }
    true
}

impl Heap {
    /// A store of the cells `cells`, where every cell is valid among
    /// them; `None` where one is not.
    pub fn from_cells(cells: Vec<HeapCell>) -> (r: Option<Heap>)
        ensures
            r is Some <==> cells_ok(cells@),
            r matches Some(heap) ==> heap@ == cells@ && heap.wf(),
    {
        let mut tags: Vec<JsTag> = Vec::new();
        let mut i: usize = 0;
        while i < cells.len()
            invariant
                i <= cells.len(),
                tags@.len() == i,
                forall|k: int| 0 <= k < i ==> #[trigger] tags@[k] == cells@[k].tag(),
            decreases cells.len() - i,
        {
            let tag = match &cells[i] {
                HeapCell::Text(_) => JsTag::String,
                HeapCell::Symbol => JsTag::Symbol,
                HeapCell::BigInt(_) => JsTag::BigInt,
                HeapCell::Module => JsTag::Module,
                HeapCell::FunctionBytecode => JsTag::FunctionBytecode,
                _ => JsTag::Object,
            };
            tags.push(tag);
            i += 1;
        }
        let mut i: usize = 0;
        while i < cells.len()
            invariant
                i <= cells.len(),
                tags@.len() == cells@.len(),
                forall|k: int| 0 <= k < cells@.len() ==> #[trigger] tags@[k] == cells@[k].tag(),
                forall|k: int| 0 <= k < i ==> cell_ok(cells@, #[trigger] cells@[k]),
            decreases cells.len() - i,
        {
            let ok = match &cells[i] {
                HeapCell::Array(items) => {
                    let mut j: usize = 0;
                    let mut all = true;
                    while j < items.len()
                        invariant
                            j <= items.len(),
                            tags@.len() == cells@.len(),
                            forall|k: int|
                                0 <= k < cells@.len() ==> #[trigger] tags@[k] == cells@[k].tag(),
                            all == (forall|k: int| 0 <= k < j ==> value_ok(cells@, #[trigger] items@[k])),
                        decreases items.len() - j,
                    {
                        if !check_value(&tags, &items[j]) {
                            all = false;
                        }
                        j += 1;
                    }
                    proof {
                        let cell = cells@[i as int];
                        if !all {
                            let k = choose|k: int|
                                0 <= k < items@.len() && !value_ok(cells@, #[trigger] items@[k]);
                            assert(!value_ok(cells@, cell.children()[k]));
                        }
                    }
                    all
                },
                HeapCell::Object(props) => {
                    let mut j: usize = 0;
                    let mut all = true;
                    while j < props.len()
                        invariant
                            j <= props.len(),
                            tags@.len() == cells@.len(),
                            forall|k: int|
                                0 <= k < cells@.len() ==> #[trigger] tags@[k] == cells@[k].tag(),
                            all == (forall|k: int|
                                0 <= k < j ==> value_ok(cells@, (#[trigger] props@[k]).value)),
                        decreases props.len() - j,
                    {
                        if !check_value(&tags, &props[j].value) {
                            all = false;
                        }
                        j += 1;
                    }
                    let distinct = check_keys(props);
                    proof {
                        let cell = cells@[i as int];
                        assert(cell.keys() =~= Seq::new(props@.len(), |i: int| props@[i].key@));
                        if all {
                            assert forall|k: int| 0 <= k < cell.children().len() implies value_ok(
                                cells@,
                                #[trigger] cell.children()[k],
                            ) by {
                                assert(value_ok(cells@, props@[k].value));
                            }
                        } else {
                            let k = choose|k: int|
                                0 <= k < props@.len() && !value_ok(cells@, (#[trigger] props@[k]).value);
                            assert(!value_ok(cells@, cell.children()[k]));
                        }
                    }
                    all && distinct
                },
                HeapCell::Promise(_, result) => {
                    let ok = check_value(&tags, result);
                    proof {
                        let cell = cells@[i as int];
                        assert(cell.children()[0] == *result);
                        assert(!ok ==> !value_ok(cells@, cell.children()[0]));
                    }
                    ok
                },
                HeapCell::Proxy(target) => {
                    let ok = check_value(&tags, target);
                    proof {
                        let cell = cells@[i as int];
                        assert(cell.children()[0] == *target);
                        assert(!ok ==> !value_ok(cells@, cell.children()[0]));
                    }
                    ok
                },
                _ => true,
            };
            if !ok {
                assert(!cell_ok(cells@, cells@[i as int]));
                return None;
            }
            i += 1;
        }
        Some(Heap { cells })
    }
}

impl Heap {
    /// Whether `cell` is valid in this store, so that it can be put
    /// into it.
    pub fn accepts(&self, cell: &HeapCell) -> (r: bool)
        ensures
            r == cell_ok(self@, *cell),
    {
        match cell {
            HeapCell::Array(items) => {
                let mut j: usize = 0;
                let mut all = true;
                while j < items.len()
                    invariant
                        j <= items.len(),
                        all == (forall|k: int| 0 <= k < j ==> value_ok(self@, #[trigger] items@[k])),
                    decreases items.len() - j,
                {
                    if !self.is_valid(&items[j]) {
                        all = false;
                    }
                    j += 1;
                }
                proof {
                    if !all {
                        let k = choose|k: int|
                            0 <= k < items@.len() && !value_ok(self@, #[trigger] items@[k]);
                        assert(!value_ok(self@, cell.children()[k]));
                    }
                }
                all
            },
            HeapCell::Object(props) => {
                let mut j: usize = 0;
                let mut all = true;
                while j < props.len()
                    invariant
                        j <= props.len(),
                        all == (forall|k: int|
                            0 <= k < j ==> value_ok(self@, (#[trigger] props@[k]).value)),
                    decreases props.len() - j,
                {
                    if !self.is_valid(&props[j].value) {
                        all = false;
                    }
                    j += 1;
                }
                let distinct = check_keys(props);
                proof {
                    assert(cell.keys() =~= Seq::new(props@.len(), |i: int| props@[i].key@));
                    if all {
                        assert forall|k: int| 0 <= k < cell.children().len() implies value_ok(
                            self@,
                            #[trigger] cell.children()[k],
                        ) by {
                            assert(value_ok(self@, props@[k].value));
                        }
                    } else {
                        let k = choose|k: int|
                            0 <= k < props@.len() && !value_ok(self@, (#[trigger] props@[k]).value);
                        assert(!value_ok(self@, cell.children()[k]));
                    }
                }
                all && distinct
            },
            HeapCell::Promise(_, result) => {
                let ok = self.is_valid(result);
                proof {
                    assert(cell.children()[0] == *result);
                    assert(!ok ==> !value_ok(self@, cell.children()[0]));
                }
                ok
            },
            HeapCell::Proxy(target) => {
                let ok = self.is_valid(target);
                proof {
                    assert(cell.children()[0] == *target);
                    assert(!ok ==> !value_ok(self@, cell.children()[0]));
                }
                ok
            },
            _ => true,
        }
    }
}

} // verus!
