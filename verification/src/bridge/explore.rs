//! Copying values of the engine into a store.
//!
//! The engine names a heap value by its address; a store names it
//! by its place. The explorer gives each address one place, hands
//! out the places that still wait for their contents, and makes the
//! store once every place has them. One address always gets the
//! same place, so a value that is reached twice, or that contains
//! itself, is copied once.

use crate::tag::JsTag;
use crate::value::heap::{cells_ok, Heap, HeapCell};
use crate::value::raw::{Payload, RawJsValue};
use vstd::prelude::*;

verus! {

/// The places given out so far, and what is known of their contents.
pub struct Explorer {
    origin: Vec<usize>,
    cells: Vec<HeapCell>,
    described: Vec<bool>,
}

/// The place of `address` in `origin`, if it has one.
pub open spec fn place_of(origin: Seq<usize>, address: usize) -> Option<int> {
    if origin.contains(address) {
        Some(origin.index_of(address))
    } else {
        None
    }
}

impl Explorer {
    /// The address of each place.
    pub closed spec fn origin(&self) -> Seq<usize> {
        self.origin@
    }

    /// The contents of each place; of no meaning where none were given yet.
    pub closed spec fn cells(&self) -> Seq<HeapCell> {
        self.cells@
    }

    /// Whether each place has its contents.
    pub closed spec fn described(&self) -> Seq<bool> {
        self.described@
    }

    /// Every place has an address of its own.
    pub open spec fn wf(&self) -> bool {
        &&& self.origin().no_duplicates()
        &&& self.cells().len() == self.origin().len()
        &&& self.described().len() == self.origin().len()
    }

    /// An explorer that has given out no place.
    pub fn new() -> (r: Explorer)
        ensures
            r.wf(),
            r.origin() == Seq::<usize>::empty(),
    {
        Explorer { origin: Vec::new(), cells: Vec::new(), described: Vec::new() }
    }

    /// The number of places given out.
    pub fn len(&self) -> (n: usize)
        requires
            self.wf(),
        ensures
            n == self.origin().len(),
    {
        self.origin.len()
    }

    /// The value of the store that stands for the value `value` of
    /// the engine: itself where it is carried in itself, else the
    /// place of its address. An address that is met for the first
    /// time gets the next place.
    pub fn intern(&mut self, value: RawJsValue) -> (r: RawJsValue)
        requires
            old(self).wf(),
        ensures
            final(self).wf(),
            r.tag == value.tag,
            match value.payload {
                Payload::Ptr(address) => {
                    &&& (r.payload matches Payload::Ptr(place) && place < final(self).origin().len()
                        && final(self).origin()[place as int] == address)
                    &&& if old(self).origin().contains(address) {
                        final(self).origin() == old(self).origin() && final(self).described()
                            == old(self).described() && final(self).cells() == old(self).cells()
                    } else {
                        final(self).origin() == old(self).origin().push(address) && final(self).described() == old(self).described().push(false) && final(self).cells().drop_last() == old(self).cells()
                    }
                },
                _ => r == value && final(self).origin() == old(self).origin() && final(self).described() == old(self).described() && final(self).cells() == old(self).cells(),
            },
    {
        match value.payload {
            Payload::Ptr(address) => {
                let mut i: usize = 0;
                while i < self.origin.len()
                    invariant
                        i <= self.origin.len(),
                        self.origin@ == old(self).origin@,
                        self.cells@ == old(self).cells@,
                        self.described@ == old(self).described@,
                        self.wf(),
                        value.payload == Payload::Ptr(address),
                        forall|k: int| 0 <= k < i ==> self.origin@[k] != address,
                    decreases self.origin.len() - i,
                {
                    if self.origin[i] == address {
                        assert(old(self).origin@[i as int] == address);
                        assert(old(self).origin@.contains(address));
                        return RawJsValue { tag: value.tag, payload: Payload::Ptr(i) };
                    }
                    i += 1;
                }
                let place = self.origin.len();
                self.origin.push(address);
                self.cells.push(HeapCell::Symbol);
                self.described.push(false);
                proof {
                    assert(!old(self).origin@.contains(address));
                    assert(self.cells@.drop_last() =~= old(self).cells@);
                    assert forall|a: int, b: int|
                        0 <= a < self.origin@.len() && 0 <= b < self.origin@.len() && a
                            != b implies self.origin@[a] != self.origin@[b] by {
                        if a < place && b < place {
                            assert(old(self).origin@[a] != old(self).origin@[b]);
                        }
                    }
                }
                RawJsValue { tag: value.tag, payload: Payload::Ptr(place) }
            },
            _ => value,
        }
    }

    /// The first place that waits for its contents, with its address.
    pub fn pending(&self) -> (r: Option<(usize, usize)>)
        requires
            self.wf(),
        ensures
            match r {
                Some((place, address)) => place < self.origin().len() && !self.described()[place as int]
                    && self.origin()[place as int] == address && forall|k: int|
                    0 <= k < place ==> self.described()[k],
                None => forall|k: int| 0 <= k < self.described().len() ==> self.described()[k],
            },
    {
        let mut i: usize = 0;
        while i < self.described.len()
            invariant
                i <= self.described.len(),
                self.described@.len() == self.origin@.len(),
                forall|k: int| 0 <= k < i ==> self.described@[k],
            decreases self.described.len() - i,
        {
            if !self.described[i] {
                return Some((i, self.origin[i]));
            }
            i += 1;
        }
        None
    }

    /// Gives the place `place` its contents. It returns whether that
    /// was done: the place must exist and wait for contents.
    pub fn describe(&mut self, place: usize, cell: HeapCell) -> (done: bool)
        requires
            old(self).wf(),
        ensures
            final(self).wf(),
            final(self).origin() == old(self).origin(),
            done == (place < old(self).origin().len() && !old(self).described()[place as int]),
            done ==> final(self).cells() == old(self).cells().update(place as int, cell) && final(self).described() == old(self).described().update(place as int, true),
            !done ==> final(self).cells() == old(self).cells() && final(self).described() == old(self).described(),
    {
        if place < self.described.len() && !self.described[place] {
            self.cells.set(place, cell);
            self.described.set(place, true);
            true
        } else {
            false
        }
    }

    /// The address of the place `place`.
    pub fn address(&self, place: usize) -> (r: Option<usize>)
        requires
            self.wf(),
        ensures
            r == (if place < self.origin().len() {
                Some(self.origin()[place as int])
            } else {
                None
            }),
    {
        if place < self.origin.len() {
            Some(self.origin[place])
        } else {
            None
        }
    }

    /// The store of all places, once each has its contents and all
    /// contents are valid together; `None` before that.
    pub fn finish(self) -> (r: Option<Heap>)
        requires
            self.wf(),
        ensures
            r is Some <==> (forall|k: int| 0 <= k < self.described().len() ==> self.described()[k])
                && cells_ok(self.cells()),
            r matches Some(heap) ==> heap.wf() && heap@ == self.cells(),
    {
        if self.pending().is_some() {
            return None;
        }
        Heap::from_cells(self.cells)
    }
}

/// One address has one place: values of the engine that are the
/// same value stand for the same value of the store.
pub proof fn lemma_one_place_per_address(origin: Seq<usize>, a: int, b: int)
    requires
        origin.no_duplicates(),
        0 <= a < origin.len(),
        0 <= b < origin.len(),
        origin[a] == origin[b],
    ensures
        a == b,
{
}

} // verus!
