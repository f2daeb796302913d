//! Making the values of a store in the engine, without a leak.
//!
//! Each place of the store gets a value of the engine. A value that
//! the engine has made belongs to the materializer until it is put
//! into a container, which takes it over; a value that is put into
//! a second container is counted once more first. When the work is
//! given up, every value that still belongs to the materializer is
//! released.

use crate::value::raw::{Payload, RawJsValue};
use crate::value::value::{apply_all, bump, RefCounts, RefOp};
use vstd::prelude::*;

verus! {

/// What is known of the value of the engine for one place.
#[derive(Debug, Clone, Copy, PartialEq, Eq, Structural)]
pub enum Slot {
    /// The engine has made no value for the place yet.
    Pending,
    /// The value belongs to someone else.
    Borrowed(RawJsValue),
    /// The value was made for the place and belongs to the materializer.
    Owned(RawJsValue),
    /// The value was made for the place and has gone into a container.
    Moved(RawJsValue),
}

/// The values of `slots` that belong to the materializer, in order.
pub open spec fn held(slots: Seq<Slot>) -> Seq<RawJsValue>
    decreases slots.len(),
{
    if slots.len() == 0 {
        Seq::empty()
    } else {
        match slots.last() {
            Slot::Owned(v) => held(slots.drop_last()).push(v),
            _ => held(slots.drop_last()),
        }
    }
}

/// One reference more to each of `values`, in order.
pub open spec fn dups(values: Seq<RawJsValue>) -> Seq<RefOp> {
    Seq::new(values.len(), |i: int| RefOp::Dup(values[i]))
}

/// One reference less to each of `values`, in order.
pub open spec fn frees(values: Seq<RawJsValue>) -> Seq<RefOp> {
    Seq::new(values.len(), |i: int| RefOp::Free(values[i]))
}

/// The values of the engine for the places of a store.
pub struct Materializer {
    slots: Vec<Slot>,
}

impl View for Materializer {
    type V = Seq<Slot>;

    closed spec fn view(&self) -> Seq<Slot> {
        self.slots@
    }
}

impl Materializer {
    /// A materializer for a store of `count` places, none of which
    /// has a value yet.
    pub fn new(count: usize) -> (r: Materializer)
        ensures
            r@.len() == count,
            forall|i: int| 0 <= i < count ==> r@[i] is Pending,
    {
        let mut slots: Vec<Slot> = Vec::new();
        let mut i: usize = 0;
        while i < count
            invariant
                i <= count,
                slots@.len() == i,
                forall|k: int| 0 <= k < i ==> slots@[k] is Pending,
            decreases count - i,
        {
            slots.push(Slot::Pending);
            i += 1;
        }
        Materializer { slots }
    }

    /// The first place for which the engine has made no value yet.
    pub fn next(&self) -> (r: Option<usize>)
        ensures
            match r {
                Some(place) => place < self@.len() && self@[place as int] is Pending && forall|
                    k: int,
                | 0 <= k < place ==> !(self@[k] is Pending),
                None => forall|k: int| 0 <= k < self@.len() ==> !(self@[k] is Pending),
            },
    {
        let mut i: usize = 0;
        while i < self.slots.len()
            invariant
                i <= self.slots.len(),
                forall|k: int| 0 <= k < i ==> !(self.slots@[k] is Pending),
            decreases self.slots.len() - i,
        {
            if matches!(self.slots[i], Slot::Pending) {
                return Some(i);
            }
            i += 1;
        }
        None
    }

    /// Records the value of the engine for the place `place`:
    /// `owned` says whether the engine has just made it for the
    /// place, so that it belongs to the materializer. It returns
    /// whether that was done: the place must exist and have no value.
    pub fn created(&mut self, place: usize, handle: RawJsValue, owned: bool) -> (done: bool)
        ensures
            done == (place < old(self)@.len() && old(self)@[place as int] is Pending),
            done ==> final(self)@ == old(self)@.update(
                place as int,
                if owned {
                    Slot::Owned(handle)
                } else {
                    Slot::Borrowed(handle)
                },
            ),
            !done ==> final(self)@ == old(self)@,
    {
        if place < self.slots.len() && matches!(self.slots[place], Slot::Pending) {
            let slot = if owned {
                Slot::Owned(handle)
            } else {
                Slot::Borrowed(handle)
            };
            self.slots.set(place, slot);
            true
        } else {
            false
        }
    }

    /// The value of the engine to put into a container for the
    /// value `value` of the store, and what must be done first.
    ///
    /// A value that is carried in itself goes as it is. The value of
    /// a place goes over to the container where it belongs to the
    /// materializer; where it does not, or no longer, one reference
    /// more is counted for the container. `None` says that `value`
    /// points to a place without a value.
    pub fn take(&mut self, value: RawJsValue) -> (r: Option<(RawJsValue, Option<RefOp>)>)
        ensures
            taken(old(self)@, final(self)@, value, r),
    {
        match value.payload {
            Payload::Ptr(place) => {
                if place >= self.slots.len() {
                    return None;
                }
                match self.slots[place] {
                    Slot::Pending => None,
                    Slot::Owned(h) => {
                        self.slots.set(place, Slot::Moved(h));
                        Some((h, None))
                    },
                    Slot::Moved(h) => Some((h, Some(RefOp::Dup(h)))),
                    Slot::Borrowed(h) => Some((h, Some(RefOp::Dup(h)))),
                }
            },
            _ => Some((value, None)),
        }
    }

    /// Gives the work up: every value that belongs to the
    /// materializer is released, in the order of the places.
    pub fn abort(self) -> (ops: Vec<RefOp>)
        ensures
            ops@ == frees(held(self@)),
    {
        let mut ops: Vec<RefOp> = Vec::new();
        let mut i: usize = 0;
        assert(self.slots@.subrange(0, 0) =~= Seq::<Slot>::empty());
        assert(frees(held(Seq::<Slot>::empty())) =~= Seq::<RefOp>::empty());
        while i < self.slots.len()
            invariant
                i <= self.slots.len(),
                ops@ == frees(held(self.slots@.subrange(0, i as int))),
            decreases self.slots.len() - i,
        {
            proof {
                let upto = self.slots@.subrange(0, i + 1);
                assert(upto.drop_last() =~= self.slots@.subrange(0, i as int));
                assert(upto.last() == self.slots@[i as int]);
            }
            let ghost before = ops@;
            match self.slots[i] {
                Slot::Owned(h) => {
                    ops.push(RefOp::Free(h));
                    assert(ops@ =~= frees(held(self.slots@.subrange(0, i + 1))));
                },
                _ => {},
            }
            i += 1;
        }
        assert(self.slots@.subrange(0, i as int) =~= self.slots@);
        ops
    }

    /// Ends the work: the value of the engine for `root` is handed
    /// out with one reference that is the caller's, and every other
    /// value that still belongs to the materializer is released.
    /// `None` says that `root` points to a place without a value;
    /// then the work is given up as by `abort`.
    pub fn finish(self, root: RawJsValue) -> (r: (Option<RawJsValue>, Vec<RefOp>))
        ensures
            exists|after: Seq<Slot>, first: Option<(RawJsValue, Option<RefOp>)>|
                #![trigger taken(self@, after, root, first)]
                {
                    &&& taken(self@, after, root, first)
                    &&& match first {
                        Some((handle, Some(op))) => r.0 == Some(handle) && r.1@ == seq![op] + frees(
                            held(after),
                        ),
                        Some((handle, None)) => r.0 == Some(handle) && r.1@ == frees(held(after)),
                        None => r.0 is None && r.1@ == frees(held(after)),
                    }
                },
    {
        let mut this = self;
        let first = this.take(root);
        let ghost after = this@;
        let rest = this.abort();
        match first {
            Some((handle, Some(op))) => {
                let mut ops: Vec<RefOp> = Vec::new();
                ops.push(op);
                let mut rest = rest;
                ops.append(&mut rest);
                assert(ops@ =~= seq![op] + frees(held(after)));
                assert(taken(self@, after, root, first));
                (Some(handle), ops)
            },
            Some((handle, None)) => {
                assert(taken(self@, after, root, first));
                (Some(handle), rest)
            },
            None => {
                assert(taken(self@, after, root, first));
                (None, rest)
            },
        }
    }
}

/// What `take` does to the slots and hands out.
pub open spec fn taken(
    before: Seq<Slot>,
    after: Seq<Slot>,
    value: RawJsValue,
    r: Option<(RawJsValue, Option<RefOp>)>,
) -> bool {
    match value.payload {
        Payload::Ptr(place) => if place >= before.len() {
            r is None && after == before
        } else {
            match before[place as int] {
                Slot::Pending => r is None && after == before,
                Slot::Owned(h) => r == Some((h, None::<RefOp>)) && after == before.update(
                    place as int,
                    Slot::Moved(h),
                ),
                Slot::Moved(h) => r == Some((h, Some(RefOp::Dup(h)))) && after == before,
                Slot::Borrowed(h) => r == Some((h, Some(RefOp::Dup(h)))) && after == before,
            }
        },
        _ => r == Some((value, None::<RefOp>)) && after == before,
    }
}

/// A value belongs to the materializer exactly when some place
/// holds it as owned: what has gone into a container, what was
/// borrowed and what was never made is released by no one here.
pub proof fn lemma_held_is_owned(slots: Seq<Slot>, v: RawJsValue)
    ensures
        held(slots).contains(v) <==> exists|i: int|
            0 <= i < slots.len() && #[trigger] slots[i] == Slot::Owned(v),
    decreases slots.len(),
{
    if slots.len() > 0 {
        let rest = slots.drop_last();
        lemma_held_is_owned(rest, v);
        if held(slots).contains(v) {
            if slots.last() == Slot::Owned(v) {
                assert(slots[slots.len() - 1] == Slot::Owned(v));
            } else {
                let k = choose|k: int| 0 <= k < held(slots).len() && held(slots)[k] == v;
                match slots.last() {
                    Slot::Owned(w) => {
                        assert(held(slots) == held(rest).push(w));
                        assert(k < held(rest).len());
                        assert(held(rest)[k] == v);
                    },
                    _ => {},
                }
                let i = choose|i: int| 0 <= i < rest.len() && #[trigger] rest[i] == Slot::Owned(v);
                assert(slots[i] == Slot::Owned(v));
            }
        }
        if exists|i: int| 0 <= i < slots.len() && #[trigger] slots[i] == Slot::Owned(v) {
            let i = choose|i: int| 0 <= i < slots.len() && #[trigger] slots[i] == Slot::Owned(v);
            if i == slots.len() - 1 {
                assert(held(slots) == held(rest).push(v));
                assert(held(slots)[held(rest).len() as int] == v);
            } else {
                assert(rest[i] == Slot::Owned(v));
                let k = choose|k: int| 0 <= k < held(rest).len() && held(rest)[k] == v;
                match slots.last() {
                    Slot::Owned(w) => {
                        assert(held(slots) == held(rest).push(w));
                        assert(held(slots)[k] == v);
                    },
                    _ => {
                        assert(held(slots)[k] == v);
                    },
                }
            }
        }
    }
}

/// Doing `ops` and then `op` is doing `op` to what `ops` gives.
pub proof fn lemma_apply_all_push(ops: Seq<RefOp>, op: RefOp, counts: RefCounts)
    ensures
        apply_all(ops.push(op), counts) == op.apply(apply_all(ops, counts)),
    decreases ops.len(),
{
    reveal_with_fuel(apply_all, 3);
    if ops.len() == 0 {
        assert(ops.push(op).drop_first() =~= ops);
    } else {
        assert(ops.push(op).drop_first() =~= ops.drop_first().push(op));
        assert(ops.push(op)[0] == ops[0]);
        lemma_apply_all_push(ops.drop_first(), op, ops[0].apply(counts));
    }
}

/// One reference more before a list of operations is one reference
/// more after it.
pub proof fn lemma_dup_commutes(ops: Seq<RefOp>, v: RawJsValue, counts: RefCounts)
    ensures
        apply_all(ops, RefOp::Dup(v).apply(counts)) == RefOp::Dup(v).apply(apply_all(ops, counts)),
    decreases ops.len(),
{
    if ops.len() > 0 {
        let first = ops[0];
        assert(first.apply(RefOp::Dup(v).apply(counts)) =~= RefOp::Dup(v).apply(
            first.apply(counts),
        ));
        lemma_dup_commutes(ops.drop_first(), v, first.apply(counts));
    }
}

/// Values that were counted once more each and are then released
/// each leave every count as it was: what the materializer made and
/// gives up again is no leak.
pub proof fn lemma_frees_undo_dups(values: Seq<RawJsValue>, counts: RefCounts, at: usize)
    ensures
        apply_all(frees(values), apply_all(dups(values), counts))(at) == counts(at),
    decreases values.len(),
{
    if values.len() > 0 {
        let v = values.last();
        let rest = values.drop_last();
        assert(dups(values) =~= dups(rest).push(RefOp::Dup(v)));
        assert(frees(values) =~= frees(rest).push(RefOp::Free(v)));
        let mid = apply_all(dups(rest), counts);
        lemma_apply_all_push(dups(rest), RefOp::Dup(v), counts);
        lemma_apply_all_push(frees(rest), RefOp::Free(v), RefOp::Dup(v).apply(mid));
        lemma_dup_commutes(frees(rest), v, mid);
        lemma_frees_undo_dups(rest, counts, at);
    }
}

} // verus!
