//! The indexed-counter storage primitive.
//!
//! An [`IndexedRelation`] maps an unbounded, per-owner sequence of immutable
//! records onto a fixed-shape key/value layout: a running count per owner plus
//! individually addressed slots, indexed `1..=count`. Records are only ever
//! appended; a slot, once written, is never mutated, removed, or compacted.

use vstd::prelude::*;
use vstd::hash_map::HashMapWithView;

use crate::errors::Error;

verus! {

/// Whether an append call belongs to `owner`.
pub open spec fn by_owner<T>(owner: u64) -> spec_fn((u64, T)) -> bool {
    |call: (u64, T)| call.0 == owner
}

/// The record an append call carries.
pub open spec fn payload<T>() -> spec_fn((u64, T)) -> T {
    |call: (u64, T)| call.1
}

/// What a history of appends leaves stored for `owner`: starting from the
/// empty relation, each call `(o, record)` in `calls`, in order, pushes
/// `record` onto the sequence of `o` and leaves every other owner's sequence
/// unchanged — exactly the step `append`'s contract promises.
pub open spec fn replay<T>(calls: Seq<(u64, T)>, owner: u64) -> Seq<T>
    decreases calls.len(),
{
    if calls.len() == 0 {
        Seq::empty()
    } else {
        let earlier = replay(calls.drop_last(), owner);
        if calls.last().0 == owner {
            earlier.push(calls.last().1)
        } else {
            earlier
        }
    }
}

/// The records among `calls` appended for `owner`, in call order.
pub open spec fn records_for<T>(calls: Seq<(u64, T)>, owner: u64) -> Seq<T> {
    calls.filter(by_owner(owner)).map_values(payload())
}

/// The number of appends among `calls` made for `owner`.
pub open spec fn appends_for<T>(calls: Seq<(u64, T)>, owner: u64) -> nat {
    calls.filter(by_owner(owner)).len()
}

/// One more append call extends the history by one step: the appended
/// owner's sequence grows by the new record, every other owner's sequence is
/// unchanged — the step `append`'s contract promises.
pub proof fn lemma_replay_step<T>(calls: Seq<(u64, T)>, call: (u64, T), owner: u64)
    ensures
        replay(calls.push(call), owner) == if call.0 == owner {
            replay(calls, owner).push(call.1)
        } else {
            replay(calls, owner)
        },
{
    assert(calls.push(call).drop_last() =~= calls);
}

/// Law: after any history of appends against an initially empty relation,
/// the sequence stored for each owner holds exactly the records passed to
/// that owner's appends, unchanged and in call order. In particular
/// `count(owner)` equals the number of successful `append` calls made for
/// `owner`, and `get(owner, i)` returns exactly the record passed to the
/// `i`-th such call.
pub proof fn lemma_replay_is_append_history<T>(calls: Seq<(u64, T)>, owner: u64)
    ensures
        replay(calls, owner) == records_for(calls, owner),
        replay(calls, owner).len() == appends_for(calls, owner),
    decreases calls.len(),
{
    reveal(Seq::filter);
    if calls.len() == 0 {
        assert(replay(calls, owner) =~= records_for(calls, owner));
    } else {
        let rest = calls.drop_last();
        lemma_replay_is_append_history(rest, owner);
        if calls.last().0 == owner {
            assert(calls.filter(by_owner::<T>(owner)) == rest.filter(by_owner::<T>(owner)).push(
                calls.last(),
            ));
            assert(records_for(calls, owner) =~= records_for(rest, owner).push(calls.last().1));
        } else {
            assert(calls.filter(by_owner::<T>(owner)) == rest.filter(by_owner::<T>(owner)));
            assert(records_for(calls, owner) =~= records_for(rest, owner));
        }
    }
}

/// An append-only, densely 1-indexed sequence of records for each owner.
///
/// `count(owner)` is 0 for an owner that has never appended, and otherwise the
/// last index assigned to that owner; `get(owner, i)` is defined exactly for
/// `1 <= i <= count(owner)`.
#[verifier::reject_recursive_types(T)]
pub struct IndexedRelation<T> {
    slots: HashMapWithView<u64, Vec<T>>,
}

impl<T> IndexedRelation<T> {
    /// The records stored for `owner`, in append order; empty for an owner
    /// that has never appended.
    pub closed spec fn seq_of(self, owner: u64) -> Seq<T> {
        if self.slots@.contains_key(owner) {
            self.slots@[owner]@
        } else {
            Seq::empty()
        }
    }

    /// Every per-owner count fits the `u32` the counters are stored in.
    pub closed spec fn wf(self) -> bool {
        forall|o: u64|
            self.slots@.contains_key(o) ==> #[trigger] self.slots@[o]@.len() <= u32::MAX
    }

    /// An empty relation: every owner's sequence is empty.
    pub fn new() -> (r: Self)
        ensures
            r.wf(),
            forall|o: u64| r.seq_of(o) == Seq::<T>::empty(),
    {
        proof {
            broadcast use vstd::std_specs::hash::axiom_u64_obeys_hash_table_key_model;
        }
        IndexedRelation { slots: HashMapWithView::new() }
    }

    /// The number of records ever appended for `owner`; 0 for an owner that
    /// has never appended, with no error conditions.
    pub fn count(&self, owner: u64) -> (c: u32)
        requires
            self.wf(),
        ensures
            c == self.seq_of(owner).len(),
    {
        match self.slots.get(&owner) {
            Some(records) => records.len() as u32,
            None => 0,
        }
    }

    /// The record at `index`, which must satisfy `1 <= index <= count(owner)`;
    /// any index outside that contiguous range is rejected with
    /// [`Error::OutOfRange`], never clamped or defaulted.
    pub fn get(&self, owner: u64, index: u32) -> (r: Result<&T, Error>)
        requires
            self.wf(),
        ensures
            match r {
                Ok(record) => 1 <= index <= self.seq_of(owner).len() && *record == self.seq_of(
                    owner,
                )[index - 1],
                Err(e) => e == Error::OutOfRange && !(1 <= index <= self.seq_of(owner).len()),
            },
    {
        let c = self.count(owner);
        if 1 <= index && index <= c {
            match self.slots.get(&owner) {
                Some(records) => Ok(&records[(index - 1) as usize]),
                None => {
                    // A valid index implies the owner has appended, so the
                    // owner's slot list exists.
                    proof {
                        assert(false);
                    }
                    Err(Error::OutOfRange)
                },
            }
        } else {
            Err(Error::OutOfRange)
        }
    }

    /// Appends `record` as the new last slot for `owner` and returns its
    /// index, `count(owner) + 1`. The slot write and the count update are one
    /// operation on one value, so neither can be observed without the other.
    pub fn append(&mut self, owner: u64, record: T) -> (index: u32)
        requires
            old(self).wf(),
            old(self).seq_of(owner).len() < u32::MAX,
        ensures
            final(self).wf(),
            index == old(self).seq_of(owner).len() + 1,
            final(self).seq_of(owner) == old(self).seq_of(owner).push(record),
            forall|o: u64| o != owner ==> final(self).seq_of(o) == old(self).seq_of(o),
    {
        let mut records: Vec<T> = match self.slots.remove(&owner) {
            Some(records) => records,
            None => Vec::new(),
        };
        records.push(record);
        let index = records.len() as u32;
        self.slots.insert(owner, records);
        index
    }
}

} // verus!
