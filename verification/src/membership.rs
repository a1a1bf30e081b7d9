//! Pairwise membership flags with a per-owner aggregate.
//!
//! A [`MembershipMap`] records, for each `(owner, member)` pair, a boolean
//! flag that defaults to `false`, together with the number of members
//! currently flagged for each owner. It backs the follow and like relations:
//! existence of an edge is the flag being `true`, and the like aggregate of a
//! post is the owner's flagged-member count.

use vstd::prelude::*;
use vstd::hash_map::HashMapWithView;

verus! {

/// For each owner, the set of members whose flag is currently `true`, stored
/// as a duplicate-free list so that the aggregate is its length.
pub struct MembershipMap {
    members: HashMapWithView<u64, Vec<u64>>,
}

/// No value occurs twice in `s`.
pub open spec fn distinct(s: Seq<u64>) -> bool {
    forall|i: int, j: int| 0 <= i < j < s.len() ==> s[i] != s[j]
}

/// The position of the first occurrence of `member` in `records`, if any.
fn index_of(records: &Vec<u64>, member: u64) -> (r: Option<usize>)
    ensures
        match r {
            Some(i) => i < records@.len() && records@[i as int] == member,
            None => !records@.contains(member),
        },
{
    let mut i: usize = 0;
    while i < records.len()
        invariant
            i <= records.len(),
            forall|j: int| 0 <= j < i ==> records@[j] != member,
        decreases records.len() - i,
    {
        if records[i] == member {
            return Some(i);
        }
        i = i + 1;
    }
    None
}

impl MembershipMap {
    /// The members currently flagged for `owner`; empty for an owner no pair
    /// of which was ever set.
    pub closed spec fn members_of(self, owner: u64) -> Seq<u64> {
        if self.members@.contains_key(owner) {
            self.members@[owner]@
        } else {
            Seq::empty()
        }
    }

    /// The flag of the pair `(owner, member)`: `true` exactly when `member`
    /// is currently flagged for `owner`.
    pub open spec fn has(self, owner: u64, member: u64) -> bool {
        self.members_of(owner).contains(member)
    }

    /// How many members are currently flagged for `owner`.
    pub open spec fn size_of(self, owner: u64) -> nat {
        self.members_of(owner).len()
    }

    /// Each owner's flagged members are pairwise distinct — the aggregate
    /// counts pairs, not writes — and fit the `u32` the aggregate is stored
    /// in.
    pub closed spec fn wf(self) -> bool {
        forall|o: u64|
            self.members@.contains_key(o) ==> distinct(#[trigger] self.members@[o]@)
                && self.members@[o]@.len() <= u32::MAX
    }

    /// An empty map: every flag is `false` and every aggregate is 0.
    pub fn new() -> (r: Self)
        ensures
            r.wf(),
            forall|o: u64| r.members_of(o) == Seq::<u64>::empty(),
    {
        proof {
            broadcast use vstd::std_specs::hash::axiom_u64_obeys_hash_table_key_model;
        }
        MembershipMap { members: HashMapWithView::new() }
    }

    /// O(1)-shaped point lookup of the flag of `(owner, member)`, defaulting
    /// to `false` when the pair was never set.
    pub fn membership(&self, owner: u64, member: u64) -> (flag: bool)
        ensures
            flag == self.has(owner, member),
    {
        match self.members.get(&owner) {
            Some(records) => index_of(records, member).is_some(),
            None => false,
        }
    }

    /// The aggregate for `owner`: the number of currently flagged members.
    pub fn size(&self, owner: u64) -> (n: u32)
        requires
            self.wf(),
        ensures
            n == self.size_of(owner),
    {
        match self.members.get(&owner) {
            Some(records) => records.len() as u32,
            None => 0,
        }
    }

    /// Unconditionally overwrites the flag of `(owner, member)` with `value`.
    /// The owner's aggregate moves by one exactly when the flag actually
    /// changes.
    pub fn set_membership(&mut self, owner: u64, member: u64, value: bool)
        requires
            old(self).wf(),
            value && !old(self).has(owner, member) ==> old(self).size_of(owner) < u32::MAX,
        ensures
            final(self).wf(),
            final(self).has(owner, member) == value,
            forall|m: u64| m != member ==> final(self).has(owner, m) == old(self).has(owner, m),
            forall|o: u64| o != owner ==> final(self).members_of(o) == old(self).members_of(o),
            final(self).size_of(owner) == if value == old(self).has(owner, member) {
                old(self).size_of(owner)
            } else if value {
                old(self).size_of(owner) + 1
            } else {
                (old(self).size_of(owner) - 1) as nat
            },
    {
        if value {
            self.flag_member(owner, member);
        } else {
            self.unflag_member(owner, member);
        }
    }

    /// Sets the flag of `(owner, member)`; a no-op when it is already set.
    fn flag_member(&mut self, owner: u64, member: u64)
        requires
            old(self).wf(),
            !old(self).has(owner, member) ==> old(self).size_of(owner) < u32::MAX,
        ensures
            final(self).wf(),
            final(self).members_of(owner) == if old(self).has(owner, member) {
                old(self).members_of(owner)
            } else {
                old(self).members_of(owner).push(member)
            },
            forall|o: u64| o != owner ==> final(self).members_of(o) == old(self).members_of(o),
            final(self).has(owner, member),
            forall|m: u64| m != member ==> final(self).has(owner, m) == old(self).has(owner, m),
            final(self).size_of(owner) == if old(self).has(owner, member) {
                old(self).size_of(owner)
            } else {
                old(self).size_of(owner) + 1
            },
    {
        if self.membership(owner, member) {
            return ;
        }
        let ghost pre = self.members_of(owner);
        let mut records: Vec<u64> = match self.members.remove(&owner) {
            Some(records) => records,
            None => Vec::new(),
        };
        records.push(member);
        self.members.insert(owner, records);
        proof {
            assert(self.members_of(owner) == pre.push(member));
            assert(self.has(owner, member)) by {
                assert(pre.push(member)[pre.len() as int] == member);
            }
            assert forall|m: u64| m != member implies self.has(owner, m) == pre.contains(m) by {
                if pre.contains(m) {
                    let w = choose|w: int| 0 <= w < pre.len() && pre[w] == m;
                    assert(pre.push(member)[w] == m);
                }
                if pre.push(member).contains(m) {
                    let w = choose|w: int| 0 <= w < pre.push(member).len() && pre.push(member)[w]
                        == m;
                    assert(w < pre.len() && pre[w] == m);
                }
            }
            assert(distinct(pre.push(member))) by {
                assert(forall|j: int| 0 <= j < pre.len() ==> pre.push(member)[j] == #[trigger] pre[j]);
            }
        }
    }

    /// Clears the flag of `(owner, member)`; a no-op when it is already
    /// clear.
    fn unflag_member(&mut self, owner: u64, member: u64)
        requires
            old(self).wf(),
        ensures
            final(self).wf(),
            forall|o: u64| o != owner ==> final(self).members_of(o) == old(self).members_of(o),
            !final(self).has(owner, member),
            forall|m: u64| m != member ==> final(self).has(owner, m) == old(self).has(owner, m),
            final(self).size_of(owner) == if old(self).has(owner, member) {
                (old(self).size_of(owner) - 1) as nat
            } else {
                old(self).size_of(owner)
            },
    {
        let ghost pre = self.members_of(owner);
        let mut records: Vec<u64> = match self.members.remove(&owner) {
            Some(records) => records,
            None => {
                return ;
            },
        };
        match index_of(&records, member) {
            Some(i) => {
                records.remove(i);
                proof {
                    assert(pre[i as int] == member);
                    assert(records@ == pre.remove(i as int));
                    pre.remove_ensures(i as int);
                    assert forall|m: u64| m != member implies records@.contains(m) == pre.contains(
                        m,
                    ) by {
                        if pre.contains(m) {
                            let w = choose|w: int| 0 <= w < pre.len() && pre[w] == m;
                            if w < i {
                                assert(records@[w] == m);
                            } else {
                                assert(records@[w - 1] == m);
                            }
                        }
                        if records@.contains(m) {
                            let w = choose|w: int| 0 <= w < records@.len() && records@[w] == m;
                            if w < i {
                                assert(pre[w] == m);
                            } else {
                                assert(pre[w + 1] == m);
                            }
                        }
                    }
                    assert(!records@.contains(member)) by {
                        if records@.contains(member) {
                            let w = choose|w: int| 0 <= w < records@.len() && records@[w] == member;
                            if w < i {
                                assert(pre[w] == member && pre[i as int] == member);
                            } else {
                                assert(pre[w + 1] == member && pre[i as int] == member);
                            }
                        }
                    }
                    assert(distinct(records@)) by {
                        assert forall|a: int, b: int| 0 <= a < b < records@.len() implies records@[a]
                            != records@[b] by {
                            if b < i {
                                assert(pre[a] == records@[a] && pre[b] == records@[b]);
                            } else if a >= i {
                                assert(pre[a + 1] == records@[a] && pre[b + 1] == records@[b]);
                            } else {
                                assert(pre[a] == records@[a] && pre[b + 1] == records@[b]);
                            }
                        }
                    }
                }
            },
            None => {},
        }
        self.members.insert(owner, records);
        proof {
            if !pre.contains(member) {
                assert(self.members_of(owner) =~= pre);
            }
        }
    }
}

} // verus!
