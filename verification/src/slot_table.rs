//! The bounded table of outstanding reliable packets. The send path raises
//! a slot with a fresh generation when it stamps a queued packet; the
//! receive path lowers it again when the matching acknowledgment arrives.
//! Each slot therefore holds at most one packet at a time, which bounds the
//! number of outstanding reliable messages by the table's capacity.

use vstd::prelude::*;
use vstd::set_lib::lemma_int_range;
use vstd::set_lib::lemma_len_subset;
use vstd::set_lib::set_int_range;

verus! {

/// Tracking state of the in-flight reliable packets: one `in_use` flag and
/// one `generation` per slot. The framed bytes and the retransmission
/// clock of each slot live with the send path, which alone rewrites them.
pub struct SlotTable {
    in_use: Vec<bool>,
    generations: Vec<i64>,
}

impl SlotTable {
    /// The two columns always have one row per slot.
    pub closed spec fn wf(&self) -> bool {
        self.in_use@.len() == self.generations@.len()
    }

    /// Number of slots, fixed at engine start.
    pub closed spec fn spec_capacity(&self) -> nat {
        self.in_use@.len()
    }

    /// Whether slot `i` still awaits its acknowledgment.
    pub closed spec fn spec_used(&self, i: int) -> bool {
        self.in_use@[i]
    }

    /// The generation stamped into slot `i` at its last put.
    pub closed spec fn spec_generation(&self, i: int) -> i64 {
        self.generations@[i]
    }

    /// The indices of the slots that still await an acknowledgment.
    pub open spec fn spec_used_slots(&self) -> Set<int> {
        Set::new(|i: int| 0 <= i < self.spec_capacity() && self.spec_used(i))
    }

    pub fn new(capacity: usize) -> (r: Self)
        ensures
            r.wf(),
            r.spec_capacity() == capacity,
            forall|i: int| 0 <= i < capacity ==> !r.spec_used(i),
            forall|i: int| 0 <= i < capacity ==> r.spec_generation(i) == 0i64,
    {
        let mut in_use: Vec<bool> = Vec::with_capacity(capacity);
        let mut generations: Vec<i64> = Vec::with_capacity(capacity);
        let mut i: usize = 0;
        while i < capacity
            invariant
                i <= capacity,
                in_use@.len() == i,
                generations@.len() == i,
                forall|j: int| 0 <= j < i ==> !in_use@[j],
                forall|j: int| 0 <= j < i ==> generations@[j] == 0i64,
            decreases capacity - i,
        {
            in_use.push(false);
            generations.push(0);
            i += 1;
        }
        SlotTable { in_use, generations }
    }

    pub fn capacity(&self) -> (r: usize)
        ensures
            r == self.spec_capacity(),
    {
        self.in_use.len()
    }

    pub fn is_used(&self, i: usize) -> (r: bool)
        requires
            i < self.spec_capacity(),
        ensures
            r == self.spec_used(i as int),
    {
        self.in_use[i]
    }

    pub fn generation_of(&self, i: usize) -> (r: i64)
        requires
            self.wf(),
            i < self.spec_capacity(),
        ensures
            r == self.spec_generation(i as int),
    {
        self.generations[i]
    }

    /// Raise slot `i` for a fresh packet, stamping its generation. Only an
    /// empty slot may be taken, so a put never evicts an outstanding packet.
    pub fn put(&mut self, i: usize, generation: i64)
        requires
            old(self).wf(),
            i < old(self).spec_capacity(),
            !old(self).spec_used(i as int),
        ensures
            final(self).wf(),
            final(self).spec_capacity() == old(self).spec_capacity(),
            final(self).spec_used(i as int),
            final(self).spec_generation(i as int) == generation,
            forall|j: int|
                0 <= j < old(self).spec_capacity() && j != i ==> final(self).spec_used(j) == old(
                    self,
                ).spec_used(j),
            forall|j: int|
                0 <= j < old(self).spec_capacity() && j != i ==> final(self).spec_generation(j)
                    == old(self).spec_generation(j),
    {
        self.generations.set(i, generation);
        self.in_use.set(i, true);
    }

    /// Lower slot `i` if it is still up and its stamped generation equals
    /// the acknowledged one; a stale or repeated acknowledgment changes
    /// nothing. Returns whether the slot was cleared, which is the signal
    /// that wakes the send path.
    pub fn clear(&mut self, i: usize, generation: i64) -> (cleared: bool)
        requires
            old(self).wf(),
            i < old(self).spec_capacity(),
        ensures
            final(self).wf(),
            final(self).spec_capacity() == old(self).spec_capacity(),
            cleared == (old(self).spec_used(i as int) && old(self).spec_generation(i as int)
                == generation),
            final(self).spec_used(i as int) == (old(self).spec_used(i as int) && !cleared),
            forall|j: int|
                0 <= j < old(self).spec_capacity() && j != i ==> final(self).spec_used(j) == old(
                    self,
                ).spec_used(j),
            forall|j: int|
                0 <= j < old(self).spec_capacity() ==> final(self).spec_generation(j) == old(
                    self,
                ).spec_generation(j),
    {
        if self.generations[i] == generation && self.in_use[i] {
            self.in_use.set(i, false);
            true
        } else {
            false
        }
    }

    /// The lowest empty slot at or after `i`, if any.
    pub open spec fn spec_first_empty_from(&self, i: int) -> Option<int>
        decreases self.spec_capacity() - i,
    {
        if i < 0 || i >= self.spec_capacity() {
            None
        } else if !self.spec_used(i) {
            Some(i)
        } else {
            self.spec_first_empty_from(i + 1)
        }
    }

    /// The lowest empty slot, if any.
    pub open spec fn spec_first_empty(&self) -> Option<int> {
        self.spec_first_empty_from(0)
    }

    /// Lowest empty slot, if any; the send path stamps queued packets there.
    pub fn find_empty_slot(&self) -> (r: Option<usize>)
        requires
            self.wf(),
        ensures
            match r {
                Some(i) => self.spec_first_empty() == Some(i as int) && i < self.spec_capacity()
                    && !self.spec_used(i as int),
                None => self.spec_first_empty() is None && forall|j: int|
                    0 <= j < self.spec_capacity() ==> self.spec_used(j),
            },
    {
        let capacity = self.in_use.len();
        let mut i: usize = 0;
        while i < capacity
            invariant
                i <= capacity,
                capacity == self.spec_capacity(),
                forall|j: int| 0 <= j < i ==> self.spec_used(j),
            decreases capacity - i,
        {
            if !self.in_use[i] {
                proof {
                    self.lemma_first_empty_scan(0, i as int);
                }
                return Some(i);
            }
            i += 1;
        }
        proof {
            self.lemma_first_empty_scan(0, capacity as int);
        }
        None
    }

    /// A left-to-right scan that has seen only raised slots so far finds
    /// the first empty slot exactly where the scan first stops.
    proof fn lemma_first_empty_scan(&self, k: int, i: int)
        requires
            0 <= k <= i <= self.spec_capacity(),
            forall|j: int| k <= j < i ==> self.spec_used(j),
        ensures
            i == self.spec_capacity() ==> self.spec_first_empty_from(k) is None,
            i < self.spec_capacity() && !self.spec_used(i) ==> self.spec_first_empty_from(k)
                == Some(i),
        decreases i - k,
    {
        if k < i {
            self.lemma_first_empty_scan(k + 1, i);
        }
    }
}

/// The slot table can never track more outstanding reliable packets than
/// its capacity: the set of raised slots is a subset of the slot indices.
pub proof fn lemma_slot_capacity_bound(t: &SlotTable)
    ensures
        t.spec_used_slots().finite(),
        t.spec_used_slots().len() <= t.spec_capacity(),
{
    let cap = t.spec_capacity() as int;
    lemma_int_range(0, cap);
    assert(t.spec_used_slots().subset_of(set_int_range(0, cap)));
    lemma_len_subset(t.spec_used_slots(), set_int_range(0, cap));
}

} // verus!
