//! The send path: accept submissions, frame them, stamp queued reliable
//! packets into free slots, retransmit the oldest outstanding packet when
//! its deadline passes, and count consecutive socket failures. Time enters
//! every step as a plain instant supplied by the caller, and the socket
//! stays with the host: each function here turns state and one event into
//! the next state and, at most, one frame to transmit.

use crate::protocol::spec_frame;
use crate::protocol::PacketDesc;
use crate::protocol::PacketHeader;
use crate::slot_table::SlotTable;
use std::collections::VecDeque;
use vstd::prelude::*;

verus! {

broadcast use vstd::std_specs::vecdeque::axiom_spec_len;

/// A submission with the reliability choice made at the call site, for
/// hosts that wrap each message rather than encode the choice in the
/// message type itself.
pub enum PacketType<T> {
    Reliable(T),
    Unreliable(T),
}

/// Send-side state. The slot table itself stands apart (the receive path
/// clears its flags on acknowledgments); the sender owns everything else:
/// the framed bytes and last transmission instant of each slot, the queue
/// of reliable messages still waiting for a slot, the used-slot queue that
/// orders retransmissions, the shared generation counter, and the failure
/// streak.
pub struct Sender<T> {
    retry_count: u32,
    retry_max: u32,
    generation: i64,
    timeout: u64,
    buffers: Vec<Vec<u8>>,
    sent_at: Vec<u64>,
    queue: VecDeque<T>,
    used_queue: VecDeque<usize>,
}

impl<T: PacketDesc> Sender<T> {
    /// Consecutive send failures so far.
    pub closed spec fn spec_retry(&self) -> u32 {
        self.retry_count
    }

    /// Failure streak at which the send loop stops.
    pub closed spec fn spec_retry_max(&self) -> u32 {
        self.retry_max
    }

    /// The generation the next framed packet will be stamped with.
    pub closed spec fn spec_generation(&self) -> i64 {
        self.generation
    }

    /// Retransmission deadline, in the caller's clock units.
    pub closed spec fn spec_timeout(&self) -> u64 {
        self.timeout
    }

    /// Framed bytes of each slot's outstanding packet.
    pub closed spec fn spec_buffers(&self) -> Seq<Vec<u8>> {
        self.buffers@
    }

    /// Instant of each slot's last (re)transmission.
    pub closed spec fn spec_sent_at(&self) -> Seq<u64> {
        self.sent_at@
    }

    /// Reliable messages waiting for a free slot, oldest first.
    pub closed spec fn spec_queue(&self) -> Seq<T> {
        self.queue@
    }

    /// Slots holding outstanding packets, oldest transmission first;
    /// entries whose slot has been cleared are skipped lazily.
    pub closed spec fn spec_used_queue(&self) -> Seq<usize> {
        self.used_queue@
    }

    /// Number of slots.
    pub open spec fn spec_capacity(&self) -> nat {
        self.spec_buffers().len()
    }

    pub open spec fn wf(&self) -> bool {
        &&& self.spec_buffers().len() == self.spec_sent_at().len()
        &&& self.spec_capacity() < 0x8000_0000_0000_0000
        &&& forall|j: int|
            0 <= j < self.spec_used_queue().len() ==> (self.spec_used_queue()[j] as int)
                < self.spec_capacity()
    }

    /// Configuration and counters that no framing step touches.
    pub open spec fn spec_config_unchanged(&self, other: &Self) -> bool {
        &&& self.spec_retry() == other.spec_retry()
        &&& self.spec_retry_max() == other.spec_retry_max()
        &&& self.spec_timeout() == other.spec_timeout()
    }

    /// Build the send half and the slot table it will track packets in.
    pub fn new(timeout: u64, capacity: usize, retry_max: u32) -> (r: (Sender<T>, SlotTable))
        requires
            capacity < 0x8000_0000_0000_0000,
        ensures
            r.0.wf(),
            r.1.wf(),
            r.0.spec_capacity() == capacity,
            r.1.spec_capacity() == capacity,
            r.0.spec_retry() == 0,
            r.0.spec_retry_max() == retry_max,
            r.0.spec_generation() == 0i64,
            r.0.spec_timeout() == timeout,
            r.0.spec_queue() == Seq::<T>::empty(),
            r.0.spec_used_queue() == Seq::<usize>::empty(),
            forall|i: int| 0 <= i < capacity ==> !r.1.spec_used(i),
            forall|i: int| 0 <= i < capacity ==> r.1.spec_generation(i) == 0i64,
    {
        let mut buffers: Vec<Vec<u8>> = Vec::with_capacity(capacity);
        let mut sent_at: Vec<u64> = Vec::with_capacity(capacity);
        let mut i: usize = 0;
        while i < capacity
            invariant
                i <= capacity,
                buffers@.len() == i,
                sent_at@.len() == i,
            decreases capacity - i,
        {
            buffers.push(Vec::new());
            sent_at.push(0);
            i += 1;
        }
        let sender = Sender {
            retry_count: 0,
            retry_max,
            generation: 0,
            timeout,
            buffers,
            sent_at,
            queue: VecDeque::new(),
            used_queue: VecDeque::new(),
        };
        (sender, SlotTable::new(capacity))
    }

    pub fn capacity(&self) -> (r: usize)
        ensures
            r == self.spec_capacity(),
    {
        self.buffers.len()
    }

    pub fn timeout(&self) -> (r: u64)
        ensures
            r == self.spec_timeout(),
    {
        self.timeout
    }

    /// Framed bytes of slot `i`, to hand to the socket.
    pub fn buffer_bytes(&self, i: usize) -> (r: &Vec<u8>)
        requires
            i < self.spec_capacity(),
        ensures
            r == self.spec_buffers()[i as int],
    {
        &self.buffers[i]
    }

    /// Instant of slot `i`'s last transmission.
    pub fn sent_at_of(&self, i: usize) -> (r: u64)
        requires
            self.wf(),
            i < self.spec_capacity(),
        ensures
            r == self.spec_sent_at()[i as int],
    {
        self.sent_at[i]
    }

    /// Reliable messages still waiting for a slot.
    pub fn queue_len(&self) -> (r: usize)
        ensures
            r == self.spec_queue().len(),
    {
        self.queue.len()
    }

    /// Account one socket send: success clears the failure streak, a
    /// failure lengthens it. Returns whether the send loop keeps running:
    /// it stops as soon as `retry_max` consecutive sends have failed.
    pub fn note_send_result(&mut self, ok: bool) -> (keep_going: bool)
        requires
            old(self).spec_retry() < old(self).spec_retry_max(),
        ensures
            final(self).spec_retry() == if ok {
                0u32
            } else {
                (old(self).spec_retry() + 1) as u32
            },
            keep_going == (ok || old(self).spec_retry() + 1 != old(self).spec_retry_max()),
            keep_going ==> final(self).spec_retry() < final(self).spec_retry_max(),
            final(self).spec_retry_max() == old(self).spec_retry_max(),
            final(self).spec_generation() == old(self).spec_generation(),
            final(self).spec_timeout() == old(self).spec_timeout(),
            final(self).spec_buffers() == old(self).spec_buffers(),
            final(self).spec_sent_at() == old(self).spec_sent_at(),
            final(self).spec_queue() == old(self).spec_queue(),
            final(self).spec_used_queue() == old(self).spec_used_queue(),
    {
        if ok {
            self.retry_count = 0;
            true
        } else {
            self.retry_count = self.retry_count + 1;
            self.retry_count != self.retry_max
        }
    }

    /// Accept one submission: a reliable message joins the queue to wait
    /// for a free slot (no generation is assigned yet); an unreliable one
    /// is handed back to be framed and transmitted at once.
    pub fn queue(&mut self, data: T) -> (r: Option<T>)
        ensures
            if data.spec_reliable() {
                r is None && final(self).spec_queue() == old(self).spec_queue().push(data)
            } else {
                r == Some(data) && final(self).spec_queue() == old(self).spec_queue()
            },
            old(self).spec_config_unchanged(final(self)),
            final(self).spec_generation() == old(self).spec_generation(),
            final(self).spec_buffers() == old(self).spec_buffers(),
            final(self).spec_sent_at() == old(self).spec_sent_at(),
            final(self).spec_used_queue() == old(self).spec_used_queue(),
    {
        if data.reliable() {
            self.queue.push_back(data);
            None
        } else {
            Some(data)
        }
    }

    /// Frame an unreliable packet into the caller's reusable buffer, with
    /// slot zero and a fresh generation; it is transmitted once and then
    /// forgotten.
    pub fn prepare_unreliable(&mut self, payload: &mut Vec<u8>, packet: &T)
        ensures
            final(payload)@ == spec_frame(*packet, 0i64, old(self).spec_generation()),
            final(self).spec_generation() == vstd::wrapping::i64_specs::wrapping_add(
                old(self).spec_generation(),
                1,
            ),
            old(self).spec_config_unchanged(final(self)),
            final(self).spec_buffers() == old(self).spec_buffers(),
            final(self).spec_sent_at() == old(self).spec_sent_at(),
            final(self).spec_queue() == old(self).spec_queue(),
            final(self).spec_used_queue() == old(self).spec_used_queue(),
    {
        let generation = self.generation;
        self.generation = self.generation.wrapping_add(1);
        payload.clear();
        let header = PacketHeader::new(packet.id(), 0, generation);
        let mut bytes = header.serialize();
        payload.append(&mut bytes);
        packet.serialize(payload);
    }

    /// Stamp `data` into the empty slot `empty`: raise the slot with a
    /// fresh generation, frame the message into the slot's buffer, record
    /// the transmission instant and append the slot to the used queue.
    fn put_in(&mut self, slots: &mut SlotTable, data: T, empty: usize, now: u64)
        requires
            old(self).wf(),
            old(slots).wf(),
            old(self).spec_capacity() == old(slots).spec_capacity(),
            empty < old(slots).spec_capacity(),
            !old(slots).spec_used(empty as int),
        ensures
            final(self).wf(),
            final(slots).wf(),
            final(self).spec_capacity() == old(self).spec_capacity(),
            final(slots).spec_capacity() == old(slots).spec_capacity(),
            final(slots).spec_used(empty as int),
            final(slots).spec_generation(empty as int) == old(self).spec_generation(),
            forall|j: int|
                0 <= j < old(slots).spec_capacity() && j != empty ==> final(slots).spec_used(j)
                    == old(slots).spec_used(j),
            forall|j: int|
                0 <= j < old(slots).spec_capacity() && j != empty ==> final(slots).spec_generation(
                    j,
                ) == old(slots).spec_generation(j),
            final(self).spec_buffers()[empty as int]@ == spec_frame(
                data,
                (empty + 1) as i64,
                old(self).spec_generation(),
            ),
            forall|j: int|
                0 <= j < old(self).spec_capacity() && j != empty ==> final(self).spec_buffers()[j]
                    == old(self).spec_buffers()[j],
            final(self).spec_sent_at() == old(self).spec_sent_at().update(empty as int, now),
            final(self).spec_used_queue() == old(self).spec_used_queue().push(empty),
            final(self).spec_generation() == vstd::wrapping::i64_specs::wrapping_add(
                old(self).spec_generation(),
                1,
            ),
            old(self).spec_config_unchanged(final(self)),
            final(self).spec_queue() == old(self).spec_queue(),
    {
        let generation = self.generation;
        self.generation = self.generation.wrapping_add(1);
        slots.put(empty, generation);
        let header = PacketHeader::new(data.id(), (empty as i64) + 1, generation);
        let mut frame = header.serialize();
        data.serialize(&mut frame);
        self.buffers.set(empty, frame);
        self.sent_at.set(empty, now);
        self.used_queue.push_back(empty);
        proof {
            assert forall|j: int|
                0 <= j < self.spec_used_queue().len() implies (self.spec_used_queue()[j] as int)
                < self.spec_capacity() by {
                if j < self.spec_used_queue().len() - 1 {
                    assert(self.spec_used_queue()[j] == old(self).spec_used_queue()[j]);
                }
            }
        }
    }

    /// Move one queued reliable message into the lowest empty slot; the
    /// frame to transmit is then in that slot's buffer. Returns the slot
    /// filled, or nothing when every slot is outstanding or the queue is
    /// empty.
    pub fn fill_one(&mut self, slots: &mut SlotTable, now: u64) -> (r: Option<usize>)
        requires
            old(self).wf(),
            old(slots).wf(),
            old(self).spec_capacity() == old(slots).spec_capacity(),
        ensures
            final(self).wf(),
            final(slots).wf(),
            final(self).spec_capacity() == old(self).spec_capacity(),
            final(slots).spec_capacity() == old(slots).spec_capacity(),
            match r {
                Some(i) => {
                    &&& old(slots).spec_first_empty() == Some(i as int)
                    &&& old(self).spec_queue().len() > 0
                    &&& final(self).spec_queue() == old(self).spec_queue().skip(1)
                    &&& final(self).spec_buffers()[i as int]@ == spec_frame(
                        old(self).spec_queue()[0],
                        (i + 1) as i64,
                        old(self).spec_generation(),
                    )
                    &&& forall|j: int|
                        0 <= j < old(self).spec_capacity() && j != i ==> final(self).spec_buffers()[j] == old(self).spec_buffers()[j]
                    &&& final(slots).spec_used(i as int)
                    &&& final(slots).spec_generation(i as int) == old(self).spec_generation()
                    &&& forall|j: int|
                        0 <= j < old(slots).spec_capacity() && j != i ==> final(slots).spec_used(j)
                            == old(slots).spec_used(j)
                    &&& forall|j: int|
                        0 <= j < old(slots).spec_capacity() && j != i ==> final(slots).spec_generation(j) == old(slots).spec_generation(j)
                    &&& final(self).spec_sent_at() == old(self).spec_sent_at().update(i as int, now)
                    &&& final(self).spec_used_queue() == old(self).spec_used_queue().push(i)
                    &&& final(self).spec_generation()
                        == vstd::wrapping::i64_specs::wrapping_add(old(self).spec_generation(), 1)
                    &&& old(self).spec_config_unchanged(final(self))
                },
                None => {
                    &&& (old(slots).spec_first_empty() is None || old(self).spec_queue().len()
                        == 0)
                    &&& final(self).spec_queue() == old(self).spec_queue()
                    &&& final(self).spec_buffers() == old(self).spec_buffers()
                    &&& final(self).spec_sent_at() == old(self).spec_sent_at()
                    &&& final(self).spec_used_queue() == old(self).spec_used_queue()
                    &&& final(self).spec_generation() == old(self).spec_generation()
                    &&& old(self).spec_config_unchanged(final(self))
                    &&& *final(slots) == *old(slots)
                },
            },
    {
        match slots.find_empty_slot() {
            Some(empty) => match self.queue.pop_front() {
                Some(data) => {
                    proof {
                        assert(self.spec_used_queue() == old(self).spec_used_queue());
                        assert(self.wf());
                    }
                    self.put_in(slots, data, empty, now);
                    Some(empty)
                },
                None => {
                    proof {
                        assert(self.spec_used_queue() == old(self).spec_used_queue());
                        assert(self.spec_buffers() == old(self).spec_buffers());
                        assert(self.wf());
                    }
                    None
                },
            },
            None => None,
        }
    }

    /// Skip cleared entries at the head of the used queue and return the
    /// slot of the oldest outstanding packet, if any packet is outstanding.
    pub fn get_oldest(&mut self, slots: &SlotTable) -> (r: Option<usize>)
        requires
            old(self).wf(),
            old(self).spec_capacity() == slots.spec_capacity(),
        ensures
            final(self).wf(),
            final(self).spec_buffers() == old(self).spec_buffers(),
            final(self).spec_sent_at() == old(self).spec_sent_at(),
            final(self).spec_queue() == old(self).spec_queue(),
            final(self).spec_generation() == old(self).spec_generation(),
            old(self).spec_config_unchanged(final(self)),
            exists|k: int|
                {
                    &&& 0 <= k <= old(self).spec_used_queue().len()
                    &&& #[trigger] final(self).spec_used_queue() == old(self).spec_used_queue().skip(k)
                    &&& forall|j: int|
                        0 <= j < k ==> !slots.spec_used(old(self).spec_used_queue()[j] as int)
                },
            match r {
                Some(i) => final(self).spec_used_queue().len() > 0 && final(self).spec_used_queue()[0] == i && slots.spec_used(i as int) && i
                    < final(self).spec_capacity(),
                None => final(self).spec_used_queue().len() == 0,
            },
    {
        let ghost uq0 = self.used_queue@;
        let ghost mut k: int = 0;
        proof {
            assert(uq0 == self.spec_used_queue());
            assert(forall|j: int| 0 <= j < uq0.len() ==> (uq0[j] as int) < self.spec_capacity());
        }
        loop
            invariant
                self.wf(),
                self.buffers@ == old(self).buffers@,
                self.sent_at@ == old(self).sent_at@,
                self.queue@ == old(self).queue@,
                self.generation == old(self).generation,
                self.retry_count == old(self).retry_count,
                self.retry_max == old(self).retry_max,
                self.timeout == old(self).timeout,
                uq0 == old(self).used_queue@,
                self.spec_capacity() == slots.spec_capacity(),
                forall|j: int| 0 <= j < uq0.len() ==> (uq0[j] as int) < self.spec_capacity(),
                0 <= k <= uq0.len(),
                self.used_queue@ == uq0.skip(k),
                forall|j: int| 0 <= j < k ==> !slots.spec_used(uq0[j] as int),
            ensures
                self.wf(),
                self.buffers@ == old(self).buffers@,
                self.sent_at@ == old(self).sent_at@,
                self.queue@ == old(self).queue@,
                self.generation == old(self).generation,
                self.retry_count == old(self).retry_count,
                self.retry_max == old(self).retry_max,
                self.timeout == old(self).timeout,
                0 <= k <= uq0.len(),
                self.used_queue@ == uq0.skip(k),
                forall|j: int| 0 <= j < k ==> !slots.spec_used(uq0[j] as int),
                self.used_queue@.len() > 0 ==> slots.spec_used(self.used_queue@[0] as int),
            decreases self.used_queue@.len(),
        {
            match self.used_queue.pop_front() {
                None => {
                    break ;
                },
                Some(i) => {
                    if slots.is_used(i) {
                        self.used_queue.push_front(i);
                        proof {
                            assert(self.used_queue@ =~= uq0.skip(k));
                        }
                        break ;
                    } else {
                        proof {
                            assert(uq0.skip(k).skip(1) =~= uq0.skip(k + 1));
                            k = k + 1;
                        }
                    }
                },
            }
        }
        if self.used_queue.len() > 0 {
            let i = self.used_queue[0];
            Some(i)
        } else {
            None
        }
    }

    /// Retransmission step: when the oldest outstanding packet's deadline
    /// has passed, restamp its transmission instant, move its slot to the
    /// back of the used queue, and return the slot so its frame goes out
    /// again. Resends never reassign the generation.
    pub fn resend(&mut self, slots: &SlotTable, now: u64) -> (r: Option<usize>)
        requires
            old(self).wf(),
            old(self).spec_capacity() == slots.spec_capacity(),
        ensures
            final(self).wf(),
            final(self).spec_capacity() == old(self).spec_capacity(),
            final(self).spec_buffers() == old(self).spec_buffers(),
            final(self).spec_queue() == old(self).spec_queue(),
            final(self).spec_generation() == old(self).spec_generation(),
            old(self).spec_config_unchanged(final(self)),
            exists|k: int|
                {
                    &&& 0 <= k <= old(self).spec_used_queue().len()
                    &&& forall|j: int|
                        0 <= j < k ==> !slots.spec_used(old(self).spec_used_queue()[j] as int)
                    &&& {
                        let rest = #[trigger] old(self).spec_used_queue().skip(k);
                        match r {
                            Some(i) => {
                                &&& rest.len() > 0
                                &&& rest[0] == i
                                &&& slots.spec_used(i as int)
                                &&& i < old(self).spec_capacity()
                                &&& now > old(self).spec_sent_at()[i as int] + old(self).spec_timeout()
                                &&& final(self).spec_used_queue() == rest.skip(1).push(i)
                                &&& final(self).spec_sent_at() == old(self).spec_sent_at().update(
                                    i as int,
                                    now,
                                )
                            },
                            None => {
                                &&& final(self).spec_used_queue() == rest
                                &&& final(self).spec_sent_at() == old(self).spec_sent_at()
                                &&& (rest.len() == 0 || (slots.spec_used(rest[0] as int) && !(now
                                    > old(self).spec_sent_at()[rest[0] as int] + old(self).spec_timeout())))
                            },
                        }
                    }
                },
    {
        let oldest = self.get_oldest(slots);
        let ghost k = choose|k: int|
            {
                &&& 0 <= k <= old(self).spec_used_queue().len()
                &&& #[trigger] self.spec_used_queue() == old(self).spec_used_queue().skip(k)
                &&& forall|j: int|
                    0 <= j < k ==> !slots.spec_used(old(self).spec_used_queue()[j] as int)
            };
        match oldest {
            Some(i) => {
                let sent = self.sent_at[i];
                if now > sent && now - sent > self.timeout {
                    let _ = self.used_queue.pop_front();
                    self.used_queue.push_back(i);
                    self.sent_at.set(i, now);
                    proof {
                        assert(old(self).spec_used_queue().skip(k).skip(1) =~= old(self).spec_used_queue().skip(k + 1));
                        assert(self.used_queue@ =~= old(self).spec_used_queue().skip(k).skip(
                            1,
                        ).push(i));
                    }
                    Some(i)
                } else {
                    None
                }
            },
            None => None,
        }
    }
}

} // verus!
