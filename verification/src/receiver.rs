//! The receive path: parse and classify each inbound datagram, acknowledge
//! reliable data, discard duplicates and stale ordered packets, clear the
//! sender's slot on a matching acknowledgment, and route every accepted
//! message through the bypass hook.

use crate::protocol::spec_parse_header;
use crate::protocol::PacketDesc;
use crate::protocol::PacketHeader;
use crate::protocol::HEADER_LEN;
use crate::slot_table::SlotTable;
use std::collections::HashMap;
use vstd::prelude::*;

verus! {

broadcast use vstd::std_specs::hash::group_hash_axioms;

/// What the bypass hook decides for an accepted inbound message: re-inject
/// it into this engine's send path, hand it to the host, or drop it.
pub enum BypassResult<T> {
    ToSender(T),
    ToUser(T),
    Discard,
}

/// What one inbound datagram produced: at most one acknowledgment request
/// for the send path, at most one message routed by the bypass hook, and
/// possibly a cleared slot for which the send path must be woken.
pub struct DatagramOutcome<T> {
    pub ack_request: Option<(u32, i64, i64)>,
    pub routed: Option<BypassResult<T>>,
    pub cleared_slot: bool,
}

/// Wrapping-signed newness: `current` is newer than `last` exactly when the
/// wrapping difference `current - last` is positive. A freshly stamped
/// generation is therefore always newer than the one before it, even across
/// counter wraparound.
pub open spec fn spec_wrap_newer(current: i64, last: i64) -> bool {
    vstd::wrapping::i64_specs::wrapping_sub(current, last) > 0
}

/// Newness against an optional record: with no record yet, everything is new.
pub open spec fn spec_is_new(last: Option<i64>, current: i64) -> bool {
    match last {
        Some(l) => spec_wrap_newer(current, l),
        None => true,
    }
}

/// Whether `current` is newer than the recorded generation, under
/// wrapping-signed comparison; anything is newer than no record.
pub fn is_new(last: Option<&i64>, current: i64) -> (r: bool)
    ensures
        r == spec_is_new(
            match last {
                Some(l) => Some(*l),
                None => None,
            },
            current,
        ),
{
    match last {
        Some(l) => current.wrapping_sub(*l) > 0,
        None => true,
    }
}

/// A generation is never newer than itself: the wrapping difference is zero.
pub proof fn lemma_wrap_newer_irreflexive(g: i64)
    ensures
        !spec_wrap_newer(g, g),
{
}

/// Receive-side state: the most recently accepted generation per slot, and
/// per ordered variant id; and how many consecutive receive failures the
/// socket has shown.
pub struct Receiver {
    recv_generation: Vec<Option<i64>>,
    unreliable_generations: HashMap<u32, i64>,
    retry_count: u32,
}

/// The recorded generation for `id`, if the map holds one.
pub open spec fn spec_ordered_last(m: Map<u32, i64>, id: u32) -> Option<i64> {
    if m.contains_key(id) {
        Some(m[id])
    } else {
        None
    }
}

impl Receiver {
    /// Most recently accepted generation of each slot.
    pub closed spec fn spec_slots(&self) -> Seq<Option<i64>> {
        self.recv_generation@
    }

    /// Most recently accepted generation of each ordered variant id.
    pub closed spec fn spec_ordered_map(&self) -> Map<u32, i64> {
        self.unreliable_generations@
    }

    /// Consecutive receive failures so far.
    pub closed spec fn spec_retry(&self) -> u32 {
        self.retry_count
    }

    /// Slot `slot` (one-based, as on the wire) names a tracked slot.
    pub open spec fn spec_valid_slot(&self, slot: i64) -> bool {
        0 < slot <= self.spec_slots().len()
    }

    /// Whether a reliable packet with header `p` passes the novelty
    /// filters: a tracked slot, a generation newer than the slot's record,
    /// and, for ordered kinds, newer than the kind's record too.
    pub open spec fn spec_reliable_passes<T: PacketDesc>(&self, p: PacketHeader) -> bool {
        &&& self.spec_valid_slot(p.slot)
        &&& spec_is_new(self.spec_slots()[p.slot - 1], p.generation)
        &&& (T::spec_ordered(p.id) ==> spec_is_new(
            spec_ordered_last(self.spec_ordered_map(), p.id),
            p.generation,
        ))
    }

    /// Whether an unreliable packet with header `p` passes the ordered
    /// filter (unordered kinds always pass).
    pub open spec fn spec_unreliable_passes<T: PacketDesc>(&self, p: PacketHeader) -> bool {
        T::spec_ordered(p.id) ==> spec_is_new(
            spec_ordered_last(self.spec_ordered_map(), p.id),
            p.generation,
        )
    }

    /// The message a reliable packet delivers in this state, if any: it must
    /// pass the novelty filters and its payload must parse.
    pub open spec fn spec_reliable_accepted<T: PacketDesc>(
        &self,
        p: PacketHeader,
        payload: Seq<u8>,
    ) -> Option<T> {
        if self.spec_reliable_passes::<T>(p) {
            T::spec_parse(p.id, payload)
        } else {
            None
        }
    }

    /// The message an unreliable packet delivers in this state, if any.
    pub open spec fn spec_unreliable_accepted<T: PacketDesc>(
        &self,
        p: PacketHeader,
        payload: Seq<u8>,
    ) -> Option<T> {
        if self.spec_unreliable_passes::<T>(p) {
            T::spec_parse(p.id, payload)
        } else {
            None
        }
    }

    pub fn new(capacity: usize) -> (r: Self)
        ensures
            r.spec_slots().len() == capacity,
            forall|i: int| 0 <= i < capacity ==> r.spec_slots()[i] is None,
            r.spec_ordered_map() == Map::<u32, i64>::empty(),
            r.spec_retry() == 0,
    {
        let mut recv_generation: Vec<Option<i64>> = Vec::with_capacity(capacity);
        let mut i: usize = 0;
        while i < capacity
            invariant
                i <= capacity,
                recv_generation@.len() == i,
                forall|j: int| 0 <= j < i ==> recv_generation@[j] is None,
            decreases capacity - i,
        {
            recv_generation.push(None);
            i += 1;
        }
        Receiver { recv_generation, unreliable_generations: HashMap::new(), retry_count: 0 }
    }

    /// Handle a reliable data packet: drop it unless it passes the novelty
    /// filters and its payload parses; on acceptance, record its generation
    /// for the slot. The ordered record advances as soon as the ordered
    /// filter passes, before the payload is parsed.
    pub fn handle_reliable<T: PacketDesc>(&mut self, p: &PacketHeader, data: &[u8]) -> (r: Option<
        T,
    >)
        requires
            p.slot > 0,
        ensures
            r == old(self).spec_reliable_accepted::<T>(*p, data@),
            final(self).spec_ordered_map() == if T::spec_ordered(p.id) && old(
                self,
            ).spec_reliable_passes::<T>(*p) {
                old(self).spec_ordered_map().insert(p.id, p.generation)
            } else {
                old(self).spec_ordered_map()
            },
            final(self).spec_slots() == if r is Some {
                old(self).spec_slots().update(p.slot - 1, Some(p.generation))
            } else {
                old(self).spec_slots()
            },
            final(self).spec_retry() == old(self).spec_retry(),
    {
        let capacity = self.recv_generation.len();
        if (p.slot as u64) > (capacity as u64) {
            // invalid slot id: warn and drop
            return None;
        }
        let index = (p.slot - 1) as usize;
        if !is_new(self.recv_generation[index].as_ref(), p.generation) {
            return None;
        }
        if T::ordered(p.id) {
            let last = self.unreliable_generations.get(&p.id);
            if is_new(last, p.generation) {
                self.unreliable_generations.insert(p.id, p.generation);
            } else {
                // stale ordered packet: discard it
                return None;
            }
        }
        match T::deserialize(p.id, data) {
            Ok(packet) => {
                self.recv_generation.set(index, Some(p.generation));
                Some(packet)
            },
            Err(_) => {
                // payload parse failure: warn and drop
                None
            },
        }
    }

    /// Handle an unreliable data packet: apply the ordered filter, then
    /// parse. No slot record is involved.
    pub fn handle_unreliable<T: PacketDesc>(&mut self, p: &PacketHeader, data: &[u8]) -> (r:
        Option<T>)
        ensures
            r == old(self).spec_unreliable_accepted::<T>(*p, data@),
            final(self).spec_ordered_map() == if T::spec_ordered(p.id) && old(
                self,
            ).spec_unreliable_passes::<T>(*p) {
                old(self).spec_ordered_map().insert(p.id, p.generation)
            } else {
                old(self).spec_ordered_map()
            },
            final(self).spec_slots() == old(self).spec_slots(),
            final(self).spec_retry() == old(self).spec_retry(),
    {
        if T::ordered(p.id) {
            let last = self.unreliable_generations.get(&p.id);
            if is_new(last, p.generation) {
                self.unreliable_generations.insert(p.id, p.generation);
            } else {
                // stale ordered packet: discard it
                return None;
            }
        }
        match T::deserialize(p.id, data) {
            Ok(packet) => Some(packet),
            Err(_) => {
                // payload parse failure: warn and drop
                None
            },
        }
    }

    /// Handle an acknowledgment: if it names a tracked slot and carries the
    /// generation currently stamped there, lower the slot. Returns whether
    /// the slot was cleared, the signal that wakes the send path.
    pub fn handle_ack(&self, slots: &mut SlotTable, p: &PacketHeader) -> (notify: bool)
        requires
            p.slot < 0,
            old(slots).wf(),
        ensures
            final(slots).wf(),
            final(slots).spec_capacity() == old(slots).spec_capacity(),
            ({
                let index = -p.slot - 1;
                if 0 <= index < old(slots).spec_capacity() {
                    &&& notify == (old(slots).spec_used(index) && old(slots).spec_generation(index)
                        == p.generation)
                    &&& final(slots).spec_used(index) == (old(slots).spec_used(index) && !notify)
                    &&& forall|j: int|
                        0 <= j < old(slots).spec_capacity() && j != index ==> final(slots).spec_used(j) == old(slots).spec_used(j)
                    &&& forall|j: int|
                        0 <= j < old(slots).spec_capacity() ==> final(slots).spec_generation(j)
                            == old(slots).spec_generation(j)
                } else {
                    // invalid slot id: warn and ignore
                    &&& !notify
                    &&& *final(slots) == *old(slots)
                }
            }),
    {
        let magnitude = -(p.slot + 1);  // == -p.slot - 1, avoiding overflow at i64::MIN
        let capacity = slots.capacity();
        if (magnitude as u64) >= (capacity as u64) {
            return false;
        }
        let index = magnitude as usize;
        slots.clear(index, p.generation)
    }

    /// Process one inbound datagram end to end: parse the header, classify
    /// it by slot, acknowledge and filter reliable data, filter unreliable
    /// data, clear the sender's slot on a matching acknowledgment, and run
    /// every accepted message through the bypass hook. The outcome carries
    /// everything the surrounding loop must act on.
    pub fn handle_datagram<T: PacketDesc, F: Fn(T) -> BypassResult<T>>(
        &mut self,
        slots: &mut SlotTable,
        datagram: &[u8],
        bypass: &F,
    ) -> (out: DatagramOutcome<T>)
        requires
            old(slots).wf(),
            forall|t: T| #[trigger] call_requires(*bypass, (t,)),
        ensures
            final(slots).wf(),
            final(slots).spec_capacity() == old(slots).spec_capacity(),
            final(self).spec_retry() == old(self).spec_retry(),
            final(self).spec_slots().len() == old(self).spec_slots().len(),
            ({
                let parsed = spec_parse_header(datagram@);
                let payload = datagram@.subrange(HEADER_LEN as int, datagram@.len() as int);
                match parsed {
                    None => {
                        // malformed datagram: warn and change nothing
                        &&& out.ack_request is None
                        &&& out.routed is None
                        &&& !out.cleared_slot
                        &&& *final(self) == *old(self)
                        &&& *final(slots) == *old(slots)
                    },
                    Some(p) => if p.slot > 0 {
                        // reliable data: every packet of a tracked slot is
                        // acknowledged, novel ones are delivered
                        &&& out.ack_request == if old(self).spec_valid_slot(p.slot) {
                            Some((p.id, (-p.slot) as i64, p.generation))
                        } else {
                            None::<(u32, i64, i64)>
                        }
                        &&& !out.cleared_slot
                        &&& *final(slots) == *old(slots)
                        &&& match old(self).spec_reliable_accepted::<T>(p, payload) {
                            Some(v) => out.routed matches Some(br) && call_ensures(
                                *bypass,
                                (v,),
                                br,
                            ),
                            None => out.routed is None,
                        }
                        &&& final(self).spec_ordered_map() == if T::spec_ordered(p.id) && old(
                            self,
                        ).spec_reliable_passes::<T>(p) {
                            old(self).spec_ordered_map().insert(p.id, p.generation)
                        } else {
                            old(self).spec_ordered_map()
                        }
                        &&& final(self).spec_slots() == if old(self).spec_reliable_accepted::<T>(
                            p,
                            payload,
                        ) is Some {
                            old(self).spec_slots().update(p.slot - 1, Some(p.generation))
                        } else {
                            old(self).spec_slots()
                        }
                    } else if p.slot == 0 {
                        // unreliable data: never acknowledged
                        &&& out.ack_request is None
                        &&& !out.cleared_slot
                        &&& *final(slots) == *old(slots)
                        &&& match old(self).spec_unreliable_accepted::<T>(p, payload) {
                            Some(v) => out.routed matches Some(br) && call_ensures(
                                *bypass,
                                (v,),
                                br,
                            ),
                            None => out.routed is None,
                        }
                        &&& final(self).spec_ordered_map() == if T::spec_ordered(p.id) && old(
                            self,
                        ).spec_unreliable_passes::<T>(p) {
                            old(self).spec_ordered_map().insert(p.id, p.generation)
                        } else {
                            old(self).spec_ordered_map()
                        }
                        &&& final(self).spec_slots() == old(self).spec_slots()
                    } else {
                        // acknowledgment for one of our own outstanding slots
                        &&& out.ack_request is None
                        &&& out.routed is None
                        &&& *final(self) == *old(self)
                        &&& ({
                            let index = -p.slot - 1;
                            if 0 <= index < old(slots).spec_capacity() {
                                &&& out.cleared_slot == (old(slots).spec_used(index) && old(slots).spec_generation(index) == p.generation)
                                &&& final(slots).spec_used(index) == (old(slots).spec_used(index)
                                    && !out.cleared_slot)
                                &&& forall|j: int|
                                    0 <= j < old(slots).spec_capacity() && j != index ==> final(slots).spec_used(j) == old(slots).spec_used(j)
                                &&& forall|j: int|
                                    0 <= j < old(slots).spec_capacity() ==> final(slots).spec_generation(j) == old(slots).spec_generation(j)
                            } else {
                                &&& !out.cleared_slot
                                &&& *final(slots) == *old(slots)
                            }
                        })
                    },
                }
            }),
    {
        let parsed = match PacketHeader::deserialize(datagram) {
            Ok(x) => x,
            Err(_) => {
                // malformed header: warn and drop the datagram
                return DatagramOutcome { ack_request: None, routed: None, cleared_slot: false };
            },
        };
        let (p, payload) = parsed;
        if p.slot > 0 {
            let capacity = self.recv_generation.len();
            if (p.slot as u64) > (capacity as u64) {
                // invalid slot id: warn and drop
                return DatagramOutcome { ack_request: None, routed: None, cleared_slot: false };
            }
            let ack_request = Some((p.id, -p.slot, p.generation));
            match self.handle_reliable::<T>(&p, payload) {
                Some(v) => DatagramOutcome {
                    ack_request,
                    routed: Some(bypass(v)),
                    cleared_slot: false,
                },
                None => DatagramOutcome { ack_request, routed: None, cleared_slot: false },
            }
        } else if p.slot == 0 {
            match self.handle_unreliable::<T>(&p, payload) {
                Some(v) => DatagramOutcome {
                    ack_request: None,
                    routed: Some(bypass(v)),
                    cleared_slot: false,
                },
                None => DatagramOutcome { ack_request: None, routed: None, cleared_slot: false },
            }
        } else {
            let cleared_slot = self.handle_ack(slots, &p);
            DatagramOutcome { ack_request: None, routed: None, cleared_slot }
        }
    }

    /// Account one socket receive: a successful, non-empty receive clears
    /// the failure streak; an error or an empty datagram lengthens it.
    /// Returns whether the receive loop keeps running: it stops as soon as
    /// `retry_max` consecutive receives have failed.
    pub fn note_recv_result(&mut self, ok: bool, retry_max: u32) -> (keep_going: bool)
        requires
            old(self).spec_retry() < retry_max,
        ensures
            final(self).spec_retry() == if ok {
                0u32
            } else {
                (old(self).spec_retry() + 1) as u32
            },
            keep_going == (ok || old(self).spec_retry() + 1 != retry_max),
            keep_going ==> final(self).spec_retry() < retry_max,
            final(self).spec_slots() == old(self).spec_slots(),
            final(self).spec_ordered_map() == old(self).spec_ordered_map(),
    {
        if ok {
            self.retry_count = 0;
            true
        } else {
            self.retry_count = self.retry_count + 1;
            self.retry_count != retry_max
        }
    }
}

/// Whether the receive loop is still running after `n` more consecutive
/// failures, starting from a failure streak of `retry` already recorded.
pub open spec fn spec_keeps_going_after_failures(retry: u32, retry_max: u32, n: nat) -> bool
    decreases n,
{
    if n == 0 {
        true
    } else {
        &&& retry + 1 != retry_max
        &&& spec_keeps_going_after_failures((retry + 1) as u32, retry_max, (n - 1) as nat)
    }
}

/// Once the socket dies, the engine shuts down within a bounded number of
/// further attempts: with a failure streak of `retry` already recorded,
/// every streak shorter than `retry_max - retry` keeps the loop running,
/// and the streak of exactly `retry_max - retry` stops it.
pub proof fn lemma_shutdown_bound(retry: u32, retry_max: u32, n: nat)
    requires
        retry < retry_max,
    ensures
        n < retry_max - retry ==> spec_keeps_going_after_failures(retry, retry_max, n),
        !spec_keeps_going_after_failures(retry, retry_max, (retry_max - retry) as nat),
    decreases retry_max - retry,
{
    if retry + 1 == retry_max {
        assert(!spec_keeps_going_after_failures(retry, retry_max, 1nat));
    } else {
        let next = (retry + 1) as u32;
        if n > 0 {
            lemma_shutdown_bound(next, retry_max, (n - 1) as nat);
        } else {
            lemma_shutdown_bound(next, retry_max, 0nat);
        }
    }
}

/// Delivery of a fresh reliable frame: when a frame the send path built
/// reaches a receiver that has not seen its generation — neither on its
/// slot nor, for an ordered kind, on its kind — the receiver accepts it and
/// delivers exactly the message that was framed, provided the message
/// type's codec round-trips. Together with the send path's retransmission
/// of unacknowledged frames, this is why a reliable submission arrives once
/// the network lets any copy through.
pub proof fn lemma_reliable_delivery<T: PacketDesc>(r: Receiver, m: T, slot: i64, generation: i64)
    requires
        0 < slot <= r.spec_slots().len(),
        spec_is_new(r.spec_slots()[slot - 1], generation),
        T::spec_ordered(m.spec_id()) ==> spec_is_new(
            spec_ordered_last(r.spec_ordered_map(), m.spec_id()),
            generation,
        ),
        T::spec_parse(m.spec_id(), m.spec_payload()) == Some(m),
    ensures
        ({
            let frame = crate::protocol::spec_frame(m, slot, generation);
            let header = PacketHeader { id: m.spec_id(), slot, generation };
            &&& spec_parse_header(frame) == Some(header)
            &&& r.spec_reliable_accepted::<T>(
                header,
                frame.subrange(HEADER_LEN as int, frame.len() as int),
            ) == Some(m)
        }),
{
    crate::protocol::lemma_frame_fidelity(m, slot, generation);
}

/// Bypass totality: the hook's verdict on an accepted message is exactly
/// one of the three dispositions — re-inject into the send path, deliver to
/// the host, or discard. Together with `handle_datagram`, which routes a
/// message exactly when it is accepted and routes it as the hook decided,
/// every non-duplicate accepted message reaches exactly one destination.
pub proof fn lemma_bypass_totality<T>(br: BypassResult<T>)
    ensures
        br is ToSender ==> !(br is ToUser) && !(br is Discard),
        br is ToUser ==> !(br is ToSender) && !(br is Discard),
        br is Discard ==> !(br is ToSender) && !(br is ToUser),
        br is ToSender || br is ToUser || br is Discard,
{
}

/// At-most-once delivery per slot and generation: once the receiver has
/// accepted a reliable packet, its slot record holds that packet's
/// generation (`handle_reliable` ensures this), and a later packet carrying
/// the same slot and the same generation is never delivered, because a
/// generation is not wrapping-newer than itself.
pub proof fn lemma_at_most_once<T: PacketDesc>(r: Receiver, p: PacketHeader, payload: Seq<u8>)
    requires
        r.spec_valid_slot(p.slot),
        r.spec_slots()[p.slot - 1] == Some(p.generation),
    ensures
        r.spec_reliable_accepted::<T>(p, payload) is None,
{
    lemma_wrap_newer_irreflexive(p.generation);
}

/// The ordered filter delivers strictly increasing generations: once a
/// message of an ordered kind with generation `g` has been accepted (so the
/// kind's record reads `g`, as `handle_reliable` and `handle_unreliable`
/// ensure), any further message of that kind — reliable or not — is
/// delivered only if its generation is wrapping-newer than `g`.
pub proof fn lemma_ordered_strictly_increasing<T: PacketDesc>(
    r: Receiver,
    p: PacketHeader,
    payload: Seq<u8>,
    g: i64,
)
    requires
        T::spec_ordered(p.id),
        spec_ordered_last(r.spec_ordered_map(), p.id) == Some(g),
        r.spec_reliable_accepted::<T>(p, payload) is Some || r.spec_unreliable_accepted::<T>(
            p,
            payload,
        ) is Some,
    ensures
        spec_wrap_newer(p.generation, g),
{
}

/// Relies on rand::random: one independent, uniformly distributed 64-bit
/// draw from the thread-local generator. Nothing is promised of the value.
#[verifier::external_body]
fn random_u64() -> u64 {
    rand::random::<u64>()
}

/// The drop-simulation rule on a given roll: drop exactly when simulation
/// is enabled and the roll lands below the configured percentage.
pub fn drop_decision(roll: u64, drop_percentage: u64) -> (r: bool)
    ensures
        r == (drop_percentage > 0 && roll % 100 < drop_percentage),
{
    drop_percentage > 0 && roll % 100 < drop_percentage
}

/// Simulated packet drop for testing: discard an inbound datagram with
/// roughly `drop_percentage` percent probability; never when disabled.
pub fn should_drop(drop_percentage: u64) -> (r: bool)
    ensures
        drop_percentage == 0 ==> !r,
{
    if drop_percentage == 0 {
        return false;
    }
    let roll = random_u64();
    drop_decision(roll, drop_percentage)
}

} // verus!

