//! Wire framing: the fixed-size big-endian packet header, its serializer
//! and parser, the in-place header mutators used by the send path, and the
//! capability trait a message type must offer to travel through the engine.

use vstd::prelude::*;

verus! {

/// Number of bytes in the wire header: a 4-byte id, an 8-byte slot and an
/// 8-byte generation, all big-endian.
pub const HEADER_LEN: usize = 20;

/// Wire header of every datagram.
///
/// `slot > 0` marks reliable data tracked in slot `slot - 1`; `slot == 0`
/// marks unreliable data; `slot < 0` marks an acknowledgment for slot
/// `-slot - 1`. `generation` is the sender's monotonic (wrapping) counter.
#[derive(Clone, Copy, Debug, PartialEq, Eq, Structural)]
pub struct PacketHeader {
    pub id: u32,
    pub slot: i64,
    pub generation: i64,
}

/// Returned when a datagram or a payload cannot be parsed.
#[derive(Debug)]
pub struct DeserializeError(pub String);

/// Big-endian bytes of a `u32`.
pub open spec fn spec_u32_be(x: u32) -> Seq<u8> {
    seq![
        ((x >> 24) & 0xff) as u8,
        ((x >> 16) & 0xff) as u8,
        ((x >> 8) & 0xff) as u8,
        (x & 0xff) as u8,
    ]
}

/// The `u32` read back from four big-endian bytes.
pub open spec fn spec_u32_from_be(s: Seq<u8>) -> u32
    recommends
        s.len() == 4,
{
    (((s[0] as u32) << 24) | ((s[1] as u32) << 16) | ((s[2] as u32) << 8) | (s[3] as u32)) as u32
}

/// Big-endian bytes of a `u64`.
pub open spec fn spec_u64_be(x: u64) -> Seq<u8> {
    seq![
        ((x >> 56) & 0xff) as u8,
        ((x >> 48) & 0xff) as u8,
        ((x >> 40) & 0xff) as u8,
        ((x >> 32) & 0xff) as u8,
        ((x >> 24) & 0xff) as u8,
        ((x >> 16) & 0xff) as u8,
        ((x >> 8) & 0xff) as u8,
        (x & 0xff) as u8,
    ]
}

/// The `u64` read back from eight big-endian bytes.
pub open spec fn spec_u64_from_be(s: Seq<u8>) -> u64
    recommends
        s.len() == 8,
{
    (((s[0] as u64) << 56) | ((s[1] as u64) << 48) | ((s[2] as u64) << 40) | ((s[3] as u64) << 32)
        | ((s[4] as u64) << 24) | ((s[5] as u64) << 16) | ((s[6] as u64) << 8) | (s[7]
        as u64)) as u64
}

/// Signed 64-bit fields travel on the wire as their two's-complement image.
pub open spec fn spec_i64_wire(x: i64) -> u64 {
    x as u64
}

/// The bytes of a whole header: id, then slot, then generation.
pub open spec fn spec_header_bytes(h: PacketHeader) -> Seq<u8> {
    spec_u32_be(h.id) + spec_u64_be(spec_i64_wire(h.slot)) + spec_u64_be(
        spec_i64_wire(h.generation),
    )
}

/// The header parsed back from a datagram, `None` when the datagram is
/// shorter than a header.
pub open spec fn spec_parse_header(data: Seq<u8>) -> Option<PacketHeader> {
    if data.len() >= HEADER_LEN {
        Some(
            PacketHeader {
                id: spec_u32_from_be(data.subrange(0, 4)),
                slot: spec_u64_from_be(data.subrange(4, 12)) as i64,
                generation: spec_u64_from_be(data.subrange(12, 20)) as i64,
            },
        )
    } else {
        None
    }
}

pub proof fn lemma_u32_be_round_trip(x: u32)
    ensures
        spec_u32_from_be(spec_u32_be(x)) == x,
{
    let b0 = ((x >> 24) & 0xff) as u8;
    let b1 = ((x >> 16) & 0xff) as u8;
    let b2 = ((x >> 8) & 0xff) as u8;
    let b3 = (x & 0xff) as u8;
    assert((((b0 as u32) << 24) | ((b1 as u32) << 16) | ((b2 as u32) << 8) | (b3 as u32)) as u32
        == x) by (bit_vector)
        requires
            b0 == ((x >> 24) & 0xff) as u8,
            b1 == ((x >> 16) & 0xff) as u8,
            b2 == ((x >> 8) & 0xff) as u8,
            b3 == (x & 0xff) as u8,
    ;
}

pub proof fn lemma_u64_be_round_trip(x: u64)
    ensures
        spec_u64_from_be(spec_u64_be(x)) == x,
{
    let b0 = ((x >> 56) & 0xff) as u8;
    let b1 = ((x >> 48) & 0xff) as u8;
    let b2 = ((x >> 40) & 0xff) as u8;
    let b3 = ((x >> 32) & 0xff) as u8;
    let b4 = ((x >> 24) & 0xff) as u8;
    let b5 = ((x >> 16) & 0xff) as u8;
    let b6 = ((x >> 8) & 0xff) as u8;
    let b7 = (x & 0xff) as u8;
    assert((((b0 as u64) << 56) | ((b1 as u64) << 48) | ((b2 as u64) << 40) | ((b3 as u64) << 32)
        | ((b4 as u64) << 24) | ((b5 as u64) << 16) | ((b6 as u64) << 8) | (b7 as u64)) as u64
        == x) by (bit_vector)
        requires
            b0 == ((x >> 56) & 0xff) as u8,
            b1 == ((x >> 48) & 0xff) as u8,
            b2 == ((x >> 40) & 0xff) as u8,
            b3 == ((x >> 32) & 0xff) as u8,
            b4 == ((x >> 24) & 0xff) as u8,
            b5 == ((x >> 16) & 0xff) as u8,
            b6 == ((x >> 8) & 0xff) as u8,
            b7 == (x & 0xff) as u8,
    ;
}

proof fn lemma_i64_wire_round_trip(x: i64)
    ensures
        spec_i64_wire(x) as i64 == x,
{
    assert((x as u64) as i64 == x) by (bit_vector);
}

/// Append the big-endian bytes of `x` to `out`.
pub fn push_u32_be(out: &mut Vec<u8>, x: u32)
    ensures
        final(out)@ == old(out)@ + spec_u32_be(x),
{
    proof {
        assert((x >> 24) & 0xff < 256 && (x >> 16) & 0xff < 256 && (x >> 8) & 0xff < 256 && x
            & 0xff < 256) by (bit_vector);
    }
    out.push(((x >> 24) & 0xff) as u8);
    out.push(((x >> 16) & 0xff) as u8);
    out.push(((x >> 8) & 0xff) as u8);
    out.push((x & 0xff) as u8);
    assert(out@ =~= old(out)@ + spec_u32_be(x));
}

/// Append the big-endian bytes of `x` to `out`.
pub fn push_u64_be(out: &mut Vec<u8>, x: u64)
    ensures
        final(out)@ == old(out)@ + spec_u64_be(x),
{
    proof {
        assert((x >> 56) & 0xff < 256 && (x >> 48) & 0xff < 256 && (x >> 40) & 0xff < 256 && (x
            >> 32) & 0xff < 256 && (x >> 24) & 0xff < 256 && (x >> 16) & 0xff < 256 && (x >> 8)
            & 0xff < 256 && x & 0xff < 256) by (bit_vector);
    }
    out.push(((x >> 56) & 0xff) as u8);
    out.push(((x >> 48) & 0xff) as u8);
    out.push(((x >> 40) & 0xff) as u8);
    out.push(((x >> 32) & 0xff) as u8);
    out.push(((x >> 24) & 0xff) as u8);
    out.push(((x >> 16) & 0xff) as u8);
    out.push(((x >> 8) & 0xff) as u8);
    out.push((x & 0xff) as u8);
    assert(out@ =~= old(out)@ + spec_u64_be(x));
}

/// Read a big-endian `u32` from `data` at `start`.
pub fn read_u32_be(data: &[u8], start: usize) -> (r: u32)
    requires
        start + 4 <= data@.len(),
    ensures
        r == spec_u32_from_be(data@.subrange(start as int, start + 4)),
{
    let r = ((data[start] as u32) << 24) | ((data[start + 1] as u32) << 16) | ((data[start + 2]
        as u32) << 8) | (data[start + 3] as u32);
    proof {
        let s = data@.subrange(start as int, start + 4);
        assert(s[0] == data@[start as int] && s[1] == data@[start + 1] && s[2] == data@[start + 2]
            && s[3] == data@[start + 3]);
        let x0 = s[0] as u32;
        let x1 = s[1] as u32;
        let x2 = s[2] as u32;
        let x3 = s[3] as u32;
        assert(((x0 << 24) | (x1 << 16) | (x2 << 8) | x3) as u32 == (x0 << 24) | (x1 << 16) | (x2
            << 8) | x3) by (bit_vector)
            requires
                x0 < 256 && x1 < 256 && x2 < 256 && x3 < 256,
        ;
    }
    r
}

/// Read a big-endian `u64` from `data` at `start`.
pub fn read_u64_be(data: &[u8], start: usize) -> (r: u64)
    requires
        start + 8 <= data@.len(),
    ensures
        r == spec_u64_from_be(data@.subrange(start as int, start + 8)),
{
    let r = ((data[start] as u64) << 56) | ((data[start + 1] as u64) << 48) | ((data[start + 2]
        as u64) << 40) | ((data[start + 3] as u64) << 32) | ((data[start + 4] as u64) << 24) | ((
    data[start + 5] as u64) << 16) | ((data[start + 6] as u64) << 8) | (data[start + 7] as u64);
    proof {
        let s = data@.subrange(start as int, start + 8);
        assert(s[0] == data@[start as int] && s[1] == data@[start + 1] && s[2] == data@[start + 2]
            && s[3] == data@[start + 3] && s[4] == data@[start + 4] && s[5] == data@[start + 5]
            && s[6] == data@[start + 6] && s[7] == data@[start + 7]);
        let x0 = s[0] as u64;
        let x1 = s[1] as u64;
        let x2 = s[2] as u64;
        let x3 = s[3] as u64;
        let x4 = s[4] as u64;
        let x5 = s[5] as u64;
        let x6 = s[6] as u64;
        let x7 = s[7] as u64;
        assert(((x0 << 56) | (x1 << 48) | (x2 << 40) | (x3 << 32) | (x4 << 24) | (x5 << 16) | (x6
            << 8) | x7) as u64 == (x0 << 56) | (x1 << 48) | (x2 << 40) | (x3 << 32) | (x4 << 24)
            | (x5 << 16) | (x6 << 8) | x7) by (bit_vector)
            requires
                x0 < 256 && x1 < 256 && x2 < 256 && x3 < 256 && x4 < 256 && x5 < 256 && x6 < 256
                    && x7 < 256,
        ;
    }
    r
}

impl PacketHeader {
    pub fn new(id: u32, slot: i64, generation: i64) -> (r: Self)
        ensures
            r == (PacketHeader { id, slot, generation }),
    {
        PacketHeader { id, slot, generation }
    }

    /// Frame this header as bytes, ready to receive a payload behind it.
    pub fn serialize(&self) -> (r: Vec<u8>)
        ensures
            r@ == spec_header_bytes(*self),
            r@.len() == HEADER_LEN,
    {
        let mut result: Vec<u8> = Vec::with_capacity(HEADER_LEN);
        push_u32_be(&mut result, self.id);
        push_u64_be(&mut result, self.slot as u64);
        push_u64_be(&mut result, self.generation as u64);
        result
    }

    /// Parse the header off the front of a datagram; the rest is the payload.
    pub fn deserialize(data: &[u8]) -> (r: Result<(Self, &[u8]), DeserializeError>)
        ensures
            match r {
                Ok((h, payload)) => {
                    &&& spec_parse_header(data@) == Some(h)
                    &&& payload@ == data@.subrange(HEADER_LEN as int, data@.len() as int)
                },
                Err(_) => spec_parse_header(data@) is None,
            },
    {
        if data.len() < HEADER_LEN {
            return Err(DeserializeError(String::from_str("data shorter than header length")));
        }
        let id = read_u32_be(data, 0);
        let slot = read_u64_be(data, 4) as i64;
        let generation = read_u64_be(data, 12) as i64;
        let payload = vstd::slice::slice_subrange(data, HEADER_LEN, data.len());
        Ok((PacketHeader { id, slot, generation }, payload))
    }
}

/// Overwrite the four bytes at `start` with the big-endian bytes of `x`.
fn set_u32_be(data: &mut Vec<u8>, start: usize, x: u32)
    requires
        start + 4 <= old(data)@.len(),
    ensures
        final(data)@.len() == old(data)@.len(),
        final(data)@.subrange(start as int, start + 4) == spec_u32_be(x),
        forall|i: int|
            0 <= i < old(data)@.len() && !(start <= i < start + 4) ==> final(data)@[i] == old(
                data,
            )@[i],
{
    proof {
        assert((x >> 24) & 0xff < 256 && (x >> 16) & 0xff < 256 && (x >> 8) & 0xff < 256 && x
            & 0xff < 256) by (bit_vector);
    }
    let len = data.len();
    data.set(start, ((x >> 24) & 0xff) as u8);
    data.set(start + 1, ((x >> 16) & 0xff) as u8);
    data.set(start + 2, ((x >> 8) & 0xff) as u8);
    data.set(start + 3, (x & 0xff) as u8);
    assert(data@.subrange(start as int, start + 4) =~= spec_u32_be(x));
}

/// Overwrite the eight bytes at `start` with the big-endian bytes of `x`.
fn set_u64_be(data: &mut Vec<u8>, start: usize, x: u64)
    requires
        start + 8 <= old(data)@.len(),
    ensures
        final(data)@.len() == old(data)@.len(),
        final(data)@.subrange(start as int, start + 8) == spec_u64_be(x),
        forall|i: int|
            0 <= i < old(data)@.len() && !(start <= i < start + 8) ==> final(data)@[i] == old(
                data,
            )@[i],
{
    proof {
        assert((x >> 56) & 0xff < 256 && (x >> 48) & 0xff < 256 && (x >> 40) & 0xff < 256 && (x
            >> 32) & 0xff < 256 && (x >> 24) & 0xff < 256 && (x >> 16) & 0xff < 256 && (x >> 8)
            & 0xff < 256 && x & 0xff < 256) by (bit_vector);
    }
    let len = data.len();
    data.set(start, ((x >> 56) & 0xff) as u8);
    data.set(start + 1, ((x >> 48) & 0xff) as u8);
    data.set(start + 2, ((x >> 40) & 0xff) as u8);
    data.set(start + 3, ((x >> 32) & 0xff) as u8);
    data.set(start + 4, ((x >> 24) & 0xff) as u8);
    data.set(start + 5, ((x >> 16) & 0xff) as u8);
    data.set(start + 6, ((x >> 8) & 0xff) as u8);
    data.set(start + 7, (x & 0xff) as u8);
    assert(data@.subrange(start as int, start + 8) =~= spec_u64_be(x));
}

/// Overwrite a framed buffer's whole header in place, keeping the payload.
/// The send path reuses one preallocated buffer this way when it emits many
/// acknowledgments.
pub fn modify_header(data: &mut Vec<u8>, id: u32, slot: i64, generation: i64)
    requires
        old(data)@.len() >= HEADER_LEN,
    ensures
        final(data)@.len() == old(data)@.len(),
        final(data)@ == spec_header_bytes(PacketHeader { id, slot, generation }) + old(
            data,
        )@.subrange(HEADER_LEN as int, old(data)@.len() as int),
{
    set_u32_be(data, 0, id);
    set_u64_be(data, 4, slot as u64);
    set_u64_be(data, 12, generation as u64);
    assert(data@ =~= spec_header_bytes(PacketHeader { id, slot, generation }) + old(
        data,
    )@.subrange(HEADER_LEN as int, old(data)@.len() as int));
}

/// Overwrite only the slot and generation fields of a framed buffer, as the
/// send path does when it stamps a queued packet into a slot or resends.
pub fn modify_slot(data: &mut Vec<u8>, slot: i64, generation: i64)
    requires
        old(data)@.len() >= HEADER_LEN,
    ensures
        final(data)@.len() == old(data)@.len(),
        final(data)@ == old(data)@.subrange(0, 4) + spec_u64_be(spec_i64_wire(slot)) + spec_u64_be(
            spec_i64_wire(generation),
        ) + old(data)@.subrange(HEADER_LEN as int, old(data)@.len() as int),
{
    set_u64_be(data, 4, slot as u64);
    set_u64_be(data, 12, generation as u64);
    assert(data@ =~= old(data)@.subrange(0, 4) + spec_u64_be(spec_i64_wire(slot)) + spec_u64_be(
        spec_i64_wire(generation),
    ) + old(data)@.subrange(HEADER_LEN as int, old(data)@.len() as int));
}

/// Round trip of the header framing: parsing a serialized header, with any
/// payload behind it, yields the header back and leaves the payload.
pub proof fn lemma_header_round_trip(h: PacketHeader, payload: Seq<u8>)
    ensures
        spec_parse_header(spec_header_bytes(h) + payload) == Some(h),
        (spec_header_bytes(h) + payload).subrange(
            HEADER_LEN as int,
            spec_header_bytes(h).len() + payload.len() as int,
        ) == payload,
{
    let bytes = spec_header_bytes(h) + payload;
    assert(bytes.subrange(0, 4) =~= spec_u32_be(h.id));
    assert(bytes.subrange(4, 12) =~= spec_u64_be(spec_i64_wire(h.slot)));
    assert(bytes.subrange(12, 20) =~= spec_u64_be(spec_i64_wire(h.generation)));
    lemma_u32_be_round_trip(h.id);
    lemma_u64_be_round_trip(spec_i64_wire(h.slot));
    lemma_u64_be_round_trip(spec_i64_wire(h.generation));
    lemma_i64_wire_round_trip(h.slot);
    lemma_i64_wire_round_trip(h.generation);
    assert(bytes.subrange(HEADER_LEN as int, bytes.len() as int) =~= payload);
}

/// The full frame of a message: its header, then its payload bytes.
pub open spec fn spec_frame<T: PacketDesc>(m: T, slot: i64, generation: i64) -> Seq<u8> {
    spec_header_bytes(PacketHeader { id: m.spec_id(), slot, generation }) + m.spec_payload()
}

/// Wire fidelity of the send path's framing: parsing a frame built for a
/// message yields exactly the header the message was stamped with, and the
/// bytes behind the header are exactly the message's own payload. Nothing
/// a sender frames can be mistaken for another slot, generation or kind.
pub proof fn lemma_frame_fidelity<T: PacketDesc>(m: T, slot: i64, generation: i64)
    ensures
        spec_parse_header(spec_frame(m, slot, generation)) == Some(
            PacketHeader { id: m.spec_id(), slot, generation },
        ),
        spec_frame(m, slot, generation).subrange(
            HEADER_LEN as int,
            spec_frame(m, slot, generation).len() as int,
        ) == m.spec_payload(),
{
    lemma_header_round_trip(PacketHeader { id: m.spec_id(), slot, generation }, m.spec_payload());
}

/// Capability interface of a user message type: a numeric tag per variant,
/// a payload codec, and the per-message reliability and per-kind ordering
/// choices. A hand-written implementation must tie each executable method
/// to the spec-level description, which makes the engine's filtering and
/// framing contracts exact for every conforming type.
pub trait PacketDesc: Sized {
    /// Tag of this value's variant.
    spec fn spec_id(&self) -> u32;

    /// Whether this particular value must be acknowledged and retransmitted.
    spec fn spec_reliable(&self) -> bool;

    /// Whether stale instances of the variant tagged `id` are discarded.
    spec fn spec_ordered(id: u32) -> bool;

    /// The payload bytes this value serializes to, behind the header.
    spec fn spec_payload(&self) -> Seq<u8>;

    /// The value parsed back from a tag and payload bytes, if any.
    spec fn spec_parse(id: u32, data: Seq<u8>) -> Option<Self>;

    /// Return the ID for the message, for checking message order.
    fn id(&self) -> (r: u32)
        ensures
            r == self.spec_id(),
    ;

    /// Return whether the message is treated as reliable. Reliable packets
    /// are resent until an acknowledgment arrives on time.
    fn reliable(&self) -> (r: bool)
        ensures
            r == self.spec_reliable(),
    ;

    /// Return whether messages with this ID are treated as ordered. Stale
    /// ordered messages are discarded on receipt.
    fn ordered(id: u32) -> (r: bool)
        ensures
            r == Self::spec_ordered(id),
    ;

    /// Append the message payload to the writer, which already holds the
    /// frame header.
    fn serialize(&self, writer: &mut Vec<u8>)
        ensures
            final(writer)@ == old(writer)@ + self.spec_payload(),
    ;

    /// Parse a payload given the tag; inverse of `serialize` for the bytes
    /// behind the header.
    fn deserialize(id: u32, data: &[u8]) -> (r: Result<Self, DeserializeError>)
        ensures
            match r {
                Ok(v) => Self::spec_parse(id, data@) == Some(v),
                Err(_) => Self::spec_parse(id, data@) is None,
            },
    ;
}

} // verus!

