//! A ready-made message type for the engine: a ping/pong pair with a
//! per-value reliability flag, as a host measuring round trips would use.
//! Its hand-written codec shows what any `PacketDesc` implementation must
//! provide; a generated one is equally valid as long as both peers agree.

use crate::protocol::push_u64_be;
use crate::protocol::read_u64_be;
use crate::protocol::spec_u64_be;
use crate::protocol::spec_u64_from_be;
use crate::protocol::DeserializeError;
use crate::protocol::PacketDesc;
use vstd::prelude::*;

verus! {

/// A probe and its answer. The first field chooses reliability for that
/// value; the second and third carry a sequence number and a timestamp.
/// Answers are an ordered kind: only the newest one matters, so a stale
/// `Pong` is discarded on receipt, while every `Ping` counts.
#[derive(Clone, Copy, Debug, PartialEq, Eq, Structural)]
pub enum Packet {
    Ping(bool, u64, u64),
    Pong(bool, u64, u64),
}

/// Payload length of every `Packet` variant: one flag byte and two 64-bit
/// fields.
pub const PACKET_PAYLOAD_LEN: usize = 17;

impl PacketDesc for Packet {
    open spec fn spec_id(&self) -> u32 {
        match *self {
            Packet::Ping(_, _, _) => 0,
            Packet::Pong(_, _, _) => 1,
        }
    }

    open spec fn spec_reliable(&self) -> bool {
        match *self {
            Packet::Ping(a, _, _) => a,
            Packet::Pong(a, _, _) => a,
        }
    }

    open spec fn spec_ordered(id: u32) -> bool {
        id == 1
    }

    open spec fn spec_payload(&self) -> Seq<u8> {
        match *self {
            Packet::Ping(a, b, c) => seq![
                if a {
                    1u8
                } else {
                    0u8
                },
            ] + spec_u64_be(b) + spec_u64_be(c),
            Packet::Pong(a, b, c) => seq![
                if a {
                    1u8
                } else {
                    0u8
                },
            ] + spec_u64_be(b) + spec_u64_be(c),
        }
    }

    open spec fn spec_parse(id: u32, data: Seq<u8>) -> Option<Packet> {
        if data.len() >= PACKET_PAYLOAD_LEN {
            let a = data[0] == 1u8;
            let b = spec_u64_from_be(data.subrange(1, 9));
            let c = spec_u64_from_be(data.subrange(9, 17));
            if id == 0 {
                Some(Packet::Ping(a, b, c))
            } else if id == 1 {
                Some(Packet::Pong(a, b, c))
            } else {
                None
            }
        } else {
            None
        }
    }

    fn id(&self) -> (r: u32) {
        match *self {
            Packet::Ping(_, _, _) => 0,
            Packet::Pong(_, _, _) => 1,
        }
    }

    fn reliable(&self) -> (r: bool) {
        match *self {
            Packet::Ping(a, _, _) => a,
            Packet::Pong(a, _, _) => a,
        }
    }

    fn ordered(id: u32) -> (r: bool) {
        id == 1
    }

    fn serialize(&self, writer: &mut Vec<u8>) {
        let (a, b, c) = match *self {
            Packet::Ping(a, b, c) => (a, b, c),
            Packet::Pong(a, b, c) => (a, b, c),
        };
        writer.push(if a {
            1
        } else {
            0
        });
        push_u64_be(writer, b);
        push_u64_be(writer, c);
        assert(writer@ =~= old(writer)@ + self.spec_payload());
    }

    fn deserialize(id: u32, data: &[u8]) -> (r: Result<Packet, DeserializeError>) {
        if data.len() < PACKET_PAYLOAD_LEN {
            return Err(DeserializeError(String::from_str("payload shorter than a packet")));
        }
        let a = data[0] == 1;
        let b = read_u64_be(data, 1);
        let c = read_u64_be(data, 9);
        if id == 0 {
            Ok(Packet::Ping(a, b, c))
        } else if id == 1 {
            Ok(Packet::Pong(a, b, c))
        } else {
            Err(DeserializeError(String::from_str("invalid packet id")))
        }
    }
}

/// Round trip of the packet codec: parsing a serialized payload under the
/// value's own id yields the value back, so an echo carries it unchanged.
pub proof fn lemma_packet_round_trip(p: Packet)
    ensures
        Packet::spec_parse(p.spec_id(), p.spec_payload()) == Some(p),
{
    let payload = p.spec_payload();
    match p {
        Packet::Ping(a, b, c) => {
            assert(payload.subrange(1, 9) =~= spec_u64_be(b));
            assert(payload.subrange(9, 17) =~= spec_u64_be(c));
            crate::protocol::lemma_u64_be_round_trip(b);
            crate::protocol::lemma_u64_be_round_trip(c);
        },
        Packet::Pong(a, b, c) => {
            assert(payload.subrange(1, 9) =~= spec_u64_be(b));
            assert(payload.subrange(9, 17) =~= spec_u64_be(c));
            crate::protocol::lemma_u64_be_round_trip(b);
            crate::protocol::lemma_u64_be_round_trip(c);
        },
    }
}

} // verus!
