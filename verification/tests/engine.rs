use rudp::protocol::PacketDesc;
use rudp::packet::Packet;
use rudp::protocol::PacketHeader;
use rudp::receiver::drop_decision;
use rudp::receiver::is_new;
use rudp::receiver::should_drop;
use rudp::receiver::BypassResult;
use rudp::receiver::Receiver;
use rudp::sender::Sender;
use rudp::slot_table::SlotTable;

struct Peer {
    sender: Sender<Packet>,
    slots: SlotTable,
    receiver: Receiver,
}

impl Peer {
    fn new(capacity: usize, timeout: u64, max_retry: u32) -> Peer {
        let (sender, slots) = Sender::new(timeout, capacity, max_retry);
        Peer { sender, slots, receiver: Receiver::new(capacity) }
    }

    /// Submit one message at instant `now`; every frame that goes out lands
    /// on `wire`.
    fn submit(&mut self, p: Packet, now: u64, wire: &mut Vec<Vec<u8>>) {
        if let Some(unreliable) = self.sender.queue(p) {
            let mut buf = Vec::new();
            self.sender.prepare_unreliable(&mut buf, &unreliable);
            wire.push(buf);
        }
        while let Some(slot) = self.sender.fill_one(&mut self.slots, now) {
            wire.push(self.sender.buffer_bytes(slot).clone());
        }
    }

    /// Feed one datagram to the receive path; acknowledgments and re-injected
    /// frames go out on `wire_back`, accepted user messages on `delivered`.
    fn receive<F: Fn(Packet) -> BypassResult<Packet>>(
        &mut self,
        datagram: &[u8],
        bypass: &F,
        now: u64,
        wire_back: &mut Vec<Vec<u8>>,
        delivered: &mut Vec<Packet>,
    ) {
        let out = self.receiver.handle_datagram(&mut self.slots, datagram, bypass);
        if let Some((id, slot, generation)) = out.ack_request {
            wire_back.push(PacketHeader::new(id, slot, generation).serialize());
        }
        match out.routed {
            Some(BypassResult::ToUser(p)) => delivered.push(p),
            Some(BypassResult::ToSender(p)) => self.submit(p, now, wire_back),
            Some(BypassResult::Discard) => {}
            None => {}
        }
    }
}

fn to_user(p: Packet) -> BypassResult<Packet> {
    BypassResult::ToUser(p)
}

#[test]
fn reliable_echo_in_order() {
    // ten reliable submissions, capacity ten: the peer delivers all of
    // them, exactly once, in submission order
    let mut a = Peer::new(10, 20, 10);
    let mut b = Peer::new(10, 20, 10);
    let mut wire: Vec<Vec<u8>> = Vec::new();
    for i in 0..10u64 {
        a.submit(Packet::Ping(true, i, 100 + i), 0, &mut wire);
    }
    assert_eq!(wire.len(), 10);
    let mut acks: Vec<Vec<u8>> = Vec::new();
    let mut delivered: Vec<Packet> = Vec::new();
    for d in &wire {
        b.receive(d, &to_user, 0, &mut acks, &mut delivered);
    }
    let expected: Vec<Packet> = (0..10u64).map(|i| Packet::Ping(true, i, 100 + i)).collect();
    assert_eq!(delivered, expected);
    assert_eq!(acks.len(), 10);
    // the acknowledgments free every slot on the sender
    let mut nothing: Vec<Vec<u8>> = Vec::new();
    let mut none_delivered: Vec<Packet> = Vec::new();
    for d in &acks {
        a.receive(d, &to_user, 0, &mut nothing, &mut none_delivered);
    }
    assert!(nothing.is_empty());
    assert!(none_delivered.is_empty());
    for i in 0..10 {
        assert!(!a.slots.is_used(i));
    }
    assert_eq!(a.sender.queue_len(), 0);
}

#[test]
fn duplicate_delivered_once_but_acked_twice() {
    // a retransmission that arrives twice is delivered once; every copy is
    // still acknowledged
    let mut a = Peer::new(10, 20, 10);
    let mut b = Peer::new(10, 20, 10);
    let mut wire: Vec<Vec<u8>> = Vec::new();
    a.submit(Packet::Ping(true, 7, 9), 0, &mut wire);
    assert_eq!(wire.len(), 1);

    // the first transmission's acknowledgment is dropped; the packet times
    // out and is retransmitted with the same bytes
    let resent = a.sender.resend(&a.slots, 25).expect("deadline has passed");
    assert_eq!(a.sender.buffer_bytes(resent).as_slice(), wire[0].as_slice());
    // no second resend before another timeout
    assert!(a.sender.resend(&a.slots, 30).is_none());

    let mut acks: Vec<Vec<u8>> = Vec::new();
    let mut delivered: Vec<Packet> = Vec::new();
    b.receive(&wire[0], &to_user, 0, &mut acks, &mut delivered);
    b.receive(&wire[0], &to_user, 0, &mut acks, &mut delivered);
    assert_eq!(delivered, vec![Packet::Ping(true, 7, 9)]);
    assert_eq!(acks.len(), 2);
}

#[test]
fn unreliable_ordered_filters_reordering() {
    // five unreliable messages of one ordered kind, delivered with pairs
    // swapped: only a strictly increasing subsequence comes through
    let mut a = Peer::new(10, 20, 10);
    let mut b = Peer::new(10, 20, 10);
    let mut wire: Vec<Vec<u8>> = Vec::new();
    for k in 0..5u64 {
        a.submit(Packet::Pong(false, k, k), 0, &mut wire);
    }
    assert_eq!(wire.len(), 5);
    let reordered = [1usize, 0, 3, 2, 4];
    let mut acks: Vec<Vec<u8>> = Vec::new();
    let mut delivered: Vec<Packet> = Vec::new();
    for &k in &reordered {
        b.receive(&wire[k], &to_user, 0, &mut acks, &mut delivered);
    }
    assert!(acks.is_empty());
    assert_eq!(
        delivered,
        vec![Packet::Pong(false, 1, 1), Packet::Pong(false, 3, 3), Packet::Pong(false, 4, 4)]
    );
}

fn ping_pong_bypass(p: Packet) -> BypassResult<Packet> {
    match p {
        Packet::Ping(_, x, y) => BypassResult::ToSender(Packet::Pong(true, x, y)),
        Packet::Pong(_, _, _) => BypassResult::Discard,
    }
}

#[test]
fn bypass_ping_pong_keeps_user_streams_empty() {
    // pings are answered by the bypass hook on the peer and the answers are
    // discarded by the bypass hook at home: no user stream sees any of it
    let mut a = Peer::new(10, 20, 10);
    let mut b = Peer::new(10, 20, 10);
    let mut wire_ab: Vec<Vec<u8>> = Vec::new();
    for i in 0..3u64 {
        a.submit(Packet::Ping(true, i, i), 0, &mut wire_ab);
    }
    let mut wire_ba: Vec<Vec<u8>> = Vec::new();
    let mut delivered_b: Vec<Packet> = Vec::new();
    for d in &wire_ab {
        b.receive(d, &ping_pong_bypass, 0, &mut wire_ba, &mut delivered_b);
    }
    assert!(delivered_b.is_empty());
    // three acknowledgments and three pongs travel back
    assert_eq!(wire_ba.len(), 6);
    let mut wire_ab2: Vec<Vec<u8>> = Vec::new();
    let mut delivered_a: Vec<Packet> = Vec::new();
    for d in &wire_ba {
        a.receive(d, &ping_pong_bypass, 0, &mut wire_ab2, &mut delivered_a);
    }
    assert!(delivered_a.is_empty());
    // the pongs were discarded, their acknowledgments still go out
    assert_eq!(wire_ab2.len(), 3);
    // the acknowledgments freed every slot on a's side
    for i in 0..10 {
        assert!(!a.slots.is_used(i));
    }
}

#[test]
fn slot_saturation_applies_back_pressure() {
    // capacity two and a silent peer: two packets are retransmitted, three
    // wait in submission order, and once acknowledgments flow all five
    // arrive in submission order
    let mut a = Peer::new(2, 20, 10);
    let mut b = Peer::new(2, 20, 10);
    let mut wire: Vec<Vec<u8>> = Vec::new();
    for i in 0..5u64 {
        a.submit(Packet::Ping(true, i, i), 0, &mut wire);
    }
    assert_eq!(wire.len(), 2);
    assert_eq!(a.sender.queue_len(), 3);
    assert!(a.slots.is_used(0) && a.slots.is_used(1));

    // both outstanding packets are retransmitted after the timeout, the
    // queued three are not
    let first = a.sender.resend(&a.slots, 25).expect("oldest slot expired");
    let second = a.sender.resend(&a.slots, 25).expect("second slot expired");
    assert_eq!((first, second), (0, 1));
    assert!(a.sender.resend(&a.slots, 25).is_none());
    assert_eq!(a.sender.queue_len(), 3);

    // the peer comes back: acknowledgments drain the queue two at a time
    let mut delivered: Vec<Packet> = Vec::new();
    let mut round = 0;
    while round < 5 {
        let mut acks: Vec<Vec<u8>> = Vec::new();
        for d in &wire {
            b.receive(d, &to_user, 0, &mut acks, &mut delivered);
        }
        wire = Vec::new();
        let mut unused: Vec<Packet> = Vec::new();
        for d in &acks {
            a.receive(d, &to_user, 0, &mut wire, &mut unused);
        }
        while let Some(slot) = a.sender.fill_one(&mut a.slots, 0) {
            wire.push(a.sender.buffer_bytes(slot).clone());
        }
        if wire.is_empty() {
            break;
        }
        round += 1;
    }
    let expected: Vec<Packet> = (0..5u64).map(|i| Packet::Ping(true, i, i)).collect();
    assert_eq!(delivered, expected);
    assert_eq!(a.sender.queue_len(), 0);
    assert!(!a.slots.is_used(0) && !a.slots.is_used(1));
}

#[test]
fn fatal_socket_stops_both_loops_within_max_retry() {
    // three consecutive failures with a retry limit of three end each loop
    let (mut sender, _slots) = Sender::<Packet>::new(20, 4, 3);
    assert!(sender.note_send_result(false));
    assert!(sender.note_send_result(false));
    assert!(!sender.note_send_result(false));

    let mut receiver = Receiver::new(4);
    assert!(receiver.note_recv_result(false, 3));
    assert!(receiver.note_recv_result(false, 3));
    assert!(!receiver.note_recv_result(false, 3));

    // a success in between resets the streak
    let (mut sender2, _slots2) = Sender::<Packet>::new(20, 4, 3);
    assert!(sender2.note_send_result(false));
    assert!(sender2.note_send_result(true));
    assert!(sender2.note_send_result(false));
    assert!(sender2.note_send_result(false));
    assert!(!sender2.note_send_result(false));
}

#[test]
fn ack_clears_only_matching_generation() {
    let mut table = SlotTable::new(3);
    table.put(1, 5);
    assert!(table.is_used(1));
    // wrong generation: ignored
    assert!(!table.clear(1, 4));
    assert!(table.is_used(1));
    // matching generation: cleared exactly once
    assert!(table.clear(1, 5));
    assert!(!table.is_used(1));
    assert!(!table.clear(1, 5));
}

#[test]
fn invalid_slots_are_dropped() {
    let mut b = Peer::new(2, 20, 10);
    let mut acks: Vec<Vec<u8>> = Vec::new();
    let mut delivered: Vec<Packet> = Vec::new();

    // reliable data naming a slot beyond the capacity: no ack, no delivery
    let mut frame = PacketHeader::new(0, 5, 0).serialize();
    Packet::Ping(true, 1, 1).serialize(&mut frame);
    b.receive(&frame, &to_user, 0, &mut acks, &mut delivered);
    assert!(acks.is_empty() && delivered.is_empty());

    // an acknowledgment naming a slot beyond the capacity is ignored
    let ack = PacketHeader::new(0, -5, 0).serialize();
    b.receive(&ack, &to_user, 0, &mut acks, &mut delivered);
    assert!(acks.is_empty() && delivered.is_empty());

    // a datagram shorter than a header is dropped
    b.receive(&[1, 2, 3], &to_user, 0, &mut acks, &mut delivered);
    assert!(acks.is_empty() && delivered.is_empty());
}

#[test]
fn bad_payload_is_acked_but_not_delivered() {
    let mut b = Peer::new(2, 20, 10);
    let mut acks: Vec<Vec<u8>> = Vec::new();
    let mut delivered: Vec<Packet> = Vec::new();
    let mut frame = PacketHeader::new(0, 1, 0).serialize();
    frame.push(1);  // far too short for a packet payload
    b.receive(&frame, &to_user, 0, &mut acks, &mut delivered);
    assert_eq!(acks.len(), 1);
    assert!(delivered.is_empty());
}

#[test]
fn wrapping_newness() {
    assert!(is_new(None, 0));
    assert!(is_new(None, i64::MIN));
    assert!(is_new(Some(&5), 6));
    assert!(!is_new(Some(&5), 5));
    assert!(!is_new(Some(&5), 4));
    // a fresh stamp is newer even across the counter's wraparound
    assert!(is_new(Some(&i64::MAX), i64::MIN));
    assert!(!is_new(Some(&i64::MIN), i64::MAX));
}

#[test]
fn drop_simulation_rule() {
    assert!(!drop_decision(5, 0));
    assert!(drop_decision(5, 10));
    assert!(!drop_decision(10, 10));
    assert!(drop_decision(205, 10));
    assert!(!drop_decision(99, 99));
    assert!(drop_decision(98, 99));
    for _ in 0..32 {
        assert!(!should_drop(0));
    }
}

#[test]
fn ordered_reliable_filtered_per_kind_too() {
    // an ordered reliable kind is deduplicated per slot and per kind: a
    // packet in a fresh slot still loses to a newer generation of its kind
    let mut a = Peer::new(4, 20, 10);
    let mut b = Peer::new(4, 20, 10);
    let mut wire: Vec<Vec<u8>> = Vec::new();
    a.submit(Packet::Pong(true, 0, 0), 0, &mut wire);
    a.submit(Packet::Pong(true, 1, 1), 0, &mut wire);
    assert_eq!(wire.len(), 2);
    let mut acks: Vec<Vec<u8>> = Vec::new();
    let mut delivered: Vec<Packet> = Vec::new();
    // the newer generation arrives first
    b.receive(&wire[1], &to_user, 0, &mut acks, &mut delivered);
    b.receive(&wire[0], &to_user, 0, &mut acks, &mut delivered);
    assert_eq!(delivered, vec![Packet::Pong(true, 1, 1)]);
    // the stale packet is still acknowledged, so the sender stops resending
    assert_eq!(acks.len(), 2);
    let mut unused: Vec<Vec<u8>> = Vec::new();
    let mut none_delivered: Vec<Packet> = Vec::new();
    for d in &acks {
        a.receive(d, &to_user, 0, &mut unused, &mut none_delivered);
    }
    assert!(!a.slots.is_used(0) && !a.slots.is_used(1));
}

#[test]
fn resend_skips_cleared_slots() {
    // after the older outstanding packet is acknowledged, the next timeout
    // retransmits the younger one
    let mut a = Peer::new(4, 20, 10);
    let mut wire: Vec<Vec<u8>> = Vec::new();
    a.submit(Packet::Ping(true, 0, 0), 0, &mut wire);
    a.submit(Packet::Ping(true, 1, 1), 5, &mut wire);
    // the peer acknowledges slot 0 (generation 0) only
    let ack = PacketHeader::new(0, -1, 0).serialize();
    let mut unused: Vec<Vec<u8>> = Vec::new();
    let mut none_delivered: Vec<Packet> = Vec::new();
    a.receive(&ack, &to_user, 5, &mut unused, &mut none_delivered);
    assert!(!a.slots.is_used(0) && a.slots.is_used(1));
    let resent = a.sender.resend(&a.slots, 30).expect("slot 1 expired");
    assert_eq!(resent, 1);
}
