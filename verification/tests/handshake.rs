use rudp::hand_shake::bytes_equal;
use rudp::hand_shake::client_handshake_step;
use rudp::hand_shake::datagram_is_magic;
use rudp::hand_shake::server_handshake_step;
use rudp::hand_shake::starts_with;
use rudp::hand_shake::ClientHandshake;
use rudp::hand_shake::ServerHandshake;

const MAGIC: &[u8] = b"MULTIPONG";

fn padded(payload: &[u8]) -> Vec<u8> {
    let mut buffer = vec![0u8; 2048];
    buffer[..payload.len()].copy_from_slice(payload);
    buffer
}

#[test]
fn byte_comparisons() {
    assert!(bytes_equal(b"MULTIPONG", MAGIC));
    assert!(!bytes_equal(b"MULTIPONG!", MAGIC));
    assert!(!bytes_equal(b"MULTIPONx", MAGIC));
    assert!(!bytes_equal(b"", MAGIC));
    assert!(starts_with(b"MULTIPONG and more", MAGIC));
    assert!(!starts_with(b"MULTIPxNG and more", MAGIC));
    assert!(datagram_is_magic(&padded(MAGIC), MAGIC.len(), MAGIC));
    assert!(!datagram_is_magic(&padded(MAGIC), MAGIC.len() + 1, MAGIC));
    assert!(!datagram_is_magic(&padded(b"MULTIPONx"), MAGIC.len(), MAGIC));
}

#[test]
fn server_rendezvous() {
    let buffer = padded(MAGIC);
    // noise before the magic is ignored
    let step = server_handshake_step(ServerHandshake::AwaitMagic, &padded(b"noise"), 5, MAGIC);
    assert_eq!(step.state, ServerHandshake::AwaitMagic);
    assert!(!step.connect && !step.send_magic);
    // the first magic datagram: connect to its sender and start confirming
    let step = server_handshake_step(ServerHandshake::AwaitMagic, &buffer, MAGIC.len(), MAGIC);
    assert_eq!(step.state, ServerHandshake::Confirm);
    assert!(step.connect && step.send_magic);
    // while the client keeps sending the magic, answer with the magic
    let step = server_handshake_step(ServerHandshake::Confirm, &buffer, MAGIC.len(), MAGIC);
    assert_eq!(step.state, ServerHandshake::Confirm);
    assert!(!step.connect && step.send_magic);
    // the first real datagram ends the exchange
    let step = server_handshake_step(ServerHandshake::Confirm, &padded(b"real traffic"), 12, MAGIC);
    assert_eq!(step.state, ServerHandshake::Established);
    assert!(!step.connect && !step.send_magic);
    let step = server_handshake_step(ServerHandshake::Established, &buffer, MAGIC.len(), MAGIC);
    assert_eq!(step.state, ServerHandshake::Established);
    assert!(!step.connect && !step.send_magic);
}

#[test]
fn client_rendezvous() {
    // a timed-out round probes again
    let (state, send) = client_handshake_step(ClientHandshake::Probing, false, b"", MAGIC);
    assert_eq!(state, ClientHandshake::Probing);
    assert!(send);
    // a reply that is not the magic probes again
    let (state, send) = client_handshake_step(ClientHandshake::Probing, true, b"WRONGPONG", MAGIC);
    assert_eq!(state, ClientHandshake::Probing);
    assert!(send);
    // the magic reply ends the exchange
    let (state, send) = client_handshake_step(ClientHandshake::Probing, true, MAGIC, MAGIC);
    assert_eq!(state, ClientHandshake::Established);
    assert!(!send);
    let (state, send) = client_handshake_step(ClientHandshake::Established, true, MAGIC, MAGIC);
    assert_eq!(state, ClientHandshake::Established);
    assert!(!send);
}
