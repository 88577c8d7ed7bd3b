//! Rendezvous on a shared magic byte string, which turns two unconnected
//! peers into a connected pair of datagram sockets. The sockets and the
//! timeouts stay with the host; this module holds the decisions: when a
//! datagram counts as the magic, what each side answers, and when the
//! exchange is over.

use vstd::prelude::*;

verus! {

/// Whole-slice equality of two byte strings.
pub fn bytes_equal(a: &[u8], b: &[u8]) -> (r: bool)
    ensures
        r == (a@ == b@),
{
    if a.len() != b.len() {
        proof {
            assert(a@.len() != b@.len());
        }
        return false;
    }
    let n = a.len();
    let mut i: usize = 0;
    while i < n
        invariant
            i <= n,
            n == a@.len(),
            n == b@.len(),
            forall|j: int| 0 <= j < i ==> a@[j] == b@[j],
        decreases n - i,
    {
        if a[i] != b[i] {
            return false;
        }
        i += 1;
    }
    proof {
        assert(a@ =~= b@);
    }
    true
}

/// Whether `buffer` begins with `prefix`.
pub fn starts_with(buffer: &[u8], prefix: &[u8]) -> (r: bool)
    requires
        prefix@.len() <= buffer@.len(),
    ensures
        r == (buffer@.subrange(0, prefix@.len() as int) == prefix@),
{
    let n = prefix.len();
    let mut i: usize = 0;
    while i < n
        invariant
            i <= n,
            n == prefix@.len(),
            n <= buffer@.len(),
            forall|j: int| 0 <= j < i ==> buffer@[j] == prefix@[j],
        decreases n - i,
    {
        if buffer[i] != prefix[i] {
            proof {
                assert(buffer@.subrange(0, n as int)[i as int] != prefix@[i as int]);
            }
            return false;
        }
        i += 1;
    }
    proof {
        assert(buffer@.subrange(0, n as int) =~= prefix@);
    }
    true
}

/// A freshly received datagram of `len` bytes in `buffer` is the magic:
/// it has exactly the magic's length and carries its bytes.
pub open spec fn spec_is_magic(data: Seq<u8>, len: int, magic: Seq<u8>) -> bool {
    &&& len == magic.len()
    &&& data.subrange(0, magic.len() as int) == magic
}

/// Whether one received datagram equals the magic.
pub fn datagram_is_magic(buffer: &[u8], len: usize, magic: &[u8]) -> (r: bool)
    requires
        magic@.len() <= buffer@.len(),
    ensures
        r == spec_is_magic(buffer@, len as int, magic@),
{
    len == magic.len() && starts_with(buffer, magic)
}

/// Where the listen side stands: still waiting for the first magic, echoing
/// the magic until real traffic begins, or done.
#[derive(Clone, Copy, Debug, PartialEq, Eq, Structural)]
pub enum ServerHandshake {
    AwaitMagic,
    Confirm,
    Established,
}

/// What the listen side must do after one datagram: the state it moves to,
/// whether it now connects its socket to the datagram's sender, and whether
/// it sends the magic back.
pub struct ServerStep {
    pub state: ServerHandshake,
    pub connect: bool,
    pub send_magic: bool,
}

/// One step of the listen-side rendezvous. The first datagram that equals
/// the magic names the peer: connect to its sender and start confirming.
/// While confirming, every datagram that still begins with the magic is
/// answered with the magic; the first that does not marks the start of real
/// traffic, and the exchange is over (that datagram itself is not consumed
/// by the engine: the reliable layer retransmits what matters).
pub fn server_handshake_step(
    state: ServerHandshake,
    buffer: &[u8],
    len: usize,
    magic: &[u8],
) -> (r: ServerStep)
    requires
        magic@.len() <= buffer@.len(),
    ensures
        match state {
            ServerHandshake::AwaitMagic => if spec_is_magic(buffer@, len as int, magic@) {
                r == (ServerStep {
                    state: ServerHandshake::Confirm,
                    connect: true,
                    send_magic: true,
                })
            } else {
                r == (ServerStep {
                    state: ServerHandshake::AwaitMagic,
                    connect: false,
                    send_magic: false,
                })
            },
            ServerHandshake::Confirm => if buffer@.subrange(0, magic@.len() as int) == magic@ {
                r == (ServerStep {
                    state: ServerHandshake::Confirm,
                    connect: false,
                    send_magic: true,
                })
            } else {
                r == (ServerStep {
                    state: ServerHandshake::Established,
                    connect: false,
                    send_magic: false,
                })
            },
            ServerHandshake::Established => r == (ServerStep {
                state: ServerHandshake::Established,
                connect: false,
                send_magic: false,
            }),
        },
{
    match state {
        ServerHandshake::AwaitMagic => {
            if datagram_is_magic(buffer, len, magic) {
                ServerStep { state: ServerHandshake::Confirm, connect: true, send_magic: true }
            } else {
                ServerStep { state: ServerHandshake::AwaitMagic, connect: false, send_magic: false }
            }
        },
        ServerHandshake::Confirm => {
            if starts_with(buffer, magic) {
                ServerStep { state: ServerHandshake::Confirm, connect: false, send_magic: true }
            } else {
                ServerStep {
                    state: ServerHandshake::Established,
                    connect: false,
                    send_magic: false,
                }
            }
        },
        ServerHandshake::Established => ServerStep {
            state: ServerHandshake::Established,
            connect: false,
            send_magic: false,
        },
    }
}

/// Where the connect side stands: still probing with the magic, or done.
#[derive(Clone, Copy, Debug, PartialEq, Eq, Structural)]
pub enum ClientHandshake {
    Probing,
    Established,
}

/// One step of the connect-side rendezvous, after one probe round: either a
/// reply arrived in `buffer`, or the round timed out (`got_reply` false).
/// The exchange is over exactly when a reply equals the magic; in every
/// other case the client sends the magic once more.
pub fn client_handshake_step(state: ClientHandshake, got_reply: bool, buffer: &[u8], magic: &[u8])
    -> (r: (ClientHandshake, bool))
    ensures
        match state {
            ClientHandshake::Probing => if got_reply && buffer@ == magic@ {
                r == (ClientHandshake::Established, false)
            } else {
                r == (ClientHandshake::Probing, true)
            },
            ClientHandshake::Established => r == (ClientHandshake::Established, false),
        },
{
    match state {
        ClientHandshake::Probing => {
            if got_reply && bytes_equal(buffer, magic) {
                (ClientHandshake::Established, false)
            } else {
                (ClientHandshake::Probing, true)
            }
        },
        ClientHandshake::Established => (ClientHandshake::Established, false),
    }
}

} // verus!
