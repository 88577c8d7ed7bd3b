//! Plain data a host built on this engine keeps: which side of the match it
//! plays, its user-interface state, the players' names, the paddle roles,
//! and what to do when a peer disconnects. The windowing and entity
//! frameworks that drive these states stay with the host; the engine only
//! defines the data so both halves of a program speak the same language.

use vstd::prelude::*;

verus! {

/// Which half of the match this process plays. `Unsure` exists only as the
/// default, for the moment before the host has chosen a role.
#[derive(Clone, Copy, Debug, PartialEq, Eq, Structural)]
pub enum Side {
    Server,
    Client,
    Unsure,
}

impl Default for Side {
    fn default() -> (r: Self)
        ensures
            r == Side::Unsure,
    {
        Side::Unsure
    }
}

impl Side {
    pub fn is_client(&self) -> (r: bool)
        ensures
            r == (*self == Side::Client),
    {
        match *self {
            Side::Client => true,
            _ => false,
        }
    }

    pub fn is_server(&self) -> (r: bool)
        ensures
            r == (*self == Side::Server),
    {
        match *self {
            Side::Server => true,
            _ => false,
        }
    }
}

/// What the host does when the peer goes away: end the session, or wait
/// for a new peer.
#[derive(Clone, Copy, Debug, PartialEq, Eq, Structural)]
pub enum DisconnectAction {
    End,
    WaitNew,
}

/// Whether the host is still in menus or playing.
#[derive(Clone, Copy, Debug, PartialEq, Eq, Structural)]
pub enum CurrentState {
    Ui,
    InGame,
}

impl Default for CurrentState {
    fn default() -> (r: Self)
        ensures
            r == CurrentState::Ui,
    {
        CurrentState::Ui
    }
}

/// Whose paddle an entity is: this player's own, or the opponent's.
#[derive(Clone, Copy, Debug, PartialEq, Eq, Structural)]
pub enum Role {
    Own,
    Hostile,
}

/// The two players' names, each known once its side has introduced itself.
#[derive(Default)]
pub struct PlayerNameResource {
    pub(crate) my_name: Option<String>,
    pub(crate) rival_name: Option<String>,
}

impl PlayerNameResource {
    /// This player's name, if entered yet.
    pub closed spec fn spec_my_name(&self) -> Option<String> {
        self.my_name
    }

    /// The opponent's name, if their handshake has arrived yet.
    pub closed spec fn spec_rival_name(&self) -> Option<String> {
        self.rival_name
    }

    pub fn new(my_name: Option<String>, rival_name: Option<String>) -> (r: Self)
        ensures
            r.spec_my_name() == my_name,
            r.spec_rival_name() == rival_name,
    {
        Self { my_name, rival_name }
    }
}

/// Marker for the state in which the client knows the server's address and
/// is establishing the connection.
pub struct ClientConnect;

/// Marker for the state in which the client's rendezvous is under way.
pub struct ClientConnecting;

/// Marker for the state in which the server listens for the first client.
pub struct ServerWait;

} // verus!
