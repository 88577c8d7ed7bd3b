//! A reliable-datagram protocol engine layered over an unreliable,
//! connected datagram socket.
//!
//! The engine frames each message with a fixed 20-byte big-endian header
//! (`protocol`), tracks outstanding reliable packets in a bounded slot
//! table (`slot_table`), and drives delivery with two cooperating state
//! machines: the sender side (`sender`) accepts submissions, frames and
//! retransmits packets, and the receiver side (`receiver`) deduplicates,
//! orders, acknowledges and routes inbound datagrams. The host owns the
//! socket and the task loop; every decision the loops make is a function
//! in this crate, from plain state and event to next state and action.

pub mod hand_shake;
pub mod host;
pub mod packet;
pub mod protocol;
pub mod receiver;
pub mod sender;
pub mod slot_table;

pub use protocol::DeserializeError;
pub use protocol::PacketDesc;
pub use receiver::BypassResult;
