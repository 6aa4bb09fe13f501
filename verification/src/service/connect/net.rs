//! Packets of the client plane, and what handles them: the responder, the
//! session handler and the listener.

pub mod handler;
pub mod listener;
pub mod responder;

pub use self::handler::ClientStreamHandler;
pub use self::listener::ClientListener;
pub use self::responder::ClientPacketResponder;

use crate::service::connect::error::Version;
use crate::state::realm::RealmServerId;
use vstd::prelude::*;

verus! {

/// A packet from a game client, as far as the server reads it.
#[derive(Debug, Clone, PartialEq, Eq)]
pub enum ClientPacket {
    /// The client announces the protocol version it speaks.
    ConnectServerRequest { version: Version },
    /// The client asks where to reach a realm.
    RealmConnectRequest { id: RealmServerId },
    /// The client asks for the realms and their load.
    RealmListRequest,
    /// Any other packet: its kind byte, its code byte, and its data.
    Other { kind: u8, code: u8, data: Vec<u8> },
}

/// The load of one realm: how many clients it holds, of how many it can hold.
#[derive(Debug, Clone, Copy, PartialEq, Eq, Structural)]
pub struct RealmLoad {
    pub id: RealmServerId,
    pub clients: u32,
    pub capacity: u32,
}

/// A packet from the server to a game client.
#[derive(Debug, Clone, PartialEq, Eq)]
pub enum ServerPacket {
    /// The client's version is the server's.
    ConnectServerResult,
    /// Where to reach a realm.
    RealmConnect { host: String, port: u16 },
    /// The realms and their load.
    RealmList(Vec<RealmLoad>),
}

} // verus!
