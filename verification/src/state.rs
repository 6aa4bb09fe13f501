//! Shared state of the server: the realm directory and the client pool.

pub mod client;
pub mod realm;

pub use self::client::{
    Client, ClientHandle, ClientId, ClientListener, ClientNotice, ClientPool, IpAddress, Ipv4,
    Ipv4Socket, SocketAddress,
};
pub use self::realm::{RealmServer, RealmServerId, RealmServerList, RealmServerListError, RealmView};
