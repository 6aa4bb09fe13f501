//! Building the settings of a server step by step.

use crate::config::ConnectConfig;
use crate::state::client::{IpAddress, Ipv4Socket};
use vstd::prelude::*;

verus! {

/// Builds the settings of a server from the address of its client listener
/// and the address of its realm listener.
#[derive(Debug, Clone, PartialEq, Eq)]
pub struct ServerBuilder {
    socket: Ipv4Socket,
    rpc_host: String,
    rpc_port: u16,
}

impl ServerBuilder {
    pub closed spec fn spec_socket(&self) -> Ipv4Socket {
        self.socket
    }

    pub closed spec fn rpc_host(&self) -> Seq<char> {
        self.rpc_host@
    }

    pub closed spec fn rpc_port(&self) -> u16 {
        self.rpc_port
    }

    /// Sets the address of the client listener.
    pub fn socket(self, socket: Ipv4Socket) -> (builder: Self)
        ensures
            builder.spec_socket() == socket,
            builder.rpc_host() == self.rpc_host(),
            builder.rpc_port() == self.rpc_port(),
    {
        let mut builder = self;
        builder.socket = socket;
        builder
    }

    /// Sets the address of the realm listener.
    pub fn rpc(self, host: String, port: u16) -> (builder: Self)
        ensures
            builder.spec_socket() == self.spec_socket(),
            builder.rpc_host() == host@,
            builder.rpc_port() == port,
    {
        let mut builder = self;
        builder.rpc_host = host;
        builder.rpc_port = port;
        builder
    }

    /// The settings that were built: the two addresses as they were set,
    /// and everything else as a server has it that is told nothing.
    pub fn config(self) -> (config: ConnectConfig)
        ensures
            config.host == IpAddress::V4(self.spec_socket().ip),
            config.port == self.spec_socket().port,
            config.rpc_host@ == self.rpc_host(),
            config.rpc_port == self.rpc_port(),
            config.max_idle_time == ConnectConfig::default_limits().max_idle_time,
            config.max_unresponsive_time == ConnectConfig::default_limits().max_unresponsive_time,
            config.max_packet_size == ConnectConfig::default_limits().max_packet_size,
            config.max_requests == ConnectConfig::default_limits().max_requests,
            config.max_connections == ConnectConfig::default_limits().max_connections,
            config.max_connections_per_ip == ConnectConfig::default_limits().max_connections_per_ip,
            config.ignore_unknown_packets == ConnectConfig::default_limits().ignore_unknown_packets,
    {
        let mut config = ConnectConfig::default();
        config.host = IpAddress::V4(self.socket.ip);
        config.port = self.socket.port;
        config.rpc_host = self.rpc_host;
        config.rpc_port = self.rpc_port;
        config
    }
}

impl Default for ServerBuilder {
    /// A builder that is told nothing: both listeners are for every
    /// address, on ports that the system picks.
    fn default() -> (builder: Self)
        ensures
            builder.spec_socket() == (Ipv4Socket { ip: 0, port: 0 }),
            builder.rpc_host() == "0.0.0.0"@,
            builder.rpc_port() == 0,
    {
        ServerBuilder {
            socket: Ipv4Socket::new(0, 0),
            rpc_host: "0.0.0.0".to_owned(),
            rpc_port: 0,
        }
    }
}

} // verus!
