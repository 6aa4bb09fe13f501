//! The settings of the server.

use crate::service::connect::config::ConnectServiceConfig;
use crate::service::connect::net::handler::TimeSpan;
use crate::state::client::{IpAddress, SocketAddress};
use vstd::prelude::*;

verus! {

/// The settings of the server.
#[derive(Debug, Clone, PartialEq, Eq)]
pub struct ConnectConfig {
    /// Bind to this IP client address.
    pub host: IpAddress,
    /// Bind to this client listener port.
    pub port: u16,
    /// Maximum idle time until a client is disconnected.
    pub max_idle_time: TimeSpan,
    /// Maximum unresponsive time until a client is dropped.
    pub max_unresponsive_time: TimeSpan,
    /// Maximum packet size allowed from a client.
    pub max_packet_size: usize,
    /// Maximum requests allowed from a client.
    pub max_requests: usize,
    /// Maximum connections the server should handle.
    pub max_connections: u32,
    /// Maximum connections per IP.
    pub max_connections_per_ip: u32,
    /// Ignore unknown packets from a client instead of disconnecting.
    pub ignore_unknown_packets: bool,
    /// Bind to this RPC domain.
    pub rpc_host: String,
    /// Bind to this RPC listener port.
    pub rpc_port: u16,
}

/// The limits that the settings put on clients.
pub struct Limits {
    pub max_idle_time: TimeSpan,
    pub max_unresponsive_time: TimeSpan,
    pub max_packet_size: usize,
    pub max_requests: usize,
    pub max_connections: u32,
    pub max_connections_per_ip: u32,
    pub ignore_unknown_packets: bool,
}

impl ConnectConfig {
    /// The settings of a server that is told nothing: it listens for
    /// clients on port 2004 of every address; lets a client idle for 100
    /// seconds, take 60 seconds to read an answer, and send 20 packets of
    /// at most 6 bytes; holds 1000 clients, one from each address; fails on
    /// unknown packets; and listens for realms on a port that the system
    /// picks, on every address.
    pub open spec fn is_default(&self) -> bool {
        &&& self.host == IpAddress::V4(0)
        &&& self.port == 2004
        &&& self.max_idle_time == (TimeSpan { secs: 100, nanos: 0 })
        &&& self.max_unresponsive_time == (TimeSpan { secs: 60, nanos: 0 })
        &&& self.max_packet_size == 6
        &&& self.max_requests == 20
        &&& self.max_connections == 1000
        &&& self.max_connections_per_ip == 1
        &&& !self.ignore_unknown_packets
        &&& self.rpc_host@ == "0.0.0.0"@
        &&& self.rpc_port == 0
    }

    /// The limits of a server that is told nothing.
    pub open spec fn default_limits() -> Limits {
        Limits {
            max_idle_time: TimeSpan { secs: 100, nanos: 0 },
            max_unresponsive_time: TimeSpan { secs: 60, nanos: 0 },
            max_packet_size: 6,
            max_requests: 20,
            max_connections: 1000,
            max_connections_per_ip: 1,
            ignore_unknown_packets: false,
        }
    }

    /// The address of the client listener.
    pub fn socket(&self) -> (socket: SocketAddress)
        ensures
            socket == (SocketAddress { ip: self.host, port: self.port }),
    {
        SocketAddress::new(self.host, self.port)
    }
}

impl Default for ConnectConfig {
    fn default() -> (config: Self)
        ensures
            config.is_default(),
    {
        ConnectConfig {
            host: IpAddress::V4(0),
            port: 2004,
            max_idle_time: TimeSpan::from_secs(100),
            max_unresponsive_time: TimeSpan::from_secs(60),
            max_packet_size: 6,
            max_requests: 20,
            max_connections: 1000,
            max_connections_per_ip: 1,
            ignore_unknown_packets: false,
            rpc_host: "0.0.0.0".to_owned(),
            rpc_port: 0,
        }
    }
}

impl ConnectServiceConfig for ConnectConfig {
    fn host(&self) -> (host: IpAddress)
        ensures
            host == self.host,
    {
        self.host
    }

    fn port(&self) -> (port: u16)
        ensures
            port == self.port,
    {
        self.port
    }

    fn max_idle_time(&self) -> (span: TimeSpan)
        ensures
            span == self.max_idle_time,
    {
        self.max_idle_time
    }

    fn max_unresponsive_time(&self) -> (span: TimeSpan)
        ensures
            span == self.max_unresponsive_time,
    {
        self.max_unresponsive_time
    }

    fn max_packet_size(&self) -> (size: usize)
        ensures
            size == self.max_packet_size,
    {
        self.max_packet_size
    }

    fn max_requests(&self) -> (requests: usize)
        ensures
            requests == self.max_requests,
    {
        self.max_requests
    }

    fn max_connections(&self) -> (connections: u32)
        ensures
            connections == self.max_connections,
    {
        self.max_connections
    }

    fn max_connections_per_ip(&self) -> (connections: u32)
        ensures
            connections == self.max_connections_per_ip,
    {
        self.max_connections_per_ip
    }

    fn ignore_unknown_packets(&self) -> (ignore: bool)
        ensures
            ignore == self.ignore_unknown_packets,
    {
        self.ignore_unknown_packets
    }
}

} // verus!
