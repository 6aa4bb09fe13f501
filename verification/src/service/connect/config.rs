//! The settings of the client plane.

use crate::service::connect::net::handler::TimeSpan;
use crate::state::client::{IpAddress, SocketAddress};
use vstd::prelude::*;

verus! {

/// The settings of the client plane.
pub trait ConnectServiceConfig {
    /// The address to bind to.
    fn host(&self) -> IpAddress;

    /// The port to bind to.
    fn port(&self) -> u16;

    /// How long a client may idle.
    fn max_idle_time(&self) -> TimeSpan;

    /// How long a client may take to read an answer.
    fn max_unresponsive_time(&self) -> TimeSpan;

    /// How many bytes a packet of a client may have.
    fn max_packet_size(&self) -> usize;

    /// How many packets a client may send.
    fn max_requests(&self) -> usize;

    /// How many clients the server holds.
    fn max_connections(&self) -> u32;

    /// How many clients the server holds from one address.
    fn max_connections_per_ip(&self) -> u32;

    /// Whether a packet that the server does not know is passed over.
    fn ignore_unknown_packets(&self) -> bool;
}

} // verus!
