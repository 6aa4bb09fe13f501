//! Where the realm control plane listens.

use crate::config::ConnectConfig;
use vstd::prelude::*;

verus! {

/// The settings of the realm control plane.
pub trait RpcServiceConfig {
    /// The host to bind to.
    fn host(&self) -> &str;

    /// The port to bind to; 0 leaves the choice to the system.
    fn port(&self) -> u16;
}

impl RpcServiceConfig for ConnectConfig {
    fn host(&self) -> (host: &str)
        ensures
            host@ == self.rpc_host@,
    {
        self.rpc_host.as_str()
    }

    fn port(&self) -> (port: u16)
        ensures
            port == self.rpc_port,
    {
        self.rpc_port
    }
}

} // verus!
