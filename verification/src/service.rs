//! The two planes of the server.

pub mod connect;
pub mod rpc;
