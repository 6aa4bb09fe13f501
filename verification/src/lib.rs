//! The Connect Server of a multi-server game deployment: the realm directory,
//! client admission, the event bus, and the per-connection decisions of both
//! network planes, stated over mathematical models and proved against them.

pub mod builder;
pub mod config;
pub mod observer;
pub mod server;
pub mod service;
pub mod state;
pub mod util;

pub use crate::builder::ServerBuilder;
pub use crate::config::ConnectConfig;
pub use crate::observer::EventObserver;
pub use crate::server::ConnectServer;
