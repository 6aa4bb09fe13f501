//! Building blocks that the services share.

pub mod event;
pub mod idxpool;
pub mod stream;
pub mod threadctl;

pub use self::event::{
    EventAction, EventArgs, EventArgsOwned, EventArgsRef, EventHandler, EventListener,
};
pub use self::idxpool::IndexPool;
pub use self::stream::{NextOrElse, StreamExt};
pub use self::threadctl::ThreadController;
