//! The realm control plane: realms register themselves and stream their load.

pub mod proto;
pub mod realm;

pub use self::config::RpcServiceConfig;
pub use self::realm::{RealmEventLogger, RealmEventPlugin, RealmRpc};

mod config;

use crate::util::threadctl::ThreadController;
use vstd::prelude::*;

verus! {

/// Why the realm control plane failed. `G` is the failure of the transport.
#[derive(Debug, PartialEq, Eq)]
pub enum RpcServiceError<G> {
    /// The transport could not be set up.
    BuildFailure(G),
    /// The transport could not be shut down.
    ShutdownFailure(G),
    /// The signal to stop is lost: nobody can send it any more.
    CloseSignalAborted,
}

/// An RPC service instance: the supervisor of the worker that runs the
/// realm control plane.
#[derive(Debug)]
pub struct RpcService<H>(ThreadController<H>);

impl<H> RpcService<H> {
    /// What the service holds of its worker, until it is taken.
    pub closed spec fn held(&self) -> Option<H> {
        self.0.held()
    }

    /// Takes charge of the worker that runs the realm control plane.
    pub fn spawn(worker: H) -> (service: Self)
        ensures
            service.held() == Some(worker),
    {
        RpcService(ThreadController::spawn(worker))
    }

    /// Returns whether the service is still active or not.
    pub fn is_active(&self, holders: usize) -> (active: bool)
        ensures
            active == (self.held() is Some && holders > 1),
    {
        self.0.is_alive(holders)
    }

    /// Gives up the worker, to stop it or to wait for it.
    pub fn take(&mut self) -> (worker: Option<H>)
        ensures
            worker == old(self).held(),
            final(self).held() is None,
    {
        self.0.take()
    }
}

/// What serves the realm control plane: the handler of the realm sessions,
/// with the logger as its one plugin.
pub fn serve() -> (rpc: RealmRpc<RealmEventLogger>)
    ensures
        rpc.wf(),
        rpc.plugins() == seq![()],
{
    let mut realm_service = RealmRpc::new();
    realm_service.register_plugin(RealmEventLogger);
    assert(realm_service.plugins() =~= seq![()]);
    realm_service
}

/// What the run of the realm control plane has come to, once the wait for
/// the signal to stop is over and the transport is shut down: the failure
/// of the shutdown, if it failed; else the loss of the signal, if it was
/// lost; else all went well. `signalled` says that the signal came.
pub fn served<G>(signalled: bool, shutdown: Result<(), G>) -> (result: Result<(), RpcServiceError<G>>)
    ensures
        result == match shutdown {
            Err(failure) => Err::<(), _>(RpcServiceError::ShutdownFailure(failure)),
            Ok(()) => if signalled {
                Ok(())
            } else {
                Err(RpcServiceError::CloseSignalAborted)
            },
        },
{
    match shutdown {
        Err(failure) => Err(RpcServiceError::ShutdownFailure(failure)),
        Ok(()) => {
            if signalled {
                Ok(())
            } else {
                Err(RpcServiceError::CloseSignalAborted)
            }
        },
    }
}

} // verus!
