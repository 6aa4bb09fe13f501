//! The server as its host sees it: the two planes, whether both are up, and
//! what stopping them or waiting for them has come to.

use crate::service::connect::ConnectService;
use crate::service::rpc::RpcService;
use vstd::prelude::*;

verus! {

/// Why the server did not come down cleanly. `E` is the failure of a plane.
#[derive(Debug, PartialEq, Eq)]
pub enum ConnectServerError<E> {
    /// Stopping the client plane failed.
    ConnectStop(E),
    /// Waiting for the client plane failed.
    ConnectWait(E),
    /// Stopping the realm control plane failed.
    RpcStop(E),
}

/// The server object.
#[derive(Debug)]
pub struct ConnectServer<C, R> {
    connect_service: ConnectService<C>,
    rpc_service: RpcService<R>,
}

impl<C, R> ConnectServer<C, R> {
    pub closed spec fn connect_service(&self) -> ConnectService<C> {
        self.connect_service
    }

    pub closed spec fn rpc_service(&self) -> RpcService<R> {
        self.rpc_service
    }

    /// The server whose two planes are run by these two workers.
    pub fn spawn(connect: C, rpc: R) -> (server: Self)
        ensures
            server.connect_service().held() == Some(connect),
            server.rpc_service().held() == Some(rpc),
    {
        ConnectServer {
            connect_service: ConnectService::spawn(connect),
            rpc_service: RpcService::spawn(rpc),
        }
    }

    /// Returns whether the server is still active or not: both its planes
    /// are.
    pub fn is_active(&self, connect_holders: usize, rpc_holders: usize) -> (active: bool)
        ensures
            active == (self.connect_service().held() is Some && connect_holders > 1
                && self.rpc_service().held() is Some && rpc_holders > 1),
    {
        self.connect_service.is_active(connect_holders) && self.rpc_service.is_active(rpc_holders)
    }

    /// Gives up both workers, to stop them or to wait for them.
    pub fn take(&mut self) -> (workers: (Option<C>, Option<R>))
        ensures
            workers.0 == old(self).connect_service().held(),
            workers.1 == old(self).rpc_service().held(),
            final(self).connect_service().held() is None,
            final(self).rpc_service().held() is None,
    {
        let connect = self.connect_service.take();
        let rpc = self.rpc_service.take();
        (connect, rpc)
    }

    /// What stopping the server has come to: the failure of the client
    /// plane, if it failed; else that of the realm control plane, if it
    /// failed; else all went well.
    pub fn stop<E>(connect: Result<(), E>, rpc: Result<(), E>) -> (result: Result<
        (),
        ConnectServerError<E>,
    >)
        ensures
            result == match connect {
                Err(failure) => Err::<(), _>(ConnectServerError::ConnectStop(failure)),
                Ok(()) => match rpc {
                    Err(failure) => Err(ConnectServerError::RpcStop(failure)),
                    Ok(()) => Ok(()),
                },
            },
    {
        match connect {
            Err(failure) => Err(ConnectServerError::ConnectStop(failure)),
            Ok(()) => match rpc {
                Err(failure) => Err(ConnectServerError::RpcStop(failure)),
                Ok(()) => Ok(()),
            },
        }
    }

    /// What waiting for the server has come to: the client plane was
    /// waited for and the realm control plane then stopped. The failure of
    /// the client plane comes first.
    pub fn wait<E>(connect: Result<(), E>, rpc: Result<(), E>) -> (result: Result<
        (),
        ConnectServerError<E>,
    >)
        ensures
            result == match connect {
                Err(failure) => Err::<(), _>(ConnectServerError::ConnectWait(failure)),
                Ok(()) => match rpc {
                    Err(failure) => Err(ConnectServerError::RpcStop(failure)),
                    Ok(()) => Ok(()),
                },
            },
    {
        match connect {
            Err(failure) => Err(ConnectServerError::ConnectWait(failure)),
            Ok(()) => match rpc {
                Err(failure) => Err(ConnectServerError::RpcStop(failure)),
                Ok(()) => Ok(()),
            },
        }
    }
}

} // verus!
