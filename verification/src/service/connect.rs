//! The client plane: sessions of game clients and their listener.

pub mod config;
pub mod error;
pub mod net;
pub mod plugin;

pub use self::config::ConnectServiceConfig;
pub use self::error::{
    ClientError, ClientPoolError, ConnectServiceError, IoError, IoErrorKind, ServerError,
    TimeoutError, Version,
};

use crate::config::ConnectConfig;
use crate::observer::EventObserver;
use crate::service::connect::net::handler::ClientStreamHandler;
use crate::service::connect::net::listener::{ClientListener, ListenerState};
use crate::service::connect::net::responder::ClientPacketResponder;
use crate::service::connect::plugin::{
    CheckMaximumClients, CheckMaximumClientsPerIp, ClientEventLogger, ClientPlugin,
    ClientPluginState, ListenerEventLogger, MaximumClients, MaximumClientsPerIp,
};
use crate::state::client::{no_clients, ClientPool, SocketAddress};
use crate::util::threadctl::ThreadController;
use vstd::prelude::*;

verus! {

/// A connect service instance: the supervisor of the worker that runs the
/// client plane.
#[derive(Debug)]
pub struct ConnectService<H>(ThreadController<H>);

impl<H> ConnectService<H> {
    /// What the service holds of its worker, until it is taken.
    pub closed spec fn held(&self) -> Option<H> {
        self.0.held()
    }

    /// Takes charge of the worker that runs the client plane.
    pub fn spawn(worker: H) -> (service: Self)
        ensures
            service.held() == Some(worker),
    {
        ConnectService(ThreadController::spawn(worker))
    }

    /// Returns whether the service is still active or not.
    pub fn is_active(&self, holders: usize) -> (active: bool)
        ensures
            active == (self.held() is Some && holders > 1),
    {
        self.0.is_alive(holders)
    }

    /// Gives up the worker, to stop it or to wait for it.
    pub fn take(&mut self) -> (worker: Option<H>)
        ensures
            worker == old(self).held(),
            final(self).held() is None,
    {
        self.0.take()
    }
}

/// What serves the client plane by the settings in `config`, for a server
/// that speaks `version` of the protocol: the handler of the sessions and
/// the listener.
///
/// The handler answers as `config` says of unknown packets, holds its
/// sessions to the limits of `config`, and has an empty pool with the
/// capacities of `config`, to which the observer listens. Its plugins are, in this order, the logger, the
/// cap on the clients, and the cap on the clients of one address. The
/// listener is for the address of `config`, and its one plugin is the
/// logger.
pub fn serve(config: &ConnectConfig, version: Version) -> (service: (
    ClientStreamHandler<ClientPlugin, EventObserver>,
    ClientListener<ListenerEventLogger>,
))
    ensures
        service.0.wf(),
        service.0.responder().version() == version,
        service.0.responder().ignores_unknown_packets() == config.ignore_unknown_packets,
        service.0.max_idle_time() == config.max_idle_time,
        service.0.max_requests() == config.max_requests,
        service.0.max_unresponsive_time() == config.max_unresponsive_time,
        service.0.clients()@ == no_clients(),
        service.0.clients().listeners() == seq![()],
        service.0.clients().capacity() == config.max_connections,
        service.0.clients().capacity_per_ip() == config.max_connections_per_ip,
        service.0.plugins() == seq![
            ClientPluginState::Logger,
            ClientPluginState::MaximumClients(
                MaximumClients {
                    clients: 0,
                    capacity: config.max_connections as usize,
                    pending: false,
                },
            ),
            ClientPluginState::MaximumClientsPerIp(
                MaximumClientsPerIp {
                    counts: crate::service::connect::plugin::no_counts(),
                    capacity_per_ip: config.max_connections_per_ip as usize,
                    pending: None,
                },
            ),
        ],
        service.1.wf(),
        service.1.spec_socket() == (SocketAddress { ip: config.host, port: config.port }),
        service.1.spec_state() == ListenerState::Idle,
        service.1.plugins() == seq![()],
{
    // Maps incoming packets to server responses
    let mut responder = ClientPacketResponder::new(version);
    responder.set_ignore_unknown_packets(config.ignore_unknown_packets);

    // Manages each client's stream
    let mut clients = ClientPool::new(config.max_connections, config.max_connections_per_ip);
    clients.subscribe(EventObserver);
    assert(clients.listeners() =~= seq![()]);
    let mut client_handler = ClientStreamHandler::new(responder, clients);
    let ghost fresh = client_handler;
    client_handler.set_max_idle_time(config.max_idle_time);
    proof {
        client_handler.lemma_serves_as(fresh);
    }
    let ghost idle = client_handler;
    client_handler.set_max_requests(config.max_requests);
    proof {
        client_handler.lemma_serves_as(idle);
    }
    let ghost limited = client_handler;
    client_handler.set_max_unresponsive_time(config.max_unresponsive_time);
    proof {
        client_handler.lemma_serves_as(limited);
    }
    client_handler.register_plugin(ClientPlugin::Logger(ClientEventLogger));
    client_handler.register_plugin(
        ClientPlugin::MaximumClients(CheckMaximumClients::new(config.max_connections as usize)),
    );
    client_handler.register_plugin(
        ClientPlugin::MaximumClientsPerIp(
            CheckMaximumClientsPerIp::new(config.max_connections_per_ip as usize),
        ),
    );

    // Listens for incoming client connections
    let mut listener = ClientListener::new(config.socket());
    listener.register_plugin(ListenerEventLogger);
    proof {
        assert(client_handler.plugins() =~= seq![
            ClientPluginState::Logger,
            ClientPluginState::MaximumClients(
                MaximumClients {
                    clients: 0,
                    capacity: config.max_connections as usize,
                    pending: false,
                },
            ),
            ClientPluginState::MaximumClientsPerIp(
                MaximumClientsPerIp {
                    counts: crate::service::connect::plugin::no_counts(),
                    capacity_per_ip: config.max_connections_per_ip as usize,
                    pending: None,
                },
            ),
        ]);
        assert(listener.plugins() =~= seq![()]);
    }
    (client_handler, listener)
}

} // verus!
