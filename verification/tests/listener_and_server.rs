use mucs::server::ConnectServerError;
use mucs::service::connect::net::handler::{SessionAction, SessionEvent, TimeSpan};
use mucs::service::connect::net::listener::{
    ClientListener, ListenerAction, ListenerInput, ListenerState,
};
use mucs::service::connect::plugin::{ListenerEvent, ListenerEventLogger};
use mucs::service::connect::{
    serve, ConnectService, ConnectServiceConfig, ConnectServiceError, IoError, IoErrorKind,
    ServerError, TimeoutError, Version,
};
use mucs::service::rpc::{RpcService, RpcServiceConfig};
use mucs::state::{IpAddress, Ipv4Socket, RealmServerList, SocketAddress};
use mucs::util::event::EventAction;
use mucs::util::stream::{Next, Polled};
use mucs::util::threadctl::{JoinOutcome, ThreadError};
use mucs::util::{EventArgs, EventListener, NextOrElse, StreamExt, ThreadController};
use mucs::{ConnectConfig, ConnectServer, EventObserver, ServerBuilder};
use std::cell::RefCell;
use std::rc::Rc;

fn io(message: &str) -> IoError {
    IoError { kind: IoErrorKind::Other, message: message.to_string() }
}

fn bound() -> SocketAddress {
    SocketAddress::new(IpAddress::V4(0x7f00_0001), 2004)
}

#[test]
fn listener_that_cannot_bind_fails() {
    let mut listener: ClientListener<ListenerEventLogger> = ClientListener::new(bound());
    assert_eq!(listener.socket(), bound());
    assert_eq!(listener.state(), ListenerState::Idle);
    assert_eq!(
        listener.listen(ListenerInput::BindFailed(io("in use"))),
        ListenerAction::Stop(Err(ConnectServiceError::Server(ServerError::Bind(io("in use")))))
    );
    assert_eq!(listener.state(), ListenerState::Stopped);
    let mut listener: ClientListener<ListenerEventLogger> = ClientListener::new(bound());
    assert_eq!(
        listener.listen(ListenerInput::AddressUnknown(io("gone"))),
        ListenerAction::Stop(Err(ConnectServiceError::Server(ServerError::CannotResolveAddress(
            io("gone")
        ))))
    );
}

#[test]
fn listener_spawns_until_it_is_told_to_stop() {
    let mut listener = ClientListener::new(bound());
    listener.register_plugin(ListenerEventLogger);
    assert_eq!(listener.listen(ListenerInput::Incoming), ListenerAction::Continue);
    assert_eq!(listener.listen(ListenerInput::Bound(bound())), ListenerAction::Accept);
    assert_eq!(listener.state(), ListenerState::Listening);
    assert_eq!(listener.listen(ListenerInput::Incoming), ListenerAction::Spawn);
    assert_eq!(listener.listen(ListenerInput::Incoming), ListenerAction::Spawn);
    assert_eq!(listener.listen(ListenerInput::Bound(bound())), ListenerAction::Continue);
    assert_eq!(listener.listen(ListenerInput::CloseSignal), ListenerAction::Stop(Ok(())));
    assert_eq!(listener.state(), ListenerState::Stopped);
    assert_eq!(listener.listen(ListenerInput::Incoming), ListenerAction::Continue);
}

#[test]
fn listener_tells_its_failures_to_the_plugins_and_stops() {
    for input in [ListenerInput::AcceptFailed(io("too many files")), ListenerInput::CloseSignalAborted] {
        let mut listener = ClientListener::new(bound());
        listener.register_plugin(ListenerEventLogger);
        assert_eq!(listener.listen(ListenerInput::Bound(bound())), ListenerAction::Accept);
        assert_eq!(listener.listen(input), ListenerAction::Stop(Ok(())));
        assert_eq!(listener.state(), ListenerState::Stopped);
    }
}

struct Heard(Rc<RefCell<Vec<ListenerEvent>>>);

impl vstd::view::View for Heard {
    type V = ();

    fn view(&self) {}
}

impl EventListener<ListenerEvent> for Heard {
    fn wf(&self) -> bool {
        true
    }

    fn prevents(_state: (), _data: ListenerEvent, _prevented: bool) -> bool {
        false
    }

    fn stops(_state: (), _data: ListenerEvent, _prevented: bool) -> bool {
        false
    }

    fn next(_state: (), _data: ListenerEvent, _prevented: bool) {}

    fn call<A: EventArgs<ListenerEvent>>(&mut self, event: &mut A) -> EventAction {
        self.0.borrow_mut().push(event.data().clone());
        EventAction::Keep
    }
}

#[test]
fn listener_names_each_failure_to_its_plugins() {
    let heard = Rc::new(RefCell::new(Vec::new()));
    let mut listener = ClientListener::new(bound());
    listener.register_plugin(Heard(heard.clone()));
    assert_eq!(listener.listen(ListenerInput::Bound(bound())), ListenerAction::Accept);
    assert_eq!(listener.listen(ListenerInput::Incoming), ListenerAction::Spawn);
    assert_eq!(
        listener.listen(ListenerInput::AcceptFailed(io("too many files"))),
        ListenerAction::Stop(Ok(()))
    );
    assert_eq!(
        *heard.borrow(),
        vec![
            ListenerEvent::Startup(bound()),
            ListenerEvent::Error(ConnectServiceError::Server(ServerError::Connection(io(
                "too many files"
            )))),
        ]
    );

    let heard = Rc::new(RefCell::new(Vec::new()));
    let mut listener = ClientListener::new(bound());
    listener.register_plugin(Heard(heard.clone()));
    assert_eq!(listener.listen(ListenerInput::Bound(bound())), ListenerAction::Accept);
    assert_eq!(listener.listen(ListenerInput::CloseSignalAborted), ListenerAction::Stop(Ok(())));
    assert_eq!(
        heard.borrow().last(),
        Some(&ListenerEvent::Error(ConnectServiceError::Server(ServerError::CloseSignalAborted)))
    );

    let heard = Rc::new(RefCell::new(Vec::new()));
    let mut listener = ClientListener::new(bound());
    listener.register_plugin(Heard(heard.clone()));
    assert_eq!(listener.listen(ListenerInput::Bound(bound())), ListenerAction::Accept);
    assert_eq!(listener.listen(ListenerInput::CloseSignal), ListenerAction::Stop(Ok(())));
    assert_eq!(*heard.borrow(), vec![ListenerEvent::Startup(bound())]);
}

struct Veto;

impl vstd::view::View for Veto {
    type V = ();

    fn view(&self) {}
}

impl EventListener<ListenerEvent> for Veto {
    fn wf(&self) -> bool {
        true
    }

    fn prevents(_state: (), _data: ListenerEvent, _prevented: bool) -> bool {
        true
    }

    fn stops(_state: (), _data: ListenerEvent, _prevented: bool) -> bool {
        false
    }

    fn next(_state: (), _data: ListenerEvent, _prevented: bool) {}

    fn call<A: EventArgs<ListenerEvent>>(&mut self, event: &mut A) -> EventAction {
        event.prevent_default();
        EventAction::Keep
    }
}

#[test]
fn a_plugin_can_abort_the_startup() {
    let mut listener = ClientListener::new(bound());
    listener.register_plugin(Veto);
    assert_eq!(
        listener.listen(ListenerInput::Bound(bound())),
        ListenerAction::Stop(Err(ConnectServiceError::Server(ServerError::Abort)))
    );
    assert_eq!(listener.state(), ListenerState::Stopped);
}

#[test]
fn default_settings() {
    let config = ConnectConfig::default();
    assert_eq!(config.host, IpAddress::V4(0));
    assert_eq!(config.port, 2004);
    assert_eq!(config.max_idle_time, TimeSpan { secs: 100, nanos: 0 });
    assert_eq!(config.max_unresponsive_time, TimeSpan { secs: 60, nanos: 0 });
    assert_eq!(config.max_packet_size, 6);
    assert_eq!(config.max_requests, 20);
    assert_eq!(config.max_connections, 1000);
    assert_eq!(config.max_connections_per_ip, 1);
    assert!(!config.ignore_unknown_packets);
    assert_eq!(config.rpc_host, "0.0.0.0");
    assert_eq!(config.rpc_port, 0);
    assert_eq!(config.socket(), SocketAddress::new(IpAddress::V4(0), 2004));
    assert_eq!(ConnectServiceConfig::port(&config), 2004);
    assert_eq!(ConnectServiceConfig::host(&config), IpAddress::V4(0));
    assert_eq!(ConnectServiceConfig::max_requests(&config), 20);
    assert_eq!(RpcServiceConfig::host(&config), "0.0.0.0");
    assert_eq!(RpcServiceConfig::port(&config), 0);
}

#[test]
fn builder_sets_the_two_addresses() {
    let config = ServerBuilder::default().config();
    assert_eq!(config.port, 0);
    assert_eq!(config.host, IpAddress::V4(0));
    assert_eq!(config.max_requests, 20);
    let config = ServerBuilder::default()
        .socket(Ipv4Socket::new(0x0a00_0001, 44405))
        .rpc("localhost".to_string(), 9000)
        .config();
    assert_eq!(config.host, IpAddress::V4(0x0a00_0001));
    assert_eq!(config.port, 44405);
    assert_eq!(config.rpc_host, "localhost");
    assert_eq!(config.rpc_port, 9000);
    assert_eq!(config.max_connections, 1000);
}

#[test]
fn serve_wires_the_plane_by_the_settings() {
    let mut config = ConnectConfig::default();
    config.max_requests = 1;
    config.max_idle_time = TimeSpan { secs: 3, nanos: 0 };
    config.max_unresponsive_time = TimeSpan { secs: 4, nanos: 0 };
    config.max_connections_per_ip = 1;
    config.ignore_unknown_packets = true;
    let (mut handler, mut listener) = serve(&config, Version { major: 1, minor: 2, patch: 3 });
    assert_eq!(listener.socket(), config.socket());
    assert_eq!(listener.listen(ListenerInput::Bound(config.socket())), ListenerAction::Accept);
    let realms = RealmServerList::new();
    let mut session = handler.session();
    let peer = SocketAddress::new(IpAddress::V4(1), 5);
    assert_eq!(
        handler.handle(&mut session, &realms, SessionEvent::Accepted(Ok(peer))),
        SessionAction::Read { deadline: TimeSpan { secs: 3, nanos: 0 } }
    );
    let mut second = handler.session();
    assert_eq!(
        handler.handle(&mut second, &realms, SessionEvent::Accepted(Ok(peer))),
        SessionAction::Close(Err(ConnectServiceError::Server(ServerError::ClientRejected)))
    );
    let unknown = mucs::service::connect::net::ClientPacket::Other { kind: 1, code: 2, data: vec![] };
    assert_eq!(
        handler.handle(&mut session, &realms, SessionEvent::Packet(unknown.clone())),
        SessionAction::Read { deadline: TimeSpan { secs: 3, nanos: 0 } }
    );
    assert_eq!(
        handler.handle(&mut session, &realms, SessionEvent::Packet(unknown)),
        SessionAction::Drain { deadline: TimeSpan { secs: 4, nanos: 0 } }
    );
}

#[test]
fn timeouts_become_session_failures() {
    assert_eq!(
        ConnectServiceError::from_client_timeout(TimeoutError::Elapsed),
        ConnectServiceError::Client(mucs::service::connect::ClientError::TimedOut)
    );
    assert_eq!(
        ConnectServiceError::from_client_timeout(TimeoutError::Timer),
        ConnectServiceError::Client(mucs::service::connect::ClientError::TimedOut)
    );
    let reset = IoError { kind: IoErrorKind::ConnectionReset, message: "reset".to_string() };
    let failure = ConnectServiceError::from_client_timeout(TimeoutError::Inner(reset.clone()));
    assert_eq!(
        failure,
        ConnectServiceError::Client(mucs::service::connect::ClientError::Connection(reset))
    );
    assert!(failure.connection_reset_by_peer());
    assert!(!failure.reject_by_server());
    let other = ConnectServiceError::Client(mucs::service::connect::ClientError::Connection(io("x")));
    assert!(!other.connection_reset_by_peer());
    let rejected = ConnectServiceError::from(ServerError::ClientRejected);
    assert!(rejected.reject_by_server());
    assert!(!rejected.connection_reset_by_peer());
    assert_eq!(
        ConnectServiceError::from(mucs::service::connect::ClientError::TimedOut),
        ConnectServiceError::Client(mucs::service::connect::ClientError::TimedOut)
    );
}

#[test]
fn controller_gives_its_worker_up_once() {
    let mut controller = ThreadController::spawn("worker");
    assert!(controller.is_alive(2));
    assert!(!controller.is_alive(1));
    assert_eq!(controller.take(), Some("worker"));
    assert!(!controller.is_alive(2));
    assert_eq!(controller.take(), None);
}

#[test]
fn stop_and_wait_results() {
    type C = ThreadController<()>;
    assert_eq!(C::wait::<u8>(None), Ok(()));
    assert_eq!(C::wait::<u8>(Some(JoinOutcome::Finished(Ok(())))), Ok(()));
    assert_eq!(C::wait(Some(JoinOutcome::Finished(Err(3u8)))), Err(ThreadError::Failed(3)));
    assert_eq!(C::wait::<u8>(Some(JoinOutcome::Panicked)), Err(ThreadError::Panicked));
    assert_eq!(C::stop::<u8>(None, false), Ok(()));
    assert_eq!(C::stop::<u8>(Some(JoinOutcome::Finished(Ok(()))), true), Ok(()));
    assert_eq!(
        C::stop::<u8>(Some(JoinOutcome::Finished(Ok(()))), false),
        Err(ThreadError::ReceiverClosed)
    );
    assert_eq!(C::stop(Some(JoinOutcome::Finished(Err(3u8))), false), Err(ThreadError::Failed(3)));
    assert_eq!(C::stop::<u8>(Some(JoinOutcome::Panicked), true), Err(ThreadError::Panicked));
}

#[test]
fn server_is_active_while_both_planes_are() {
    let mut server = ConnectServer::spawn("connect", "rpc");
    assert!(server.is_active(2, 2));
    assert!(!server.is_active(1, 2));
    assert!(!server.is_active(2, 1));
    assert_eq!(server.take(), (Some("connect"), Some("rpc")));
    assert!(!server.is_active(2, 2));
    assert_eq!(server.take(), (None, None));
    let mut connect = ConnectService::spawn(1u8);
    assert!(connect.is_active(2));
    assert_eq!(connect.take(), Some(1));
    assert!(!connect.is_active(2));
    let mut rpc = RpcService::spawn(2u8);
    assert!(rpc.is_active(3));
    assert_eq!(rpc.take(), Some(2));
    assert_eq!(rpc.take(), None);
}

#[test]
fn server_results_name_the_plane_that_failed_first() {
    type S = ConnectServer<(), ()>;
    assert_eq!(S::stop::<u8>(Ok(()), Ok(())), Ok(()));
    assert_eq!(S::stop(Err(1u8), Ok(())), Err(ConnectServerError::ConnectStop(1)));
    assert_eq!(S::stop(Ok(()), Err(2u8)), Err(ConnectServerError::RpcStop(2)));
    assert_eq!(S::stop(Err(1u8), Err(2u8)), Err(ConnectServerError::ConnectStop(1)));
    assert_eq!(S::wait::<u8>(Ok(()), Ok(())), Ok(()));
    assert_eq!(S::wait(Err(1u8), Err(2u8)), Err(ConnectServerError::ConnectWait(1)));
    assert_eq!(S::wait(Ok(()), Err(2u8)), Err(ConnectServerError::RpcStop(2)));
}

#[test]
fn next_or_else_settles_each_poll() {
    let mut wait = NextOrElse::new("stream", || "ended");
    let (stream, callback) = wait.take();
    assert!(matches!(wait.settle(stream, callback, Polled::<u8, &str>::NotReady), Next::NotReady));
    let (stream, callback) = wait.take();
    match wait.settle(stream, callback, Polled::Item(7u8)) {
        Next::Ready(item, stream) => {
            assert_eq!(item, 7);
            assert_eq!(stream, "stream");
        }
        _ => panic!("an item is ready"),
    }
    let mut wait = "stream".next_or_else(|| "ended");
    let (stream, callback) = wait.take();
    assert!(matches!(
        wait.settle(stream, callback, Polled::<u8, &str>::Ended),
        Next::Failed("ended")
    ));
    let mut wait = NextOrElse::new((), || "ended");
    let (stream, callback) = wait.take();
    assert!(matches!(
        wait.settle(stream, callback, Polled::<u8, &str>::Failed("broken")),
        Next::Failed("broken")
    ));
}

#[test]
fn observer_only_looks_on() {
    let mut observer = EventObserver;
    let mut args = mucs::util::EventArgsOwned::new(ListenerEvent::Startup(bound()));
    let _ = &mut observer;
    assert!(!args.is_default_prevented());
    args.stop_propagation();
    assert!(args.is_propagation_stopped());
}
