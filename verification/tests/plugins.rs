use mucs::service::connect::plugin::{
    CheckMaximumClients, CheckMaximumClientsPerIp, ClientEvent, ClientEventLogger, ClientPlugin,
    ListenerEvent, ListenerEventLogger, LogLevel,
};
use mucs::service::connect::{
    ClientError, ConnectServiceError, IoError, IoErrorKind, ServerError,
};
use mucs::state::{IpAddress, Ipv4Socket, SocketAddress};
use mucs::util::{EventArgs, EventArgsOwned, EventArgsRef, EventHandler, EventListener};

fn connect(ip: u32) -> ClientEvent {
    ClientEvent::Connect(Ipv4Socket::new(ip, 4000))
}

fn disconnect(ip: u32) -> ClientEvent {
    ClientEvent::Disconnect(Ipv4Socket::new(ip, 4000))
}

#[test]
fn event_args_start_with_no_flag_raised() {
    let mut args = EventArgsOwned::new(5u8);
    assert!(!args.is_default_prevented());
    assert!(!args.is_propagation_stopped());
    assert_eq!(*args.data(), 5);
    args.prevent_default();
    assert!(args.is_default_prevented());
    assert!(!args.is_propagation_stopped());
    args.stop_propagation();
    assert!(args.is_propagation_stopped());
    let value = 9u8;
    let borrowed = EventArgsRef::new(&value);
    assert_eq!(*borrowed.data(), 9);
    assert!(!borrowed.is_default_prevented());
}

#[test]
fn dispatch_without_listeners_allows_the_default() {
    let mut bus: EventHandler<ClientEvent, ClientPlugin> = EventHandler::new();
    assert!(bus.dispatch(connect(1)));
    assert!(bus.dispatch_ref(&disconnect(1)));
}

#[test]
fn maximum_clients_turns_the_client_beyond_capacity_away() {
    let mut bus = EventHandler::new();
    bus.subscribe(CheckMaximumClients::new(2));
    assert!(bus.dispatch(connect(1)));
    assert!(bus.dispatch(connect(2)));
    assert!(!bus.dispatch(connect(3)));
    assert!(!bus.dispatch(connect(4)));
    assert!(bus.dispatch(disconnect(1)));
    assert!(bus.dispatch(connect(5)));
    assert!(!bus.dispatch(connect(6)));
}

#[test]
fn maximum_clients_of_no_capacity_turns_everybody_away() {
    let mut plugin = CheckMaximumClients::new(0);
    let mut args = EventArgsOwned::new(connect(1));
    plugin.call(&mut args);
    assert!(args.is_default_prevented());
}

#[test]
fn maximum_clients_per_ip_counts_each_address_alone() {
    let mut bus = EventHandler::new();
    bus.subscribe(CheckMaximumClientsPerIp::new(1));
    assert!(bus.dispatch(connect(1)));
    assert!(!bus.dispatch(connect(1)));
    assert!(bus.dispatch(connect(2)));
    assert!(bus.dispatch(disconnect(1)));
    assert!(bus.dispatch(connect(1)));
    assert!(!bus.dispatch(connect(2)));
}

#[test]
fn a_plugin_does_not_count_a_client_that_was_turned_away_before_it() {
    let mut bus = EventHandler::new();
    bus.subscribe(ClientPlugin::Logger(ClientEventLogger));
    bus.subscribe(ClientPlugin::MaximumClients(CheckMaximumClients::new(0)));
    bus.subscribe(ClientPlugin::MaximumClientsPerIp(CheckMaximumClientsPerIp::new(1)));
    // The second plugin turns every client away, so the third counts none.
    assert!(!bus.dispatch(connect(1)));
    assert!(!bus.dispatch(connect(1)));
    let mut third = CheckMaximumClientsPerIp::new(1);
    let mut args = EventArgsOwned::new(connect(1));
    args.prevent_default();
    third.call(&mut args);
    assert_eq!(third.clients_for_ip(1), 0);
    let mut fresh = EventArgsOwned::new(connect(1));
    third.call(&mut fresh);
    assert!(!fresh.is_default_prevented());
    assert_eq!(third.clients_for_ip(1), 1);
}

#[test]
fn a_plugin_takes_back_the_client_whose_rejection_it_hears_next() {
    let rejected = ClientEvent::Error(ConnectServiceError::Server(ServerError::ClientRejected));
    let timed_out = ClientEvent::Error(ConnectServiceError::Client(ClientError::TimedOut));

    let mut all = CheckMaximumClients::new(2);
    all.call(&mut EventArgsOwned::new(connect(1)));
    assert_eq!(all.clients(), 1);
    all.call(&mut EventArgsRef::new(&rejected));
    assert_eq!(all.clients(), 0);
    // A rejection that does not come next, or another failure, takes nothing back.
    all.call(&mut EventArgsOwned::new(connect(1)));
    all.call(&mut EventArgsRef::new(&timed_out));
    all.call(&mut EventArgsRef::new(&rejected));
    assert_eq!(all.clients(), 1);
    all.call(&mut EventArgsOwned::new(disconnect(1)));
    assert_eq!(all.clients(), 0);
    all.call(&mut EventArgsRef::new(&rejected));
    assert_eq!(all.clients(), 0);

    let mut each = CheckMaximumClientsPerIp::new(2);
    each.call(&mut EventArgsOwned::new(connect(7)));
    each.call(&mut EventArgsOwned::new(connect(8)));
    assert_eq!((each.clients_for_ip(7), each.clients_for_ip(8)), (1, 1));
    each.call(&mut EventArgsRef::new(&rejected));
    assert_eq!((each.clients_for_ip(7), each.clients_for_ip(8)), (1, 0));
    each.call(&mut EventArgsRef::new(&rejected));
    assert_eq!((each.clients_for_ip(7), each.clients_for_ip(8)), (1, 0));
    // A client that the plugin itself turns away was never counted.
    let mut full = CheckMaximumClientsPerIp::new(1);
    full.call(&mut EventArgsOwned::new(connect(7)));
    let mut second = EventArgsOwned::new(connect(7));
    full.call(&mut second);
    assert!(second.is_default_prevented());
    full.call(&mut EventArgsRef::new(&rejected));
    assert_eq!(full.clients_for_ip(7), 1);
}

#[test]
fn client_logger_passes_over_resets_and_rejections() {
    let reset = ConnectServiceError::Client(ClientError::Connection(IoError {
        kind: IoErrorKind::ConnectionReset,
        message: String::from("reset"),
    }));
    let broken = ConnectServiceError::Client(ClientError::Connection(IoError {
        kind: IoErrorKind::Other,
        message: String::from("broken pipe"),
    }));
    let rejected = ConnectServiceError::Server(ServerError::ClientRejected);
    assert_eq!(ClientEventLogger::level(&ClientEvent::Error(reset)), None);
    assert_eq!(ClientEventLogger::level(&ClientEvent::Error(rejected)), None);
    assert_eq!(ClientEventLogger::level(&ClientEvent::Error(broken)), Some(LogLevel::Warn));
    assert_eq!(ClientEventLogger::level(&connect(1)), Some(LogLevel::Info));
    assert_eq!(ClientEventLogger::level(&disconnect(1)), Some(LogLevel::Info));
}

#[test]
fn listener_logger_levels() {
    let bound = SocketAddress::new(IpAddress::V4(0), 2004);
    assert_eq!(ListenerEventLogger::level(&ListenerEvent::Startup(bound)), LogLevel::Info);
    let failure = ConnectServiceError::Server(ServerError::CloseSignalAborted);
    assert_eq!(ListenerEventLogger::level(&ListenerEvent::Error(failure)), LogLevel::Error);
}
