//! The session of one game client: what the server does at each thing that
//! happens on the connection.

use crate::service::connect::error::{
    ClientError, ClientPoolError, ConnectServiceError, IoError, Result, ServerError, TimeoutError,
};
use crate::service::connect::net::responder::ClientPacketResponder;
use crate::service::connect::net::{ClientPacket, ServerPacket};
use crate::service::connect::plugin::ClientEvent;
use crate::state::client::{
    noticed, ClientHandle, ClientId, ClientNotice, ClientPool, Ipv4Socket, SocketAddress,
};
use crate::state::realm::RealmServerList;
use crate::util::event::{dispatched, EventHandler, EventListener};
use vstd::prelude::*;

verus! {

/// A span of time: whole seconds and the nanoseconds beyond them.
#[derive(Debug, Clone, Copy, PartialEq, Eq, Hash, Structural)]
pub struct TimeSpan {
    pub secs: u64,
    pub nanos: u32,
}

impl TimeSpan {
    pub fn from_secs(secs: u64) -> (span: Self)
        ensures
            span == (TimeSpan { secs, nanos: 0 }),
    {
        TimeSpan { secs, nanos: 0 }
    }
}

/// Counts the packets of a session and stops it once it has sent more than
/// it may.
#[derive(Debug)]
pub struct PacketLimiter {
    limit: usize,
    counter: usize,
}

impl PacketLimiter {
    /// How many packets the session may send.
    pub closed spec fn limit(&self) -> usize {
        self.limit
    }

    /// How many packets the limiter has seen. The count stops at the
    /// highest number that it can hold.
    pub closed spec fn seen(&self) -> usize {
        self.counter
    }

    /// Lets `packet` pass unless the session has used up its packets.
    pub fn pass<P>(&mut self, packet: P) -> (result: Result<P>)
        ensures
            final(self).limit() == old(self).limit(),
            final(self).seen() == if old(self).seen() < usize::MAX {
                (old(self).seen() + 1) as usize
            } else {
                old(self).seen()
            },
            old(self).seen() < old(self).limit() ==> result == Ok::<P, ConnectServiceError>(packet),
            old(self).seen() >= old(self).limit() ==> result == Err::<P, ConnectServiceError>(
                ConnectServiceError::Client(ClientError::MaxPacketsExceeded),
            ),
    {
        if self.counter < self.limit {
            self.counter = self.counter + 1;
            Ok(packet)
        } else {
            if self.counter < usize::MAX {
                self.counter = self.counter + 1;
            }
            Err(ConnectServiceError::Client(ClientError::MaxPacketsExceeded))
        }
    }
}

/// Returns a packet limiter: it lets `limit` packets pass and fails every
/// packet after them.
pub fn packet_limiter(limit: usize) -> (limiter: PacketLimiter)
    ensures
        limiter.limit() == limit,
        limiter.seen() == 0,
{
    PacketLimiter { limit, counter: 0 }
}

/// Where a session stands.
#[derive(Debug, Clone, Copy, PartialEq, Eq, Structural)]
pub enum SessionState {
    /// The connection is accepted; the client is not admitted yet.
    Admitting,
    /// The client is admitted and served.
    Active,
    /// The session is ending: what is left to write is written.
    Draining,
    /// The session is over.
    Closed,
}

/// What happens on a connection.
#[derive(Debug, PartialEq, Eq)]
pub enum SessionEvent {
    /// The peer's address was asked for.
    Accepted(core::result::Result<SocketAddress, IoError>),
    /// A frame came in and is this packet.
    Packet(ClientPacket),
    /// A frame came in and is no packet.
    InvalidPacket(IoError),
    /// The wait for a frame failed or ran out of time.
    ReadFailed(TimeoutError),
    /// The peer closed the connection.
    Eof,
    /// The server shuts down.
    Shutdown,
    /// The answer is written.
    Written,
    /// The answer could not be put into a frame.
    InvalidServerPacket(IoError),
    /// Writing the answer failed or ran out of time.
    WriteFailed(TimeoutError),
    /// What was left to write is written, or its time has run out.
    Drained,
}

/// What the server does next on a connection.
#[derive(Debug, PartialEq, Eq)]
pub enum SessionAction {
    /// Go on with what is in progress.
    Continue,
    /// Wait for the next frame, no longer than `deadline`.
    Read { deadline: TimeSpan },
    /// Write `packet`, in no more time than `deadline`.
    Write { packet: ServerPacket, deadline: TimeSpan },
    /// Write what is left to write, in no more time than `deadline`, and
    /// close the connection.
    Drain { deadline: TimeSpan },
    /// The session is over, with this result.
    Close(Result<()>),
}

/// The session of one client.
#[derive(Debug)]
pub struct ClientSession {
    state: SessionState,
    peer: Option<Ipv4Socket>,
    handle: Option<ClientHandle>,
    limiter: PacketLimiter,
    writing: bool,
    shutdown: bool,
    failure: Option<ConnectServiceError>,
}

impl ClientSession {
    pub closed spec fn spec_state(&self) -> SessionState {
        self.state
    }

    /// The peer, once the client is admitted.
    pub closed spec fn peer(&self) -> Option<Ipv4Socket> {
        self.peer
    }

    /// The identifier under which the pool holds the client, while it does.
    pub closed spec fn admitted(&self) -> Option<ClientId> {
        match self.handle {
            Some(handle) => Some(handle.id()),
            None => None,
        }
    }

    /// The packets that the session has sent so far.
    pub closed spec fn requests(&self) -> usize {
        self.limiter.seen()
    }

    /// The packets that the session may send.
    pub closed spec fn max_requests(&self) -> usize {
        self.limiter.limit()
    }

    /// Whether an answer is on its way to the client.
    pub closed spec fn writing(&self) -> bool {
        self.writing
    }

    /// Whether the server began to shut down while an answer was on its way.
    pub closed spec fn shutdown_pending(&self) -> bool {
        self.shutdown
    }

    /// The failure that ends the session, if one does.
    pub closed spec fn failure(&self) -> Option<ConnectServiceError> {
        self.failure
    }

    /// The pool holds the client exactly while the session is active or
    /// draining, which is also when its peer is known; an answer is on its
    /// way only while the session is active; and only a session that is
    /// draining carries a failure.
    pub open spec fn wf(&self) -> bool {
        &&& self.admitted() is Some <==> (self.spec_state() is Active || self.spec_state() is Draining)
        &&& self.peer() is Some <==> self.admitted() is Some
        &&& self.writing() ==> self.spec_state() is Active
        &&& self.shutdown_pending() ==> self.writing()
        &&& self.failure() is Some ==> self.spec_state() is Draining
    }

    #[verifier::when_used_as_spec(spec_state)]
    pub fn state(&self) -> (state: SessionState)
        ensures
            state == self.spec_state(),
    {
        self.state
    }
}

/// Serves the sessions of game clients: admits them, answers their packets,
/// and ends their sessions.
pub struct ClientStreamHandler<L: EventListener<ClientEvent>, O: EventListener<ClientNotice>> {
    plugins: EventHandler<ClientEvent, L>,
    clients: ClientPool<O>,
    responder: ClientPacketResponder,
    max_idle_time: TimeSpan,
    max_requests: usize,
    max_unresponsive_time: TimeSpan,
}

impl<L: EventListener<ClientEvent>, O: EventListener<ClientNotice>> ClientStreamHandler<L, O> {
    /// The states of the plugins, in the order in which they registered.
    pub closed spec fn plugins(&self) -> Seq<L::V> {
        self.plugins@
    }

    /// The pool of admitted clients.
    pub closed spec fn clients(&self) -> ClientPool<O> {
        self.clients
    }

    pub closed spec fn responder(&self) -> ClientPacketResponder {
        self.responder
    }

    /// How long a session may wait for a frame.
    pub closed spec fn max_idle_time(&self) -> TimeSpan {
        self.max_idle_time
    }

    /// How many packets a session may send.
    pub closed spec fn max_requests(&self) -> usize {
        self.max_requests
    }

    /// How long a write may take.
    pub closed spec fn max_unresponsive_time(&self) -> TimeSpan {
        self.max_unresponsive_time
    }

    pub closed spec fn wf(&self) -> bool {
        self.plugins.wf() && self.clients.wf()
    }

    /// Whether the handler has the plugins, the clients and the responder
    /// of `other`, and is well-formed if `other` is.
    pub closed spec fn serves_as(&self, other: Self) -> bool {
        &&& self.plugins == other.plugins
        &&& self.clients == other.clients
        &&& self.responder == other.responder
    }

    /// A handler that serves as another has its plugins, its clients and
    /// its responder.
    pub proof fn lemma_serves_as(&self, other: Self)
        requires
            self.serves_as(other),
        ensures
            self.plugins() == other.plugins(),
            self.clients() == other.clients(),
            self.responder() == other.responder(),
            other.wf() ==> self.wf(),
    {
    }

    /// A handler without plugins: sessions may idle for 100 seconds, send
    /// 20 packets, and take 60 seconds for a write.
    pub fn new(responder: ClientPacketResponder, clients: ClientPool<O>) -> (handler: Self)
        requires
            clients.wf(),
        ensures
            handler.wf(),
            handler.plugins().len() == 0,
            handler.clients() == clients,
            handler.responder() == responder,
            handler.max_idle_time() == (TimeSpan { secs: 100, nanos: 0 }),
            handler.max_requests() == 20,
            handler.max_unresponsive_time() == (TimeSpan { secs: 60, nanos: 0 }),
    {
        ClientStreamHandler {
            plugins: EventHandler::new(),
            clients,
            responder,
            max_idle_time: TimeSpan::from_secs(100),
            max_requests: 20,
            max_unresponsive_time: TimeSpan::from_secs(60),
        }
    }

    pub fn set_max_idle_time(&mut self, value: TimeSpan)
        ensures
            final(self).max_idle_time() == value,
            final(self).max_requests() == old(self).max_requests(),
            final(self).max_unresponsive_time() == old(self).max_unresponsive_time(),
            final(self).serves_as(*old(self)),
    {
        self.max_idle_time = value;
    }

    pub fn set_max_requests(&mut self, value: usize)
        ensures
            final(self).max_requests() == value,
            final(self).max_idle_time() == old(self).max_idle_time(),
            final(self).max_unresponsive_time() == old(self).max_unresponsive_time(),
            final(self).serves_as(*old(self)),
    {
        self.max_requests = value;
    }

    pub fn set_max_unresponsive_time(&mut self, value: TimeSpan)
        ensures
            final(self).max_unresponsive_time() == value,
            final(self).max_idle_time() == old(self).max_idle_time(),
            final(self).max_requests() == old(self).max_requests(),
            final(self).serves_as(*old(self)),
    {
        self.max_unresponsive_time = value;
    }

    /// Registers a plugin, behind those that are registered.
    pub fn register_plugin(&mut self, plugin: L)
        requires
            old(self).wf(),
            plugin.wf(),
        ensures
            final(self).wf(),
            final(self).plugins() == old(self).plugins().push(plugin@),
            final(self).clients() == old(self).clients(),
            final(self).responder() == old(self).responder(),
            final(self).max_idle_time() == old(self).max_idle_time(),
            final(self).max_requests() == old(self).max_requests(),
            final(self).max_unresponsive_time() == old(self).max_unresponsive_time(),
    {
        self.plugins.subscribe(plugin);
    }

    /// The session of a connection that was just accepted.
    pub fn session(&self) -> (session: ClientSession)
        ensures
            session.wf(),
            session.spec_state() is Admitting,
            session.requests() == 0,
            session.max_requests() == self.max_requests(),
            !session.writing(),
            session.failure() is None,
    {
        ClientSession {
            state: SessionState::Admitting,
            peer: None,
            handle: None,
            limiter: packet_limiter(self.max_requests),
            writing: false,
            shutdown: false,
            failure: None,
        }
    }
}

/// The plugin states after the dispatch of `event` to plugins in `plugins`.
pub open spec fn heard<L: EventListener<ClientEvent>>(plugins: Seq<L::V>, event: ClientEvent) -> Seq<
    L::V,
> {
    dispatched::<ClientEvent, L>(plugins, event, plugins.len()).states
}

/// Whether plugins in `plugins` leave the default of `event` allowed.
pub open spec fn allows<L: EventListener<ClientEvent>>(plugins: Seq<L::V>, event: ClientEvent) -> bool {
    !dispatched::<ClientEvent, L>(plugins, event, plugins.len()).prevented
}

/// The failure of a session that the server turned away.
pub open spec fn rejection() -> ConnectServiceError {
    ConnectServiceError::Server(ServerError::ClientRejected)
}

/// The failure of a session that the pool did not admit.
pub open spec fn refusal(cause: ClientPoolError) -> ConnectServiceError {
    ConnectServiceError::Client(ClientError::ClientState(cause))
}

impl ClientSession {
    /// Whether the session counts the packets that `other` counts, against
    /// the same limit.
    pub open spec fn counts_as(&self, other: Self) -> bool {
        self.requests() == other.requests() && self.max_requests() == other.max_requests()
    }

    /// Whether the session is closed, as it is once and for all: the pool
    /// holds no client for it, and nothing of it is in progress.
    pub open spec fn is_over(&self) -> bool {
        &&& self.spec_state() is Closed
        &&& self.admitted() is None
        &&& self.peer() is None
        &&& !self.writing()
        &&& !self.shutdown_pending()
        &&& self.failure() is None
    }

    /// Whether the session is draining because of `failure`, for the client
    /// and the peer of `other`.
    pub open spec fn is_ending(&self, other: Self, failure: Option<ConnectServiceError>) -> bool {
        &&& self.spec_state() is Draining
        &&& self.admitted() == other.admitted()
        &&& self.peer() == other.peer()
        &&& !self.writing()
        &&& !self.shutdown_pending()
        &&& self.failure() == failure
    }

    /// Whether the session is active for the client and the peer of
    /// `other`, with an answer on its way or not.
    pub open spec fn is_serving(&self, other: Self, writing: bool, shutdown: bool) -> bool {
        &&& self.spec_state() is Active
        &&& self.admitted() == other.admitted()
        &&& self.peer() == other.peer()
        &&& self.writing() == writing
        &&& self.shutdown_pending() == shutdown
        &&& self.failure() is None
    }
}

impl<L: EventListener<ClientEvent>, O: EventListener<ClientNotice>> ClientStreamHandler<L, O> {
    /// Whether the handler has the settings of `other`: its responder, its
    /// limits, and the capacities of its pool.
    pub open spec fn set_as(&self, other: Self) -> bool {
        &&& self.responder() == other.responder()
        &&& self.max_idle_time() == other.max_idle_time()
        &&& self.max_requests() == other.max_requests()
        &&& self.max_unresponsive_time() == other.max_unresponsive_time()
        &&& self.clients().capacity() == other.clients().capacity()
        &&& self.clients().capacity_per_ip() == other.clients().capacity_per_ip()
    }

    /// Whether nothing of the handler's plugins and pool differs from
    /// `other`.
    pub open spec fn untouched(&self, other: Self) -> bool {
        &&& self.plugins() == other.plugins()
        &&& self.clients()@ == other.clients()@
        &&& self.clients().listeners() == other.clients().listeners()
    }

    /// What the admission of a connection comes to.
    ///
    /// A connection whose peer cannot be told, or is no IPv4 peer, is closed
    /// at once. Else the plugins hear of the connect. If one prevents it,
    /// the plugins hear of the rejection, and of nothing more; the pool is
    /// not touched. Else the pool is asked for a place. If it has none, the
    /// plugins hear of the failure and of the disconnect. Else the session
    /// is active and waits for its first frame.
    pub open spec fn admission(
        before: Self,
        after: Self,
        prior: ClientSession,
        now: ClientSession,
        resolved: core::result::Result<SocketAddress, IoError>,
        action: SessionAction,
    ) -> bool {
        match resolved {
            Err(io) => {
                &&& after.untouched(before)
                &&& now.is_over()
                &&& action == SessionAction::Close(
                    Err(ConnectServiceError::Client(ClientError::CannotResolveAddress(io))),
                )
            },
            Ok(address) => match address.v4() {
                None => {
                    &&& after.untouched(before)
                    &&& now.is_over()
                    &&& action == SessionAction::Close(
                        Err(ConnectServiceError::Client(ClientError::InvalidIpVersion)),
                    )
                },
                Some(peer) => {
                    let connect = ClientEvent::Connect(peer);
                    let told = heard::<L>(before.plugins(), connect);
                    let pool = before.clients();
                    if !allows::<L>(before.plugins(), connect) {
                        &&& after.plugins() == heard::<L>(told, ClientEvent::Error(rejection()))
                        &&& after.clients()@ == pool@
                        &&& after.clients().listeners() == pool.listeners()
                        &&& now.is_over()
                        &&& action == SessionAction::Close(Err(rejection()))
                    } else if crate::state::client::clients_at(pool@, peer.ip).len()
                        >= pool.capacity_per_ip() || pool@.len() >= pool.capacity() {
                        let cause = if crate::state::client::clients_at(pool@, peer.ip).len()
                            >= pool.capacity_per_ip() {
                            ClientPoolError::MaxCapacityForIp(peer.ip)
                        } else {
                            ClientPoolError::MaxCapacity
                        };
                        &&& after.plugins() == heard::<L>(
                            heard::<L>(told, ClientEvent::Error(refusal(cause))),
                            ClientEvent::Disconnect(peer),
                        )
                        &&& after.clients()@ == pool@
                        &&& after.clients().listeners() == pool.listeners()
                        &&& now.is_over()
                        &&& action == SessionAction::Close(Err(refusal(cause)))
                    } else {
                        &&& after.plugins() == told
                        &&& now.admitted() matches Some(id)
                        &&& !pool@.contains_key(id)
                        &&& after.clients()@ == pool@.insert(id, after.clients()@[id])
                        &&& id == pool.next_id()
                        &&& after.clients()@[id].spec_id() == id
                        &&& after.clients()@[id].spec_socket() == peer
                        &&& after.clients().listeners() == noticed::<O>(
                            pool.listeners(),
                            ClientNotice::Connect(after.clients()@[id]),
                        )
                        &&& now.spec_state() is Active
                        &&& now.peer() == Some(peer)
                        &&& !now.writing()
                        &&& !now.shutdown_pending()
                        &&& now.failure() is None
                        &&& action == (SessionAction::Read { deadline: before.max_idle_time() })
                    }
                },
            },
        }
    }

    /// Admits a connection that was accepted.
    pub fn accept(
        &mut self,
        session: &mut ClientSession,
        resolved: core::result::Result<SocketAddress, IoError>,
    ) -> (action: SessionAction)
        requires
            old(self).wf(),
            old(session).wf(),
            old(session).spec_state() is Admitting,
        ensures
            final(self).wf(),
            final(self).set_as(*old(self)),
            final(session).wf(),
            final(session).counts_as(*old(session)),
            Self::admission(*old(self), *final(self), *old(session), *final(session), resolved, action),
    {
        session.state = SessionState::Closed;
        let address = match resolved {
            Ok(address) => address,
            Err(io) => {
                return SessionAction::Close(
                    Err(ConnectServiceError::Client(ClientError::CannotResolveAddress(io))),
                );
            },
        };
        let peer = match address.v4() {
            Some(peer) => peer,
            None => {
                return SessionAction::Close(
                    Err(ConnectServiceError::Client(ClientError::InvalidIpVersion)),
                );
            },
        };
        if !self.plugins.dispatch(ClientEvent::Connect(peer)) {
            let rejected = ClientEvent::Error(
                ConnectServiceError::Server(ServerError::ClientRejected),
            );
            self.plugins.dispatch_ref(&rejected);
            return SessionAction::Close(
                Err(ConnectServiceError::Server(ServerError::ClientRejected)),
            );
        }
        match self.clients.add(peer) {
            Ok(handle) => {
                session.state = SessionState::Active;
                session.peer = Some(peer);
                session.handle = Some(handle);
                SessionAction::Read { deadline: self.max_idle_time }
            },
            Err(cause) => {
                let failed = ClientEvent::Error(
                    ConnectServiceError::Client(ClientError::ClientState(cause)),
                );
                self.plugins.dispatch_ref(&failed);
                self.plugins.dispatch(ClientEvent::Disconnect(peer));
                SessionAction::Close(
                    Err(ConnectServiceError::Client(ClientError::ClientState(cause))),
                )
            },
        }
    }
}

impl<L: EventListener<ClientEvent>, O: EventListener<ClientNotice>> ClientStreamHandler<L, O> {
    /// What a frame comes to.
    ///
    /// A frame beyond those that the session may send ends the session.
    /// Else a frame that is no packet ends it; a packet is answered from
    /// the realm directory: the answer is written, or there is none and the
    /// session waits for the next frame, or the packet ends the session.
    pub open spec fn service(
        before: Self,
        prior: ClientSession,
        now: ClientSession,
        realms: Map<crate::state::realm::RealmServerId, crate::state::realm::RealmView>,
        frame: core::result::Result<ClientPacket, IoError>,
        action: SessionAction,
    ) -> bool {
        let drain = SessionAction::Drain { deadline: before.max_unresponsive_time() };
        if prior.requests() >= prior.max_requests() {
            &&& now.is_ending(
                prior,
                Some(ConnectServiceError::Client(ClientError::MaxPacketsExceeded)),
            )
            &&& action == drain
        } else {
            match frame {
                Err(io) => {
                    &&& now.is_ending(
                        prior,
                        Some(ConnectServiceError::Client(ClientError::InvalidPacket(io))),
                    )
                    &&& action == drain
                },
                Ok(packet) => exists|result: Result<Option<ServerPacket>>| #[trigger]
                    before.responder().answers(realms, packet, result) && match result {
                        Ok(Some(answer)) => {
                            &&& now.is_serving(prior, true, false)
                            &&& action == (SessionAction::Write {
                                packet: answer,
                                deadline: before.max_unresponsive_time(),
                            })
                        },
                        Ok(None) => {
                            &&& now.is_serving(prior, false, false)
                            &&& action == (SessionAction::Read { deadline: before.max_idle_time() })
                        },
                        Err(failure) => now.is_ending(prior, Some(failure)) && action == drain,
                    },
            }
        }
    }

    /// Takes a frame of an active session that waits for one.
    pub fn serve(
        &self,
        session: &mut ClientSession,
        realms: &RealmServerList,
        frame: core::result::Result<ClientPacket, IoError>,
    ) -> (action: SessionAction)
        requires
            old(session).wf(),
            old(session).spec_state() is Active,
            !old(session).writing(),
            realms.wf(),
        ensures
            final(session).wf(),
            final(session).max_requests() == old(session).max_requests(),
            final(session).requests() == if old(session).requests() < usize::MAX {
                (old(session).requests() + 1) as usize
            } else {
                old(session).requests()
            },
            Self::service(*self, *old(session), *final(session), realms@, frame, action),
    {
        let result = match session.limiter.pass(frame) {
            Err(failure) => Err(failure),
            Ok(Err(io)) => Err(ConnectServiceError::Client(ClientError::InvalidPacket(io))),
            Ok(Ok(packet)) => {
                let result = self.responder.respond(realms, &packet);
                assert(self.responder().answers(realms@, packet, result));
                result
            },
        };
        match result {
            Ok(Some(answer)) => {
                session.writing = true;
                SessionAction::Write { packet: answer, deadline: self.max_unresponsive_time }
            },
            Ok(None) => SessionAction::Read { deadline: self.max_idle_time },
            Err(failure) => {
                session.state = SessionState::Draining;
                session.failure = Some(failure);
                SessionAction::Drain { deadline: self.max_unresponsive_time }
            },
        }
    }

    /// Ends an active session, for `failure` or for none: what is left to
    /// write is written, and then the session is closed.
    pub fn end(&self, session: &mut ClientSession, failure: Option<ConnectServiceError>) -> (action:
        SessionAction)
        requires
            old(session).wf(),
            old(session).spec_state() is Active,
        ensures
            final(session).wf(),
            final(session).counts_as(*old(session)),
            final(session).is_ending(*old(session), failure),
            action == (SessionAction::Drain { deadline: self.max_unresponsive_time() }),
    {
        session.state = SessionState::Draining;
        session.writing = false;
        session.shutdown = false;
        session.failure = failure;
        SessionAction::Drain { deadline: self.max_unresponsive_time }
    }

    /// The failure that a session that has drained ends with: the one that
    /// made it drain, or else that the pool does not hold its client.
    pub open spec fn last_failure(before: Self, prior: ClientSession) -> Option<ConnectServiceError> {
        match prior.failure() {
            Some(failure) => Some(failure),
            None => if before.clients()@.contains_key(prior.admitted()->0) {
                None
            } else {
                Some(refusal(ClientPoolError::InexistentId))
            },
        }
    }

    /// What the end of a session comes to: its client leaves the pool; the
    /// plugins hear of the failure, if there is one, and then of the
    /// disconnect; and the session is over with its result.
    pub open spec fn closing(
        before: Self,
        after: Self,
        prior: ClientSession,
        now: ClientSession,
        action: SessionAction,
    ) -> bool {
        let peer = prior.peer()->0;
        let failure = Self::last_failure(before, prior);
        &&& after.clients()@ == before.clients()@.remove(prior.admitted()->0)
        &&& after.clients().listeners() == if before.clients()@.contains_key(prior.admitted()->0) {
            noticed::<O>(
                before.clients().listeners(),
                ClientNotice::Disconnect(before.clients()@[prior.admitted()->0]),
            )
        } else {
            before.clients().listeners()
        }
        &&& after.plugins() == match failure {
            Some(failure) => heard::<L>(
                heard::<L>(before.plugins(), ClientEvent::Error(failure)),
                ClientEvent::Disconnect(peer),
            ),
            None => heard::<L>(before.plugins(), ClientEvent::Disconnect(peer)),
        }
        &&& now.is_over()
        &&& action == SessionAction::Close(
            match failure {
                Some(failure) => Err(failure),
                None => Ok(()),
            },
        )
    }

    /// Closes a session that has drained.
    pub fn close(&mut self, session: &mut ClientSession) -> (action: SessionAction)
        requires
            old(self).wf(),
            old(session).wf(),
            old(session).spec_state() is Draining,
        ensures
            final(self).wf(),
            final(self).set_as(*old(self)),
            final(session).wf(),
            final(session).counts_as(*old(session)),
            Self::closing(*old(self), *final(self), *old(session), *final(session), action),
    {
        session.state = SessionState::Closed;
        session.writing = false;
        session.shutdown = false;
        let handle = session.handle.take();
        let peer = session.peer.take();
        let failure = session.failure.take();
        let released = match handle {
            Some(handle) => self.clients.release(handle),
            None => Err(ClientPoolError::InexistentId),
        };
        let failure = match failure {
            Some(failure) => Some(failure),
            None => match released {
                Ok(_) => None,
                Err(cause) => Some(ConnectServiceError::Client(ClientError::ClientState(cause))),
            },
        };
        let result = match failure {
            Some(failure) => {
                let failed = ClientEvent::Error(failure);
                self.plugins.dispatch_ref(&failed);
                match failed {
                    ClientEvent::Error(failure) => Err(failure),
                    _ => Ok(()),
                }
            },
            None => Ok(()),
        };
        if let Some(peer) = peer {
            self.plugins.dispatch(ClientEvent::Disconnect(peer));
        }
        SessionAction::Close(result)
    }

    /// What `event` comes to for a session.
    ///
    /// A session that is being admitted takes the peer's address. An
    /// active session that waits for a frame takes a frame, the failure of
    /// the wait, the end of the stream, or the shutdown; one whose answer is
    /// on its way takes the end of the write, its failure, or the shutdown,
    /// which then waits for the write to end. A draining session takes the
    /// end of the drain. Anything else changes nothing.
    pub open spec fn transition(
        before: Self,
        after: Self,
        prior: ClientSession,
        now: ClientSession,
        realms: Map<crate::state::realm::RealmServerId, crate::state::realm::RealmView>,
        event: SessionEvent,
        action: SessionAction,
    ) -> bool {
        let ends = |failure: Option<ConnectServiceError>|
            {
                &&& after.untouched(before)
                &&& now.is_ending(prior, failure)
                &&& action == (SessionAction::Drain { deadline: before.max_unresponsive_time() })
            };
        let nothing = after.untouched(before) && now == prior && action is Continue;
        match prior.spec_state() {
            SessionState::Admitting => match event {
                SessionEvent::Accepted(resolved) => Self::admission(
                    before,
                    after,
                    prior,
                    now,
                    resolved,
                    action,
                ),
                _ => nothing,
            },
            SessionState::Active => if !prior.writing() {
                match event {
                    SessionEvent::Packet(packet) => after.untouched(before) && Self::service(
                        before,
                        prior,
                        now,
                        realms,
                        Ok(packet),
                        action,
                    ),
                    SessionEvent::InvalidPacket(io) => after.untouched(before) && Self::service(
                        before,
                        prior,
                        now,
                        realms,
                        Err(io),
                        action,
                    ),
                    SessionEvent::ReadFailed(error) => ends(
                        Some(ConnectServiceError::timed_out(error)),
                    ),
                    SessionEvent::Eof => ends(None),
                    SessionEvent::Shutdown => ends(None),
                    _ => nothing,
                }
            } else {
                match event {
                    SessionEvent::Written => if prior.shutdown_pending() {
                        ends(None)
                    } else {
                        &&& after.untouched(before)
                        &&& now.is_serving(prior, false, false)
                        &&& action == (SessionAction::Read { deadline: before.max_idle_time() })
                    },
                    SessionEvent::InvalidServerPacket(io) => ends(
                        Some(ConnectServiceError::Client(ClientError::InvalidServerPacket(io))),
                    ),
                    SessionEvent::WriteFailed(error) => ends(
                        Some(ConnectServiceError::timed_out(error)),
                    ),
                    SessionEvent::Shutdown => {
                        &&& after.untouched(before)
                        &&& now.is_serving(prior, true, true)
                        &&& action is Continue
                    },
                    _ => nothing,
                }
            },
            SessionState::Draining => match event {
                SessionEvent::Drained => Self::closing(before, after, prior, now, action),
                _ => nothing,
            },
            SessionState::Closed => nothing,
        }
    }

    /// Takes what happened on a connection, and says what to do next.
    pub fn handle(
        &mut self,
        session: &mut ClientSession,
        realms: &RealmServerList,
        event: SessionEvent,
    ) -> (action: SessionAction)
        requires
            old(self).wf(),
            old(session).wf(),
            realms.wf(),
        ensures
            final(self).wf(),
            final(self).set_as(*old(self)),
            final(session).wf(),
            final(session).max_requests() == old(session).max_requests(),
            Self::transition(
                *old(self),
                *final(self),
                *old(session),
                *final(session),
                realms@,
                event,
                action,
            ),
    {
        match session.state {
            SessionState::Admitting => match event {
                SessionEvent::Accepted(resolved) => self.accept(session, resolved),
                _ => SessionAction::Continue,
            },
            SessionState::Active => if !session.writing {
                match event {
                    SessionEvent::Packet(packet) => self.serve(session, realms, Ok(packet)),
                    SessionEvent::InvalidPacket(io) => self.serve(session, realms, Err(io)),
                    SessionEvent::ReadFailed(error) => self.end(
                        session,
                        Some(ConnectServiceError::from_client_timeout(error)),
                    ),
                    SessionEvent::Eof => self.end(session, None),
                    SessionEvent::Shutdown => self.end(session, None),
                    _ => SessionAction::Continue,
                }
            } else {
                match event {
                    SessionEvent::Written => {
                        if session.shutdown {
                            self.end(session, None)
                        } else {
                            session.writing = false;
                            SessionAction::Read { deadline: self.max_idle_time }
                        }
                    },
                    SessionEvent::InvalidServerPacket(io) => self.end(
                        session,
                        Some(ConnectServiceError::Client(ClientError::InvalidServerPacket(io))),
                    ),
                    SessionEvent::WriteFailed(error) => self.end(
                        session,
                        Some(ConnectServiceError::from_client_timeout(error)),
                    ),
                    SessionEvent::Shutdown => {
                        session.shutdown = true;
                        SessionAction::Continue
                    },
                    _ => SessionAction::Continue,
                }
            },
            SessionState::Draining => match event {
                SessionEvent::Drained => self.close(session),
                _ => SessionAction::Continue,
            },
            SessionState::Closed => SessionAction::Continue,
        }
    }
}

/// A connection that a plugin turns away leaves no trace in the pool, and
/// the plugins hear of the connect and of the rejection, and of no
/// disconnect.
pub proof fn lemma_rejection_allocates_nothing<
    L: EventListener<ClientEvent>,
    O: EventListener<ClientNotice>,
>(
    before: ClientStreamHandler<L, O>,
    after: ClientStreamHandler<L, O>,
    prior: ClientSession,
    now: ClientSession,
    address: SocketAddress,
    peer: Ipv4Socket,
    action: SessionAction,
)
    requires
        ClientStreamHandler::<L, O>::admission(before, after, prior, now, Ok(address), action),
        address.v4() == Some(peer),
        !allows::<L>(before.plugins(), ClientEvent::Connect(peer)),
    ensures
        after.clients()@ == before.clients()@,
        after.clients().listeners() == before.clients().listeners(),
        after.plugins() == heard::<L>(
            heard::<L>(before.plugins(), ClientEvent::Connect(peer)),
            ClientEvent::Error(rejection()),
        ),
        now.is_over(),
        action == SessionAction::Close(Err(rejection())),
{
}

/// Whatever ends a session, its client leaves the pool exactly once: by
/// the step that closes the session, and by no step before or after it.
pub proof fn lemma_session_releases_once<
    L: EventListener<ClientEvent>,
    O: EventListener<ClientNotice>,
>(
    before: ClientStreamHandler<L, O>,
    after: ClientStreamHandler<L, O>,
    prior: ClientSession,
    now: ClientSession,
    realms: Map<crate::state::realm::RealmServerId, crate::state::realm::RealmView>,
    event: SessionEvent,
    action: SessionAction,
)
    requires
        before.wf(),
        prior.wf(),
        now.wf(),
        ClientStreamHandler::<L, O>::transition(before, after, prior, now, realms, event, action),
    ensures
        now.spec_state() is Closed ==> now.admitted() is None,
        prior.spec_state() is Closed ==> now == prior && after.clients()@ == before.clients()@,
        prior.admitted() matches Some(id) ==> if now.spec_state() is Closed {
            &&& after.clients()@ == before.clients()@.remove(id)
            &&& before.clients()@.contains_key(id) ==> after.clients()@.len()
                == before.clients()@.len() - 1
        } else {
            now.admitted() == Some(id) && after.clients()@ == before.clients()@
        },
{
    if prior.admitted() is Some && now.spec_state() is Closed {
        let id = prior.admitted()->0;
        if before.clients()@.contains_key(id) {
            crate::state::client::lemma_release_once(before.clients()@, id);
        }
    }
}

} // verus!
