//! The listener of the client plane: what it does as it is bound, as
//! connections come in, and as it is told to stop.

use crate::service::connect::error::{ConnectServiceError, IoError, Result, ServerError};
use crate::service::connect::plugin::ListenerEvent;
use crate::state::client::SocketAddress;
use crate::util::event::{dispatched, EventHandler, EventListener};
use vstd::prelude::*;

verus! {

/// Where the listener stands.
#[derive(Debug, Clone, Copy, PartialEq, Eq, Structural)]
pub enum ListenerState {
    /// The listener is not bound yet.
    Idle,
    /// The listener accepts connections.
    Listening,
    /// The listener has stopped.
    Stopped,
}

/// What happens to the listener.
#[derive(Debug, PartialEq, Eq)]
pub enum ListenerInput {
    /// The socket could not be bound.
    BindFailed(IoError),
    /// The socket is bound, but which address it has got cannot be told.
    AddressUnknown(IoError),
    /// The socket is bound to this address.
    Bound(SocketAddress),
    /// A connection came in.
    Incoming,
    /// Accepting a connection failed.
    AcceptFailed(IoError),
    /// The listener is told to stop.
    CloseSignal,
    /// The signal to stop is lost: nobody can send it any more.
    CloseSignalAborted,
}

/// What the listener does next.
#[derive(Debug, PartialEq, Eq)]
pub enum ListenerAction {
    /// Go on with what is in progress.
    Continue,
    /// Wait for a connection or for the signal to stop.
    Accept,
    /// Start a session for the connection that came in, and wait for the
    /// next.
    Spawn,
    /// The listener is done, with this result. Sessions that run go on.
    Stop(Result<()>),
}

/// The plugin states after the dispatch of `event` to plugins in `plugins`.
pub open spec fn heard<L: EventListener<ListenerEvent>>(plugins: Seq<L::V>, event: ListenerEvent) -> Seq<
    L::V,
> {
    dispatched::<ListenerEvent, L>(plugins, event, plugins.len()).states
}

/// Whether plugins in `plugins` leave the default of `event` allowed.
pub open spec fn allows<L: EventListener<ListenerEvent>>(plugins: Seq<L::V>, event: ListenerEvent) -> bool {
    !dispatched::<ListenerEvent, L>(plugins, event, plugins.len()).prevented
}

/// The listener of the client plane.
pub struct ClientListener<L: EventListener<ListenerEvent>> {
    plugins: EventHandler<ListenerEvent, L>,
    socket: SocketAddress,
    state: ListenerState,
}

impl<L: EventListener<ListenerEvent>> ClientListener<L> {
    /// The states of the plugins, in the order in which they registered.
    pub closed spec fn plugins(&self) -> Seq<L::V> {
        self.plugins@
    }

    pub closed spec fn spec_socket(&self) -> SocketAddress {
        self.socket
    }

    pub closed spec fn spec_state(&self) -> ListenerState {
        self.state
    }

    pub closed spec fn wf(&self) -> bool {
        self.plugins.wf()
    }

    /// A listener for `socket`, not bound yet, without plugins.
    pub fn new(socket: SocketAddress) -> (listener: Self)
        ensures
            listener.wf(),
            listener.plugins().len() == 0,
            listener.spec_socket() == socket,
            listener.spec_state() is Idle,
    {
        ClientListener { plugins: EventHandler::new(), socket, state: ListenerState::Idle }
    }

    /// Registers a plugin, behind those that are registered.
    pub fn register_plugin(&mut self, plugin: L)
        requires
            old(self).wf(),
            plugin.wf(),
        ensures
            final(self).wf(),
            final(self).plugins() == old(self).plugins().push(plugin@),
            final(self).spec_socket() == old(self).spec_socket(),
            final(self).spec_state() == old(self).spec_state(),
    {
        self.plugins.subscribe(plugin);
    }

    /// The address to bind to.
    #[verifier::when_used_as_spec(spec_socket)]
    pub fn socket(&self) -> (socket: SocketAddress)
        ensures
            socket == self.spec_socket(),
    {
        self.socket
    }

    #[verifier::when_used_as_spec(spec_state)]
    pub fn state(&self) -> (state: ListenerState)
        ensures
            state == self.spec_state(),
    {
        self.state
    }

    /// A listener that stops with `result`, its plugins having heard of
    /// nothing.
    pub open spec fn stops(before: Self, after: Self, result: Result<()>, action: ListenerAction) -> bool {
        &&& after.plugins() == before.plugins()
        &&& after.spec_state() is Stopped
        &&& action == ListenerAction::Stop(result)
    }

    /// A listener that stops for `failure` while it listens: its plugins
    /// hear of the failure, and the listener is done without one.
    pub open spec fn fails(before: Self, after: Self, failure: ConnectServiceError, action: ListenerAction) -> bool {
        &&& after.plugins() == heard::<L>(before.plugins(), ListenerEvent::Error(failure))
        &&& after.spec_state() is Stopped
        &&& action == ListenerAction::Stop(Ok(()))
    }

    /// What `input` comes to for the listener.
    ///
    /// A listener that cannot be bound, or whose address cannot be told,
    /// stops with that failure. Once it is bound its plugins hear of the
    /// startup; if one prevents it, the listener stops as aborted, else it
    /// listens. While it listens, each connection gets a session; a failure
    /// to accept, or the loss of the signal to stop, is told to the plugins
    /// and stops the listener; so does the signal to stop, untold.
    pub open spec fn transition(before: Self, after: Self, input: ListenerInput, action: ListenerAction) -> bool {
        let nothing = after.plugins() == before.plugins() && after.spec_state()
            == before.spec_state() && action is Continue;
        match before.spec_state() {
            ListenerState::Idle => match input {
                ListenerInput::BindFailed(io) => Self::stops(
                    before,
                    after,
                    Err(ConnectServiceError::Server(ServerError::Bind(io))),
                    action,
                ),
                ListenerInput::AddressUnknown(io) => Self::stops(
                    before,
                    after,
                    Err(ConnectServiceError::Server(ServerError::CannotResolveAddress(io))),
                    action,
                ),
                ListenerInput::Bound(address) => {
                    let startup = ListenerEvent::Startup(address);
                    &&& after.plugins() == heard::<L>(before.plugins(), startup)
                    &&& if allows::<L>(before.plugins(), startup) {
                        after.spec_state() is Listening && action is Accept
                    } else {
                        after.spec_state() is Stopped && action == ListenerAction::Stop(
                            Err(ConnectServiceError::Server(ServerError::Abort)),
                        )
                    }
                },
                _ => nothing,
            },
            ListenerState::Listening => match input {
                ListenerInput::Incoming => {
                    &&& after.plugins() == before.plugins()
                    &&& after.spec_state() is Listening
                    &&& action is Spawn
                },
                ListenerInput::AcceptFailed(io) => Self::fails(
                    before,
                    after,
                    ConnectServiceError::Server(ServerError::Connection(io)),
                    action,
                ),
                ListenerInput::CloseSignal => Self::stops(before, after, Ok(()), action),
                ListenerInput::CloseSignalAborted => Self::fails(
                    before,
                    after,
                    ConnectServiceError::Server(ServerError::CloseSignalAborted),
                    action,
                ),
                _ => nothing,
            },
            ListenerState::Stopped => nothing,
        }
    }

    /// Takes what happened to the listener, and says what to do next.
    pub fn listen(&mut self, input: ListenerInput) -> (action: ListenerAction)
        requires
            old(self).wf(),
        ensures
            final(self).wf(),
            final(self).spec_socket() == old(self).spec_socket(),
            Self::transition(*old(self), *final(self), input, action),
    {
        match self.state {
            ListenerState::Idle => match input {
                ListenerInput::BindFailed(io) => {
                    self.state = ListenerState::Stopped;
                    ListenerAction::Stop(Err(ConnectServiceError::Server(ServerError::Bind(io))))
                },
                ListenerInput::AddressUnknown(io) => {
                    self.state = ListenerState::Stopped;
                    ListenerAction::Stop(
                        Err(ConnectServiceError::Server(ServerError::CannotResolveAddress(io))),
                    )
                },
                ListenerInput::Bound(address) => {
                    if self.plugins.dispatch(ListenerEvent::Startup(address)) {
                        self.state = ListenerState::Listening;
                        ListenerAction::Accept
                    } else {
                        self.state = ListenerState::Stopped;
                        ListenerAction::Stop(Err(ConnectServiceError::Server(ServerError::Abort)))
                    }
                },
                _ => ListenerAction::Continue,
            },
            ListenerState::Listening => match input {
                ListenerInput::Incoming => ListenerAction::Spawn,
                ListenerInput::AcceptFailed(io) => {
                    self.state = ListenerState::Stopped;
                    self.plugins.dispatch(
                        ListenerEvent::Error(ConnectServiceError::Server(ServerError::Connection(io))),
                    );
                    ListenerAction::Stop(Ok(()))
                },
                ListenerInput::CloseSignal => {
                    self.state = ListenerState::Stopped;
                    ListenerAction::Stop(Ok(()))
                },
                ListenerInput::CloseSignalAborted => {
                    self.state = ListenerState::Stopped;
                    self.plugins.dispatch(
                        ListenerEvent::Error(
                            ConnectServiceError::Server(ServerError::CloseSignalAborted),
                        ),
                    );
                    ListenerAction::Stop(Ok(()))
                },
                _ => ListenerAction::Continue,
            },
            ListenerState::Stopped => ListenerAction::Continue,
        }
    }
}

} // verus!
