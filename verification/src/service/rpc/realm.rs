//! The session of one realm on the control stream: it registers the realm,
//! takes its load as often as the realm reports it, and deregisters it.

use crate::service::rpc::proto::{
    DefinitionError, RealmDefinition, RealmParams, RealmParamsKind, RealmStatus,
};
use crate::state::realm::{RealmServer, RealmServerId, RealmServerList, RealmView};
use crate::util::event::{dispatched, EventHandler, EventListener};
use vstd::prelude::*;

verus! {

/// The status codes with which a session answers.
#[derive(Debug, Clone, Copy, PartialEq, Eq, Structural)]
pub enum RpcStatusCode {
    /// The stream failed.
    Aborted,
    /// The realm closed the stream before it registered.
    Cancelled,
    /// A frame is not what the session expects, or what it says is invalid.
    InvalidArgument,
    /// The directory did not take an update or a removal.
    Internal,
    /// The server shuts down.
    Unavailable,
}

/// Why a session fails.
#[derive(Debug, Clone, Copy, PartialEq, Eq, Structural)]
pub enum RpcReason {
    StreamClosed,
    KindNotSpecified,
    MissingInput,
    ExpectedDefinition,
    InvalidDefinition(DefinitionError),
    DuplicateRealm,
    ExpectedStatus,
    InvalidStatus,
    UpdateFailed,
    DeregisterFailed,
    ShuttingDown,
}

impl RpcReason {
    /// The status code that goes with the reason.
    pub open spec fn spec_code(self) -> RpcStatusCode {
        match self {
            RpcReason::StreamClosed => RpcStatusCode::Aborted,
            RpcReason::MissingInput => RpcStatusCode::Cancelled,
            RpcReason::KindNotSpecified => RpcStatusCode::InvalidArgument,
            RpcReason::ExpectedDefinition => RpcStatusCode::InvalidArgument,
            RpcReason::InvalidDefinition(_) => RpcStatusCode::InvalidArgument,
            RpcReason::DuplicateRealm => RpcStatusCode::InvalidArgument,
            RpcReason::ExpectedStatus => RpcStatusCode::InvalidArgument,
            RpcReason::InvalidStatus => RpcStatusCode::InvalidArgument,
            RpcReason::UpdateFailed => RpcStatusCode::Internal,
            RpcReason::DeregisterFailed => RpcStatusCode::Internal,
            RpcReason::ShuttingDown => RpcStatusCode::Unavailable,
        }
    }

    #[verifier::when_used_as_spec(spec_code)]
    pub fn code(self) -> (code: RpcStatusCode)
        ensures
            code == self.spec_code(),
    {
        match self {
            RpcReason::StreamClosed => RpcStatusCode::Aborted,
            RpcReason::MissingInput => RpcStatusCode::Cancelled,
            RpcReason::KindNotSpecified => RpcStatusCode::InvalidArgument,
            RpcReason::ExpectedDefinition => RpcStatusCode::InvalidArgument,
            RpcReason::InvalidDefinition(_) => RpcStatusCode::InvalidArgument,
            RpcReason::DuplicateRealm => RpcStatusCode::InvalidArgument,
            RpcReason::ExpectedStatus => RpcStatusCode::InvalidArgument,
            RpcReason::InvalidStatus => RpcStatusCode::InvalidArgument,
            RpcReason::UpdateFailed => RpcStatusCode::Internal,
            RpcReason::DeregisterFailed => RpcStatusCode::Internal,
            RpcReason::ShuttingDown => RpcStatusCode::Unavailable,
        }
    }
}

/// The status with which a session fails.
#[derive(Debug, Clone, Copy, PartialEq, Eq, Structural)]
pub struct RpcStatus {
    pub code: RpcStatusCode,
    pub reason: RpcReason,
}

impl RpcStatus {
    /// The status for `reason`, under the code that goes with it.
    pub open spec fn of(reason: RpcReason) -> RpcStatus {
        RpcStatus { code: reason.code(), reason }
    }

    pub fn new(reason: RpcReason) -> (status: Self)
        ensures
            status == Self::of(reason),
    {
        RpcStatus { code: reason.code(), reason }
    }
}

/// What happens to a realm.
#[derive(Debug, Clone, PartialEq, Eq)]
pub enum RealmEvent {
    /// The realm is in the directory.
    Register(RealmServer),
    /// The realm has reported its load.
    Update(RealmServer),
    /// The realm has left the directory.
    Deregister(RealmServer),
    /// An answer did not reach the realm.
    Error(String),
}

/// A plugin of realm sessions.
pub trait RealmEventPlugin: EventListener<RealmEvent> {

}

/// Plugin logging any realm events. It never prevents nor stops anything.
#[derive(Debug, Clone, Copy, PartialEq, Eq, Structural)]
pub struct RealmEventLogger;

impl View for RealmEventLogger {
    type V = ();

    open spec fn view(&self) -> () {
        ()
    }
}

impl EventListener<RealmEvent> for RealmEventLogger {
    open spec fn wf(&self) -> bool {
        true
    }

    open spec fn prevents(state: (), data: RealmEvent, prevented: bool) -> bool {
        false
    }

    open spec fn stops(state: (), data: RealmEvent, prevented: bool) -> bool {
        false
    }

    open spec fn next(state: (), data: RealmEvent, prevented: bool) -> () {
        ()
    }

    fn call<A: crate::util::event::EventArgs<RealmEvent>>(&mut self, event: &mut A) -> (action:
        crate::util::event::EventAction) {
        crate::util::event::EventAction::Keep
    }
}

impl RealmEventPlugin for RealmEventLogger {

}

/// What a session remembers of the realm that it registered.
#[derive(Debug)]
pub struct RealmRegistration {
    realm_id: Option<RealmServerId>,
}

/// Where a session stands.
#[derive(Debug, Clone, Copy, PartialEq, Eq, Structural)]
pub enum RealmSessionState {
    /// No frame has come yet.
    Start,
    /// The realm is registered.
    Active,
    /// The session is over.
    Closed,
}

/// What happens on the stream of a realm.
#[derive(Debug, PartialEq, Eq)]
pub enum RealmSessionEvent {
    /// A frame came in.
    Frame(RealmParams),
    /// The realm closed the stream.
    Eof,
    /// The stream failed.
    TransportError,
    /// The server shuts down.
    Shutdown,
}

/// What the server does next on the stream of a realm.
#[derive(Debug, Clone, Copy, PartialEq, Eq, Structural)]
pub enum RealmSessionAction {
    /// Wait for the next frame.
    Continue,
    /// Answer that all went well; the session is over.
    Succeed,
    /// Answer with a failure; the session is over.
    Fail(RpcStatus),
}

/// The session of one realm.
#[derive(Debug)]
pub struct RealmSession {
    state: RealmSessionState,
    registration: RealmRegistration,
}

impl RealmSession {
    pub closed spec fn spec_state(&self) -> RealmSessionState {
        self.state
    }

    /// The realm that the session has registered and not yet removed.
    pub closed spec fn registered(&self) -> Option<RealmServerId> {
        self.registration.realm_id
    }

    /// The session holds a registration exactly while it is active.
    pub open spec fn wf(&self) -> bool {
        self.registered() is Some <==> self.spec_state() is Active
    }

    /// The session of a stream that was just opened.
    pub fn new() -> (session: Self)
        ensures
            session.wf(),
            session.spec_state() is Start,
            session.registered() is None,
    {
        RealmSession {
            state: RealmSessionState::Start,
            registration: RealmRegistration { realm_id: None },
        }
    }

    #[verifier::when_used_as_spec(spec_state)]
    pub fn state(&self) -> (state: RealmSessionState)
        ensures
            state == self.spec_state(),
    {
        self.state
    }
}

/// The plugin states after the dispatch of `event` to plugins in `plugins`.
pub open spec fn heard<L: EventListener<RealmEvent>>(plugins: Seq<L::V>, event: RealmEvent) -> Seq<
    L::V,
> {
    dispatched::<RealmEvent, L>(plugins, event, plugins.len()).states
}

/// Serves the control streams of realms.
pub struct RealmRpc<L: EventListener<RealmEvent>> {
    plugins: EventHandler<RealmEvent, L>,
}

impl<L: EventListener<RealmEvent>> RealmRpc<L> {
    /// The states of the plugins, in the order in which they registered.
    pub closed spec fn plugins(&self) -> Seq<L::V> {
        self.plugins@
    }

    pub closed spec fn wf(&self) -> bool {
        self.plugins.wf()
    }

    pub fn new() -> (rpc: Self)
        ensures
            rpc.wf(),
            rpc.plugins().len() == 0,
    {
        RealmRpc { plugins: EventHandler::new() }
    }

    /// Registers a plugin, behind those that are registered.
    pub fn register_plugin(&mut self, plugin: L)
        requires
            old(self).wf(),
            plugin.wf(),
        ensures
            final(self).wf(),
            final(self).plugins() == old(self).plugins().push(plugin@),
    {
        self.plugins.subscribe(plugin);
    }

    /// Tells the plugins that an answer did not reach a realm.
    pub fn report(&mut self, failure: String)
        requires
            old(self).wf(),
        ensures
            final(self).wf(),
            final(self).plugins() == heard::<L>(old(self).plugins(), RealmEvent::Error(failure)),
    {
        self.plugins.dispatch(RealmEvent::Error(failure));
    }
}

/// The three things that plugins hear of a realm.
pub enum RealmNotice {
    Register,
    Update,
    Deregister,
}

/// The event that tells of `notice` for `realm`.
pub open spec fn telling(notice: RealmNotice, realm: RealmServer) -> RealmEvent {
    match notice {
        RealmNotice::Register => RealmEvent::Register(realm),
        RealmNotice::Update => RealmEvent::Update(realm),
        RealmNotice::Deregister => RealmEvent::Deregister(realm),
    }
}

/// Whether plugins that were in the states `before` are in the states
/// `after` for having heard of `notice` for the realm `realm`.
pub open spec fn told<L: EventListener<RealmEvent>>(
    before: Seq<L::V>,
    after: Seq<L::V>,
    notice: RealmNotice,
    realm: RealmView,
) -> bool {
    exists|entry: RealmServer|
        entry@ == realm && after == #[trigger] heard::<L>(before, telling(notice, entry))
}

/// The realm that a valid definition stands for.
pub open spec fn realm_of(definition: RealmDefinition) -> RealmView {
    RealmView {
        id: definition.id as u16,
        host: definition.host@,
        port: definition.port as u16,
        clients: definition.status.clients,
        capacity: definition.status.capacity,
    }
}

/// The realm `realm` with the load that `status` reports.
pub open spec fn with_status(realm: RealmView, status: RealmStatus) -> RealmView {
    RealmView { clients: status.clients, capacity: status.capacity, ..realm }
}

impl<L: EventListener<RealmEvent>> RealmRpc<L> {
    /// Registers the realm that `definition` stands for, if it stands for
    /// one and its identifier is free, and tells the plugins.
    pub fn add_realm(&mut self, realms: &mut RealmServerList, definition: RealmDefinition) -> (result:
        Result<RealmServerId, RpcStatus>)
        requires
            old(self).wf(),
            old(realms).wf(),
        ensures
            final(self).wf(),
            final(realms).wf(),
            match result {
                Ok(id) => {
                    &&& definition.valid()
                    &&& id == definition.id
                    &&& !old(realms)@.contains_key(id)
                    &&& final(realms)@ == old(realms)@.insert(id, realm_of(definition))
                    &&& told::<L>(
                        old(self).plugins(),
                        final(self).plugins(),
                        RealmNotice::Register,
                        realm_of(definition),
                    )
                },
                Err(status) => {
                    &&& final(realms)@ == old(realms)@
                    &&& final(self).plugins() == old(self).plugins()
                    &&& if !definition.valid() {
                        status == RpcStatus::of(RpcReason::InvalidDefinition(definition.fault()))
                    } else {
                        old(realms)@.contains_key(definition.id as u16) && status == RpcStatus::of(
                            RpcReason::DuplicateRealm,
                        )
                    }
                },
            },
    {
        let realm = match RealmServer::try_from(definition) {
            Ok(realm) => realm,
            Err(fault) => {
                return Err(RpcStatus::new(RpcReason::InvalidDefinition(fault)));
            },
        };
        let realm_id = realm.id;
        let copy = realm.clone();
        match realms.add(realm) {
            Ok(()) => {},
            Err(_) => {
                return Err(RpcStatus::new(RpcReason::DuplicateRealm));
            },
        }
        let registered = RealmEvent::Register(copy);
        self.plugins.dispatch_ref(&registered);
        proof {
            assert(copy@ == realm_of(definition));
            assert(registered == telling(RealmNotice::Register, copy));
            assert(self.plugins() == heard::<L>(
                old(self).plugins(),
                telling(RealmNotice::Register, copy),
            ));
        }
        Ok(realm_id)
    }

    /// Files the load that `status` reports for the realm under `id`, in
    /// place of the load that was filed, and tells the plugins.
    pub fn update_realm(&mut self, realms: &mut RealmServerList, id: RealmServerId, status: &RealmStatus) -> (result:
        Result<(), RpcStatus>)
        requires
            old(self).wf(),
            old(realms).wf(),
        ensures
            final(self).wf(),
            final(realms).wf(),
            match result {
                Ok(()) => {
                    &&& status.wf()
                    &&& old(realms)@.contains_key(id)
                    &&& final(realms)@ == old(realms)@.insert(
                        id,
                        with_status(old(realms)@[id], *status),
                    )
                    &&& told::<L>(
                        old(self).plugins(),
                        final(self).plugins(),
                        RealmNotice::Update,
                        with_status(old(realms)@[id], *status),
                    )
                },
                Err(failure) => {
                    &&& final(realms)@ == old(realms)@
                    &&& final(self).plugins() == old(self).plugins()
                    &&& if !status.wf() {
                        failure == RpcStatus::of(RpcReason::InvalidStatus)
                    } else {
                        !old(realms)@.contains_key(id) && failure == RpcStatus::of(
                            RpcReason::UpdateFailed,
                        )
                    }
                },
            },
    {
        let clients = status.clients;
        let capacity = status.capacity;
        if clients > capacity {
            return Err(RpcStatus::new(RpcReason::InvalidStatus));
        }
        let mutator = |realm: RealmServer| -> (changed: RealmServer)
            ensures
                changed == (RealmServer { clients, capacity, ..realm }),
            {
                RealmServer { id: realm.id, host: realm.host, port: realm.port, clients, capacity }
            };
        match realms.get_mut(id, mutator) {
            Ok(changed) => {
                let updated = RealmEvent::Update(changed);
                self.plugins.dispatch_ref(&updated);
                proof {
                    assert(changed@ == with_status(old(realms)@[id], *status));
                    assert(updated == telling(RealmNotice::Update, changed));
                    assert(self.plugins() == heard::<L>(
                        old(self).plugins(),
                        telling(RealmNotice::Update, changed),
                    ));
                }
                Ok(())
            },
            Err(_) => Err(RpcStatus::new(RpcReason::UpdateFailed)),
        }
    }

    /// Takes the realm under `id` out of the directory and tells the
    /// plugins. That there is no such realm is a failure.
    pub fn remove_realm(&mut self, realms: &mut RealmServerList, id: RealmServerId) -> (result: Result<
        (),
        RpcStatus,
    >)
        requires
            old(self).wf(),
            old(realms).wf(),
        ensures
            final(self).wf(),
            final(realms).wf(),
            final(realms)@ == old(realms)@.remove(id),
            match result {
                Ok(()) => {
                    &&& old(realms)@.contains_key(id)
                    &&& told::<L>(
                        old(self).plugins(),
                        final(self).plugins(),
                        RealmNotice::Deregister,
                        old(realms)@[id],
                    )
                },
                Err(failure) => {
                    &&& !old(realms)@.contains_key(id)
                    &&& final(self).plugins() == old(self).plugins()
                    &&& failure == RpcStatus::of(RpcReason::DeregisterFailed)
                },
            },
    {
        match realms.remove(id) {
            Ok(realm) => {
                let removed = RealmEvent::Deregister(realm);
                self.plugins.dispatch_ref(&removed);
                proof {
                    assert(removed == telling(RealmNotice::Deregister, realm));
                    assert(self.plugins() == heard::<L>(
                        old(self).plugins(),
                        telling(RealmNotice::Deregister, realm),
                    ));
                }
                Ok(())
            },
            Err(_) => Err(RpcStatus::new(RpcReason::DeregisterFailed)),
        }
    }
}

impl<L: EventListener<RealmEvent>> RealmRpc<L> {
    /// Whether the session is over and holds no registration.
    pub open spec fn over(now: RealmSession) -> bool {
        now.spec_state() is Closed && now.registered() is None
    }

    /// What the end of an active session comes to: its realm leaves the
    /// directory and, if it was there, the plugins hear of it. The session
    /// is over. It fails for `reason` if there is one; else it fails if the
    /// realm was not in the directory, and succeeds if it was.
    pub open spec fn cleanup(
        before: Self,
        after: Self,
        prior: RealmSession,
        now: RealmSession,
        was: Map<RealmServerId, RealmView>,
        left: Map<RealmServerId, RealmView>,
        reason: Option<RpcReason>,
        action: RealmSessionAction,
    ) -> bool {
        let id = prior.registered()->0;
        &&& left == was.remove(id)
        &&& if was.contains_key(id) {
            told::<L>(before.plugins(), after.plugins(), RealmNotice::Deregister, was[id])
        } else {
            after.plugins() == before.plugins()
        }
        &&& Self::over(now)
        &&& action == match reason {
            Some(reason) => RealmSessionAction::Fail(RpcStatus::of(reason)),
            None => if was.contains_key(id) {
                RealmSessionAction::Succeed
            } else {
                RealmSessionAction::Fail(RpcStatus::of(RpcReason::DeregisterFailed))
            },
        }
    }

    /// A session that ends before it has registered a realm: nothing but
    /// the session changes, and it fails for `reason`.
    pub open spec fn refused(
        before: Self,
        after: Self,
        now: RealmSession,
        was: Map<RealmServerId, RealmView>,
        left: Map<RealmServerId, RealmView>,
        reason: RpcReason,
        action: RealmSessionAction,
    ) -> bool {
        &&& left == was
        &&& after.plugins() == before.plugins()
        &&& Self::over(now)
        &&& action == RealmSessionAction::Fail(RpcStatus::of(reason))
    }

    /// What `event` comes to for a session.
    ///
    /// The first frame must be a definition of a realm whose identifier is
    /// free: the realm is registered and the session is active. In an active
    /// session each frame must be a status, which is filed. Whatever else
    /// happens ends the session, and an active session then takes its realm
    /// out of the directory. A session that is over takes nothing.
    pub open spec fn transition(
        before: Self,
        after: Self,
        prior: RealmSession,
        now: RealmSession,
        was: Map<RealmServerId, RealmView>,
        left: Map<RealmServerId, RealmView>,
        event: RealmSessionEvent,
        action: RealmSessionAction,
    ) -> bool {
        match prior.spec_state() {
            RealmSessionState::Start => match event {
                RealmSessionEvent::Frame(RealmParams { kind: Some(RealmParamsKind::Definition(definition)) }) => {
                    if !definition.valid() {
                        Self::refused(
                            before,
                            after,
                            now,
                            was,
                            left,
                            RpcReason::InvalidDefinition(definition.fault()),
                            action,
                        )
                    } else if was.contains_key(definition.id as u16) {
                        Self::refused(before, after, now, was, left, RpcReason::DuplicateRealm, action)
                    } else {
                        &&& left == was.insert(definition.id as u16, realm_of(definition))
                        &&& told::<L>(
                            before.plugins(),
                            after.plugins(),
                            RealmNotice::Register,
                            realm_of(definition),
                        )
                        &&& now.spec_state() is Active
                        &&& now.registered() == Some(definition.id as u16)
                        &&& action is Continue
                    }
                },
                RealmSessionEvent::Frame(RealmParams { kind: Some(RealmParamsKind::Status(_)) }) => Self::refused(
                    before,
                    after,
                    now,
                    was,
                    left,
                    RpcReason::ExpectedDefinition,
                    action,
                ),
                RealmSessionEvent::Frame(RealmParams { kind: None }) => Self::refused(
                    before,
                    after,
                    now,
                    was,
                    left,
                    RpcReason::KindNotSpecified,
                    action,
                ),
                RealmSessionEvent::Eof => Self::refused(
                    before,
                    after,
                    now,
                    was,
                    left,
                    RpcReason::MissingInput,
                    action,
                ),
                RealmSessionEvent::TransportError => Self::refused(
                    before,
                    after,
                    now,
                    was,
                    left,
                    RpcReason::StreamClosed,
                    action,
                ),
                RealmSessionEvent::Shutdown => Self::refused(
                    before,
                    after,
                    now,
                    was,
                    left,
                    RpcReason::ShuttingDown,
                    action,
                ),
            },
            RealmSessionState::Active => {
                let id = prior.registered()->0;
                let ends = |reason: Option<RpcReason>|
                    Self::cleanup(before, after, prior, now, was, left, reason, action);
                match event {
                    RealmSessionEvent::Frame(RealmParams { kind: Some(RealmParamsKind::Status(status)) }) => {
                        if !status.wf() {
                            ends(Some(RpcReason::InvalidStatus))
                        } else if !was.contains_key(id) {
                            ends(Some(RpcReason::UpdateFailed))
                        } else {
                            &&& left == was.insert(id, with_status(was[id], status))
                            &&& told::<L>(
                                before.plugins(),
                                after.plugins(),
                                RealmNotice::Update,
                                with_status(was[id], status),
                            )
                            &&& now.spec_state() is Active
                            &&& now.registered() == Some(id)
                            &&& action is Continue
                        }
                    },
                    RealmSessionEvent::Frame(RealmParams { kind: Some(RealmParamsKind::Definition(_)) }) => ends(
                        Some(RpcReason::ExpectedStatus),
                    ),
                    RealmSessionEvent::Frame(RealmParams { kind: None }) => ends(
                        Some(RpcReason::KindNotSpecified),
                    ),
                    RealmSessionEvent::Eof => ends(None),
                    RealmSessionEvent::TransportError => ends(Some(RpcReason::StreamClosed)),
                    RealmSessionEvent::Shutdown => ends(Some(RpcReason::ShuttingDown)),
                }
            },
            RealmSessionState::Closed => {
                &&& left == was
                &&& after.plugins() == before.plugins()
                &&& now == prior
                &&& action is Continue
            },
        }
    }

    /// Ends an active session: takes its realm out of the directory, and
    /// answers with `reason`, or, if there is none, with how the removal
    /// went.
    fn finish(&mut self, session: &mut RealmSession, realms: &mut RealmServerList, reason: Option<RpcReason>) -> (action:
        RealmSessionAction)
        requires
            old(self).wf(),
            old(realms).wf(),
            old(session).wf(),
            old(session).spec_state() is Active,
        ensures
            final(self).wf(),
            final(realms).wf(),
            final(session).wf(),
            Self::cleanup(
                *old(self),
                *final(self),
                *old(session),
                *final(session),
                old(realms)@,
                final(realms)@,
                reason,
                action,
            ),
    {
        session.state = RealmSessionState::Closed;
        let removal = match session.registration.realm_id.take() {
            Some(id) => self.remove_realm(realms, id),
            None => Ok(()),
        };
        match reason {
            Some(reason) => RealmSessionAction::Fail(RpcStatus::new(reason)),
            None => match removal {
                Ok(()) => RealmSessionAction::Succeed,
                Err(failure) => RealmSessionAction::Fail(failure),
            },
        }
    }

    /// Takes what happened on the stream of a realm, and says what to do
    /// next. Once the session is over, the realm that it had registered is
    /// not in the directory.
    pub fn handle(&mut self, session: &mut RealmSession, realms: &mut RealmServerList, event: RealmSessionEvent) -> (action:
        RealmSessionAction)
        requires
            old(self).wf(),
            old(realms).wf(),
            old(session).wf(),
        ensures
            final(self).wf(),
            final(realms).wf(),
            final(session).wf(),
            Self::transition(
                *old(self),
                *final(self),
                *old(session),
                *final(session),
                old(realms)@,
                final(realms)@,
                event,
                action,
            ),
            final(session).spec_state() is Closed ==> (old(session).registered() matches Some(id)
                ==> !final(realms)@.contains_key(id)),
            action is Continue <==> !(final(session).spec_state() is Closed) || old(
                session,
            ).spec_state() is Closed,
    {
        match session.state {
            RealmSessionState::Start => {
                let reason = match event {
                    RealmSessionEvent::Frame(params) => match params.kind {
                        Some(RealmParamsKind::Definition(definition)) => {
                            match self.add_realm(realms, definition) {
                                Ok(id) => {
                                    session.state = RealmSessionState::Active;
                                    session.registration.realm_id = Some(id);
                                    return RealmSessionAction::Continue;
                                },
                                Err(failure) => {
                                    session.state = RealmSessionState::Closed;
                                    return RealmSessionAction::Fail(failure);
                                },
                            }
                        },
                        Some(RealmParamsKind::Status(_)) => RpcReason::ExpectedDefinition,
                        None => RpcReason::KindNotSpecified,
                    },
                    RealmSessionEvent::Eof => RpcReason::MissingInput,
                    RealmSessionEvent::TransportError => RpcReason::StreamClosed,
                    RealmSessionEvent::Shutdown => RpcReason::ShuttingDown,
                };
                session.state = RealmSessionState::Closed;
                RealmSessionAction::Fail(RpcStatus::new(reason))
            },
            RealmSessionState::Active => {
                let reason = match event {
                    RealmSessionEvent::Frame(params) => match params.kind {
                        Some(RealmParamsKind::Status(status)) => {
                            let id = match session.registration.realm_id {
                                Some(id) => id,
                                None => 0,
                            };
                            match self.update_realm(realms, id, &status) {
                                Ok(()) => {
                                    return RealmSessionAction::Continue;
                                },
                                Err(failure) => Some(failure.reason),
                            }
                        },
                        Some(RealmParamsKind::Definition(_)) => Some(RpcReason::ExpectedStatus),
                        None => Some(RpcReason::KindNotSpecified),
                    },
                    RealmSessionEvent::Eof => None,
                    RealmSessionEvent::TransportError => Some(RpcReason::StreamClosed),
                    RealmSessionEvent::Shutdown => Some(RpcReason::ShuttingDown),
                };
                self.finish(session, realms, reason)
            },
            RealmSessionState::Closed => RealmSessionAction::Continue,
        }
    }
}

/// Whatever ends the session of a realm: once the session is over, the
/// realm that it had registered is not in the directory.
pub proof fn lemma_closed_session_leaves_no_realm<L: EventListener<RealmEvent>>(
    before: RealmRpc<L>,
    after: RealmRpc<L>,
    prior: RealmSession,
    now: RealmSession,
    was: Map<RealmServerId, RealmView>,
    left: Map<RealmServerId, RealmView>,
    event: RealmSessionEvent,
    action: RealmSessionAction,
    id: RealmServerId,
)
    requires
        prior.wf(),
        RealmRpc::<L>::transition(before, after, prior, now, was, left, event, action),
        prior.registered() == Some(id),
        now.spec_state() is Closed,
    ensures
        !left.contains_key(id),
        now.registered() is None,
{
}

} // verus!
