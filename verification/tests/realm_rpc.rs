use mucs::service::rpc::proto::{
    DefinitionError, RealmDefinition, RealmParams, RealmParamsKind, RealmStatus,
};
use mucs::service::rpc::realm::{
    RealmEventLogger, RealmRpc, RealmSession, RealmSessionAction, RealmSessionEvent,
    RealmSessionState, RpcReason, RpcStatus, RpcStatusCode,
};
use mucs::service::rpc::{serve, served, RpcServiceError};
use mucs::state::{RealmServer, RealmServerList, RealmServerListError};

fn definition(id: u32, port: u32, clients: u32, capacity: u32) -> RealmDefinition {
    RealmDefinition {
        id,
        host: "10.0.0.1".to_string(),
        port,
        status: RealmStatus { clients, capacity },
    }
}

fn define(id: u32) -> RealmSessionEvent {
    RealmSessionEvent::Frame(RealmParams {
        kind: Some(RealmParamsKind::Definition(definition(id, 55901, 3, 100))),
    })
}

fn status(clients: u32, capacity: u32) -> RealmSessionEvent {
    RealmSessionEvent::Frame(RealmParams {
        kind: Some(RealmParamsKind::Status(RealmStatus { clients, capacity })),
    })
}

fn fail(code: RpcStatusCode, reason: RpcReason) -> RealmSessionAction {
    RealmSessionAction::Fail(RpcStatus { code, reason })
}

#[test]
fn definition_must_fit_a_realm() {
    assert_eq!(
        RealmServer::try_from(definition(7, 55901, 3, 100)),
        Ok(RealmServer {
            id: 7,
            host: "10.0.0.1".to_string(),
            port: 55901,
            clients: 3,
            capacity: 100
        })
    );
    assert!(RealmServer::try_from(definition(0xffff, 0xffff, 5, 5)).is_ok());
    assert_eq!(RealmServer::try_from(definition(0x1_0000, 1, 0, 0)), Err(DefinitionError::InvalidId));
    assert_eq!(
        RealmServer::try_from(definition(1, 0x1_0000, 0, 0)),
        Err(DefinitionError::InvalidPort)
    );
    assert_eq!(RealmServer::try_from(definition(1, 1, 2, 1)), Err(DefinitionError::InvalidCapacity));
    // The identifier is looked at first, then the port, then the load.
    assert_eq!(
        RealmServer::try_from(definition(0x1_0000, 0x1_0000, 2, 1)),
        Err(DefinitionError::InvalidId)
    );
    assert_eq!(
        RealmServer::try_from(definition(1, 0x1_0000, 2, 1)),
        Err(DefinitionError::InvalidPort)
    );
}

#[test]
fn status_codes_go_with_reasons() {
    assert_eq!(RpcReason::StreamClosed.code(), RpcStatusCode::Aborted);
    assert_eq!(RpcReason::MissingInput.code(), RpcStatusCode::Cancelled);
    assert_eq!(RpcReason::KindNotSpecified.code(), RpcStatusCode::InvalidArgument);
    assert_eq!(RpcReason::ExpectedDefinition.code(), RpcStatusCode::InvalidArgument);
    assert_eq!(
        RpcReason::InvalidDefinition(DefinitionError::InvalidId).code(),
        RpcStatusCode::InvalidArgument
    );
    assert_eq!(RpcReason::DuplicateRealm.code(), RpcStatusCode::InvalidArgument);
    assert_eq!(RpcReason::ExpectedStatus.code(), RpcStatusCode::InvalidArgument);
    assert_eq!(RpcReason::InvalidStatus.code(), RpcStatusCode::InvalidArgument);
    assert_eq!(RpcReason::UpdateFailed.code(), RpcStatusCode::Internal);
    assert_eq!(RpcReason::DeregisterFailed.code(), RpcStatusCode::Internal);
    assert_eq!(RpcReason::ShuttingDown.code(), RpcStatusCode::Unavailable);
    assert_eq!(
        RpcStatus::new(RpcReason::ShuttingDown),
        RpcStatus { code: RpcStatusCode::Unavailable, reason: RpcReason::ShuttingDown }
    );
}

#[test]
fn register_update_and_leave() {
    let mut rpc = serve();
    let mut realms = RealmServerList::new();
    let mut session = RealmSession::new();
    assert_eq!(session.state(), RealmSessionState::Start);
    assert_eq!(rpc.handle(&mut session, &mut realms, define(7)), RealmSessionAction::Continue);
    assert_eq!(session.state(), RealmSessionState::Active);
    assert_eq!(realms.get(7).map(|realm| (realm.clients, realm.capacity)), Ok((3, 100)));
    assert_eq!(rpc.handle(&mut session, &mut realms, status(40, 50)), RealmSessionAction::Continue);
    assert_eq!(
        realms.get(7),
        Ok(RealmServer {
            id: 7,
            host: "10.0.0.1".to_string(),
            port: 55901,
            clients: 40,
            capacity: 50
        })
    );
    assert_eq!(rpc.handle(&mut session, &mut realms, RealmSessionEvent::Eof), RealmSessionAction::Succeed);
    assert_eq!(session.state(), RealmSessionState::Closed);
    assert_eq!(realms.get(7), Err(RealmServerListError::InexistentId));
    assert_eq!(realms.len(), 0);
}

#[test]
fn duplicate_realm() {
    let mut rpc = serve();
    let mut realms = RealmServerList::new();
    let mut first = RealmSession::new();
    let mut second = RealmSession::new();
    assert_eq!(rpc.handle(&mut first, &mut realms, define(1)), RealmSessionAction::Continue);
    assert_eq!(
        rpc.handle(&mut second, &mut realms, define(1)),
        fail(RpcStatusCode::InvalidArgument, RpcReason::DuplicateRealm)
    );
    assert_eq!(second.state(), RealmSessionState::Closed);
    assert_eq!(realms.len(), 1);
    assert!(realms.get(1).is_ok());
    // The second session is over and takes nothing of the first with it.
    assert_eq!(rpc.handle(&mut second, &mut realms, RealmSessionEvent::Eof), RealmSessionAction::Continue);
    assert_eq!(realms.len(), 1);
    assert_eq!(rpc.handle(&mut first, &mut realms, RealmSessionEvent::Eof), RealmSessionAction::Succeed);
    assert_eq!(realms.len(), 0);
}

#[test]
fn the_first_frame_must_be_a_valid_definition() {
    let mut rpc: RealmRpc<RealmEventLogger> = RealmRpc::new();
    let mut realms = RealmServerList::new();
    let cases = vec![
        (status(1, 2), fail(RpcStatusCode::InvalidArgument, RpcReason::ExpectedDefinition)),
        (
            RealmSessionEvent::Frame(RealmParams { kind: None }),
            fail(RpcStatusCode::InvalidArgument, RpcReason::KindNotSpecified),
        ),
        (
            RealmSessionEvent::Frame(RealmParams {
                kind: Some(RealmParamsKind::Definition(definition(70000, 1, 0, 0))),
            }),
            fail(
                RpcStatusCode::InvalidArgument,
                RpcReason::InvalidDefinition(DefinitionError::InvalidId),
            ),
        ),
        (
            RealmSessionEvent::Frame(RealmParams {
                kind: Some(RealmParamsKind::Definition(definition(1, 1, 9, 8))),
            }),
            fail(
                RpcStatusCode::InvalidArgument,
                RpcReason::InvalidDefinition(DefinitionError::InvalidCapacity),
            ),
        ),
        (RealmSessionEvent::Eof, fail(RpcStatusCode::Cancelled, RpcReason::MissingInput)),
        (RealmSessionEvent::TransportError, fail(RpcStatusCode::Aborted, RpcReason::StreamClosed)),
        (RealmSessionEvent::Shutdown, fail(RpcStatusCode::Unavailable, RpcReason::ShuttingDown)),
    ];
    for (event, expected) in cases {
        let mut session = RealmSession::new();
        assert_eq!(rpc.handle(&mut session, &mut realms, event), expected);
        assert_eq!(session.state(), RealmSessionState::Closed);
        assert_eq!(realms.len(), 0);
    }
}

#[test]
fn whatever_ends_an_active_session_removes_its_realm() {
    let cases = vec![
        (define(9), fail(RpcStatusCode::InvalidArgument, RpcReason::ExpectedStatus)),
        (
            RealmSessionEvent::Frame(RealmParams { kind: None }),
            fail(RpcStatusCode::InvalidArgument, RpcReason::KindNotSpecified),
        ),
        (status(5, 4), fail(RpcStatusCode::InvalidArgument, RpcReason::InvalidStatus)),
        (RealmSessionEvent::TransportError, fail(RpcStatusCode::Aborted, RpcReason::StreamClosed)),
        (RealmSessionEvent::Shutdown, fail(RpcStatusCode::Unavailable, RpcReason::ShuttingDown)),
        (RealmSessionEvent::Eof, RealmSessionAction::Succeed),
    ];
    for (event, expected) in cases {
        let mut rpc = serve();
        let mut realms = RealmServerList::new();
        let mut session = RealmSession::new();
        let mut other = RealmSession::new();
        assert_eq!(rpc.handle(&mut session, &mut realms, define(7)), RealmSessionAction::Continue);
        assert_eq!(rpc.handle(&mut other, &mut realms, define(8)), RealmSessionAction::Continue);
        assert_eq!(rpc.handle(&mut session, &mut realms, event), expected);
        assert_eq!(session.state(), RealmSessionState::Closed);
        assert_eq!(realms.get(7), Err(RealmServerListError::InexistentId));
        assert!(realms.get(8).is_ok());
    }
}

#[test]
fn a_realm_that_is_gone_fails_the_update_and_the_removal() {
    let mut rpc = serve();
    let mut realms = RealmServerList::new();
    let mut session = RealmSession::new();
    assert_eq!(rpc.handle(&mut session, &mut realms, define(7)), RealmSessionAction::Continue);
    assert!(realms.remove(7).is_ok());
    assert_eq!(
        rpc.handle(&mut session, &mut realms, status(1, 2)),
        fail(RpcStatusCode::Internal, RpcReason::UpdateFailed)
    );
    let mut session = RealmSession::new();
    assert_eq!(rpc.handle(&mut session, &mut realms, define(7)), RealmSessionAction::Continue);
    assert!(realms.remove(7).is_ok());
    assert_eq!(
        rpc.handle(&mut session, &mut realms, RealmSessionEvent::Eof),
        fail(RpcStatusCode::Internal, RpcReason::DeregisterFailed)
    );
}

#[test]
fn add_update_remove_answer_as_the_session_does() {
    let mut rpc = serve();
    let mut realms = RealmServerList::new();
    assert_eq!(rpc.add_realm(&mut realms, definition(3, 4, 1, 2)), Ok(3));
    assert_eq!(
        rpc.add_realm(&mut realms, definition(3, 4, 1, 2)),
        Err(RpcStatus::new(RpcReason::DuplicateRealm))
    );
    assert_eq!(rpc.update_realm(&mut realms, 3, &RealmStatus { clients: 2, capacity: 2 }), Ok(()));
    assert_eq!(
        rpc.update_realm(&mut realms, 3, &RealmStatus { clients: 3, capacity: 2 }),
        Err(RpcStatus::new(RpcReason::InvalidStatus))
    );
    assert_eq!(
        rpc.update_realm(&mut realms, 4, &RealmStatus { clients: 1, capacity: 2 }),
        Err(RpcStatus::new(RpcReason::UpdateFailed))
    );
    assert_eq!(realms.get(3).map(|realm| realm.clients), Ok(2));
    assert_eq!(rpc.remove_realm(&mut realms, 3), Ok(()));
    assert_eq!(rpc.remove_realm(&mut realms, 3), Err(RpcStatus::new(RpcReason::DeregisterFailed)));
    rpc.report("sink closed".to_string());
}

#[test]
fn the_run_of_the_plane_fails_by_shutdown_first() {
    assert_eq!(served::<u8>(true, Ok(())), Ok(()));
    assert_eq!(served::<u8>(false, Ok(())), Err(RpcServiceError::CloseSignalAborted));
    assert_eq!(served(true, Err(4u8)), Err(RpcServiceError::ShutdownFailure(4)));
    assert_eq!(served(false, Err(4u8)), Err(RpcServiceError::ShutdownFailure(4)));
    assert_ne!(served(true, Err(4u8)), Err(RpcServiceError::BuildFailure(4)));
}
