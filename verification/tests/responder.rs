use mucs::service::connect::net::{
    ClientPacket, ClientPacketResponder, RealmLoad, ServerPacket,
};
use mucs::service::connect::{ClientError, ConnectServiceError, Version};
use mucs::state::{RealmServer, RealmServerList, RealmServerListError};

const VERSION: Version = Version { major: 0, minor: 0, patch: 1 };

fn realm(id: u16, host: &str, port: u16, clients: u32, capacity: u32) -> RealmServer {
    RealmServer { id, host: host.to_string(), port, clients, capacity }
}

#[test]
fn matching_version_is_a_success() {
    let responder = ClientPacketResponder::new(VERSION);
    let realms = RealmServerList::new();
    let request = ClientPacket::ConnectServerRequest { version: VERSION };
    assert_eq!(responder.respond(&realms, &request), Ok(Some(ServerPacket::ConnectServerResult)));
}

#[test]
fn list_with_no_realms_is_empty() {
    let responder = ClientPacketResponder::new(VERSION);
    let realms = RealmServerList::new();
    assert_eq!(
        responder.respond(&realms, &ClientPacket::RealmListRequest),
        Ok(Some(ServerPacket::RealmList(vec![])))
    );
}

#[test]
fn version_mismatch_names_both_versions() {
    let responder = ClientPacketResponder::new(VERSION);
    let realms = RealmServerList::new();
    let has = Version { major: 0, minor: 0, patch: 0 };
    assert_eq!(
        responder.respond(&realms, &ClientPacket::ConnectServerRequest { version: has }),
        Err(ConnectServiceError::Client(ClientError::VersionMismatch { has, expected: VERSION }))
    );
    let other = Version { major: 1, minor: 0, patch: 1 };
    assert!(responder
        .respond(&realms, &ClientPacket::ConnectServerRequest { version: other })
        .is_err());
}

#[test]
fn registered_realm_is_listed_and_found() {
    let responder = ClientPacketResponder::new(VERSION);
    let mut realms = RealmServerList::new();
    assert_eq!(realms.add(realm(7, "10.0.0.1", 55901, 3, 100)), Ok(()));
    assert_eq!(
        responder.respond(&realms, &ClientPacket::RealmListRequest),
        Ok(Some(ServerPacket::RealmList(vec![RealmLoad { id: 7, clients: 3, capacity: 100 }])))
    );
    assert_eq!(
        responder.respond(&realms, &ClientPacket::RealmConnectRequest { id: 7 }),
        Ok(Some(ServerPacket::RealmConnect { host: "10.0.0.1".to_string(), port: 55901 }))
    );
}

#[test]
fn unknown_realm_is_a_realm_state_failure() {
    let responder = ClientPacketResponder::new(VERSION);
    let mut realms = RealmServerList::new();
    assert_eq!(realms.add(realm(7, "10.0.0.1", 55901, 3, 100)), Ok(()));
    assert_eq!(
        responder.respond(&realms, &ClientPacket::RealmConnectRequest { id: 8 }),
        Err(ConnectServiceError::Client(ClientError::RealmState(
            RealmServerListError::InexistentId
        )))
    );
}

#[test]
fn unknown_packet_fails_with_its_footprint() {
    let responder = ClientPacketResponder::new(VERSION);
    let realms = RealmServerList::new();
    let cases: Vec<(Vec<u8>, Vec<u8>)> = vec![
        (vec![], vec![0xc1, 0xf4]),
        (vec![9], vec![0xc1, 0xf4, 9]),
        (vec![9, 8], vec![0xc1, 0xf4, 9, 8]),
        (vec![9, 8, 7, 6], vec![0xc1, 0xf4, 9, 8]),
    ];
    for (data, header) in cases {
        let packet = ClientPacket::Other { kind: 0xc1, code: 0xf4, data };
        assert_eq!(
            responder.respond(&realms, &packet),
            Err(ConnectServiceError::Client(ClientError::UnknownPacket { header }))
        );
    }
}

#[test]
fn unknown_packet_is_passed_over_when_told_so() {
    let mut responder = ClientPacketResponder::new(VERSION);
    responder.set_ignore_unknown_packets(true);
    let realms = RealmServerList::new();
    let packet = ClientPacket::Other { kind: 0xc1, code: 0xf4, data: vec![1, 2, 3] };
    assert_eq!(responder.respond(&realms, &packet), Ok(None));
    responder.set_ignore_unknown_packets(false);
    assert!(responder.respond(&realms, &packet).is_err());
}

#[test]
fn respond_from_takes_the_first_realm_under_an_id() {
    let responder = ClientPacketResponder::new(VERSION);
    let snapshot = vec![
        realm(1, "a", 1, 0, 0),
        realm(2, "b", 2, 1, 2),
        realm(2, "c", 3, 2, 2),
    ];
    assert_eq!(
        responder.respond_from(&snapshot, &ClientPacket::RealmConnectRequest { id: 2 }),
        Ok(Some(ServerPacket::RealmConnect { host: "b".to_string(), port: 2 }))
    );
    assert_eq!(
        responder.respond_from(&snapshot, &ClientPacket::RealmListRequest),
        Ok(Some(ServerPacket::RealmList(vec![
            RealmLoad { id: 1, clients: 0, capacity: 0 },
            RealmLoad { id: 2, clients: 1, capacity: 2 },
            RealmLoad { id: 2, clients: 2, capacity: 2 },
        ])))
    );
}

#[test]
fn same_packet_and_snapshot_give_the_same_answer() {
    let responder = ClientPacketResponder::new(VERSION);
    let snapshot = vec![realm(4, "x", 9, 5, 6), realm(1, "y", 8, 0, 1)];
    let packets = vec![
        ClientPacket::ConnectServerRequest { version: VERSION },
        ClientPacket::RealmConnectRequest { id: 4 },
        ClientPacket::RealmConnectRequest { id: 5 },
        ClientPacket::RealmListRequest,
        ClientPacket::Other { kind: 1, code: 2, data: vec![3] },
    ];
    for packet in &packets {
        assert_eq!(
            responder.respond_from(&snapshot, packet),
            responder.respond_from(&snapshot, packet)
        );
    }
}
