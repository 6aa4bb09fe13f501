//! The answer of the server to each packet of a game client.

use crate::service::connect::error::{ClientError, ConnectServiceError, Result, Version};
use crate::service::connect::net::{ClientPacket, RealmLoad, ServerPacket};
use crate::state::realm::{
    lists_realms, RealmServer, RealmServerId, RealmServerList, RealmServerListError, RealmView,
};
use vstd::prelude::*;

verus! {

/// What the server does with a packet: the packet it sends back, nothing, or
/// the failure that ends the session.
pub enum Reply {
    /// Send that the versions match.
    Success,
    /// Send where to reach the realm.
    Connect { host: Seq<char>, port: u16 },
    /// Send the realms and their load.
    List(Seq<RealmLoad>),
    /// Send nothing.
    Ignored,
    /// Fail: the client speaks another version.
    VersionMismatch { has: Version, expected: Version },
    /// Fail: the directory does not hold the realm.
    RealmState(RealmServerListError),
    /// Fail: the packet is none that the server knows.
    UnknownPacket { header: Seq<u8> },
}

/// Whether `result` is what `reply` asks for.
pub open spec fn carries_out(result: Result<Option<ServerPacket>>, reply: Reply) -> bool {
    match reply {
        Reply::Success => result == Ok::<_, ConnectServiceError>(
            Some(ServerPacket::ConnectServerResult),
        ),
        Reply::Connect { host, port } => result matches Ok(
            Some(ServerPacket::RealmConnect { host: sent_host, port: sent_port }),
        ) && sent_host@ == host && sent_port == port,
        Reply::List(loads) => result matches Ok(Some(ServerPacket::RealmList(sent)))
            && sent@ == loads,
        Reply::Ignored => result == Ok::<Option<ServerPacket>, ConnectServiceError>(None),
        Reply::VersionMismatch { has, expected } => result == Err::<Option<ServerPacket>, _>(
            ConnectServiceError::Client(ClientError::VersionMismatch { has, expected }),
        ),
        Reply::RealmState(cause) => result == Err::<Option<ServerPacket>, _>(
            ConnectServiceError::Client(ClientError::RealmState(cause)),
        ),
        Reply::UnknownPacket { header } => result matches Err(
            ConnectServiceError::Client(ClientError::UnknownPacket { header: named }),
        ) && named@ == header,
    }
}

/// The footprint of a packet that the server does not know: its kind byte,
/// its code byte, and the first two bytes of its data, as far as it has them.
pub open spec fn footprint(kind: u8, code: u8, data: Seq<u8>) -> Seq<u8> {
    seq![kind, code] + data.take(if data.len() < 2 { data.len() as int } else { 2 })
}

/// The load of `realm`.
pub open spec fn load_of(realm: RealmView) -> RealmLoad {
    RealmLoad { id: realm.id, clients: realm.clients, capacity: realm.capacity }
}

/// The position of the first realm of `snapshot` under `id`, or its length.
pub open spec fn first_under(snapshot: Seq<RealmServer>, id: RealmServerId) -> int
    decreases snapshot.len(),
{
    if snapshot.len() == 0 {
        0
    } else if snapshot[0].id == id {
        0
    } else {
        1 + first_under(snapshot.drop_first(), id)
    }
}

/// The answer to `packet` of a server that speaks `version`, over the realms
/// of `snapshot`.
pub open spec fn reply_to(
    version: Version,
    ignore_unknown_packets: bool,
    packet: ClientPacket,
    snapshot: Seq<RealmServer>,
) -> Reply {
    match packet {
        ClientPacket::ConnectServerRequest { version: has } => if has == version {
            Reply::Success
        } else {
            Reply::VersionMismatch { has, expected: version }
        },
        ClientPacket::RealmConnectRequest { id } => {
            let at = first_under(snapshot, id);
            if at < snapshot.len() {
                Reply::Connect { host: snapshot[at].host@, port: snapshot[at].port }
            } else {
                Reply::RealmState(RealmServerListError::InexistentId)
            }
        },
        ClientPacket::RealmListRequest => Reply::List(
            Seq::new(snapshot.len(), |i: int| load_of(snapshot[i]@)),
        ),
        ClientPacket::Other { kind, code, data } => if ignore_unknown_packets {
            Reply::Ignored
        } else {
            Reply::UnknownPacket { header: footprint(kind, code, data@) }
        },
    }
}

/// `first_under` finds the realm under `id` where there is one.
pub proof fn lemma_first_under(snapshot: Seq<RealmServer>, id: RealmServerId)
    ensures
        0 <= first_under(snapshot, id) <= snapshot.len(),
        first_under(snapshot, id) < snapshot.len() ==> snapshot[first_under(snapshot, id)].id == id,
        forall|i: int| 0 <= i < first_under(snapshot, id) ==> snapshot[i].id != id,
    decreases snapshot.len(),
{
    if snapshot.len() > 0 && snapshot[0].id != id {
        let rest = snapshot.drop_first();
        lemma_first_under(rest, id);
        assert forall|i: int| 0 <= i < first_under(snapshot, id) implies snapshot[i].id != id by {
            if i > 0 {
                assert(rest[i - 1] == snapshot[i]);
            }
        }
    }
}

/// Answers the packets of game clients from the realm directory.
pub struct ClientPacketResponder {
    ignore_unknown_packets: bool,
    version: Version,
}

impl ClientPacketResponder {
    /// The protocol version that the server speaks.
    pub closed spec fn version(&self) -> Version {
        self.version
    }

    /// Whether a packet that the server does not know is passed over.
    pub closed spec fn ignores_unknown_packets(&self) -> bool {
        self.ignore_unknown_packets
    }

    /// A responder that speaks `version` and fails on unknown packets.
    pub fn new(version: Version) -> (responder: Self)
        ensures
            responder.version() == version,
            !responder.ignores_unknown_packets(),
    {
        ClientPacketResponder { ignore_unknown_packets: false, version }
    }

    pub fn set_ignore_unknown_packets(&mut self, value: bool)
        ensures
            final(self).ignores_unknown_packets() == value,
            final(self).version() == old(self).version(),
    {
        self.ignore_unknown_packets = value;
    }

    /// The answer to `packet` over the realms of `snapshot`.
    pub fn respond_from(&self, snapshot: &Vec<RealmServer>, packet: &ClientPacket) -> (result:
        Result<Option<ServerPacket>>)
        ensures
            carries_out(
                result,
                reply_to(self.version(), self.ignores_unknown_packets(), *packet, snapshot@),
            ),
    {
        match packet {
            ClientPacket::ConnectServerRequest { version } => {
                if version.major == self.version.major && version.minor == self.version.minor
                    && version.patch == self.version.patch {
                    Ok(Some(ServerPacket::ConnectServerResult))
                } else {
                    Err(
                        ConnectServiceError::Client(
                            ClientError::VersionMismatch { has: *version, expected: self.version },
                        ),
                    )
                }
            },
            ClientPacket::RealmConnectRequest { id } => {
                let mut i: usize = 0;
                while i < snapshot.len()
                    invariant
                        i <= snapshot.len(),
                        *packet == (ClientPacket::RealmConnectRequest { id: *id }),
                        forall|k: int| 0 <= k < i ==> snapshot[k].id != *id,
                    decreases snapshot.len() - i,
                {
                    if snapshot[i].id == *id {
                        proof {
                            lemma_first_under(snapshot@, *id);
                            let at = first_under(snapshot@, *id);
                            if at > i {
                                assert(snapshot@[i as int].id != *id);
                            }
                            if at < i {
                                assert(snapshot@[at].id == *id);
                            }
                        }
                        return Ok(
                            Some(
                                ServerPacket::RealmConnect {
                                    host: snapshot[i].host.clone(),
                                    port: snapshot[i].port,
                                },
                            ),
                        );
                    }
                    i += 1;
                }
                proof {
                    lemma_first_under(snapshot@, *id);
                    let at = first_under(snapshot@, *id);
                    if at < snapshot.len() {
                        assert(snapshot@[at].id == *id);
                    }
                }
                Err(
                    ConnectServiceError::Client(
                        ClientError::RealmState(RealmServerListError::InexistentId),
                    ),
                )
            },
            ClientPacket::RealmListRequest => {
                let mut list: Vec<RealmLoad> = Vec::with_capacity(snapshot.len());
                let mut i: usize = 0;
                while i < snapshot.len()
                    invariant
                        i <= snapshot.len(),
                        list.len() == i,
                        forall|k: int| 0 <= k < i ==> list[k] == load_of(snapshot[k]@),
                    decreases snapshot.len() - i,
                {
                    let realm = &snapshot[i];
                    list.push(
                        RealmLoad { id: realm.id, clients: realm.clients, capacity: realm.capacity },
                    );
                    i += 1;
                }
                assert(list@ =~= Seq::new(snapshot@.len(), |i: int| load_of(snapshot@[i]@)));
                Ok(Some(ServerPacket::RealmList(list)))
            },
            ClientPacket::Other { kind, code, data } => {
                if self.ignore_unknown_packets {
                    Ok(None)
                } else {
                    let mut header: Vec<u8> = Vec::new();
                    header.push(*kind);
                    header.push(*code);
                    if data.len() > 0 {
                        header.push(data[0]);
                    }
                    if data.len() > 1 {
                        header.push(data[1]);
                    }
                    assert(header@ =~= footprint(*kind, *code, data@));
                    Err(ConnectServiceError::Client(ClientError::UnknownPacket { header }))
                }
            },
        }
    }

    /// Whether `result` answers `packet` over the realms of `realms`, walked
    /// in some order.
    pub open spec fn answers(
        &self,
        realms: Map<RealmServerId, RealmView>,
        packet: ClientPacket,
        result: Result<Option<ServerPacket>>,
    ) -> bool {
        exists|snapshot: Seq<RealmServer>|
            lists_realms(snapshot, realms) && carries_out(
                result,
                #[trigger] reply_to(
                    self.version(),
                    self.ignores_unknown_packets(),
                    packet,
                    snapshot,
                ),
            )
    }

    /// The answer to `packet` over the realms that `realms` holds now.
    pub fn respond(&self, realms: &RealmServerList, packet: &ClientPacket) -> (result: Result<
        Option<ServerPacket>,
    >)
        requires
            realms.wf(),
        ensures
            self.answers(realms@, *packet, result),
    {
        let snapshot = realms.entries();
        self.respond_from(&snapshot, packet)
    }
}

/// Whether two results hold the same: the same packet, no packet, or the
/// same failure.
pub open spec fn same_result(a: Result<Option<ServerPacket>>, b: Result<Option<ServerPacket>>) -> bool {
    match (a, b) {
        (Ok(None), Ok(None)) => true,
        (Ok(Some(ServerPacket::ConnectServerResult)), Ok(Some(ServerPacket::ConnectServerResult))) => true,
        (
            Ok(Some(ServerPacket::RealmConnect { host: host_a, port: port_a })),
            Ok(Some(ServerPacket::RealmConnect { host: host_b, port: port_b })),
        ) => host_a@ == host_b@ && port_a == port_b,
        (Ok(Some(ServerPacket::RealmList(list_a))), Ok(Some(ServerPacket::RealmList(list_b)))) => list_a@
            == list_b@,
        (
            Err(ConnectServiceError::Client(ClientError::UnknownPacket { header: header_a })),
            Err(ConnectServiceError::Client(ClientError::UnknownPacket { header: header_b })),
        ) => header_a@ == header_b@,
        (Err(failure_a), Err(failure_b)) => failure_a == failure_b,
        _ => false,
    }
}

/// Answering is pure: two answers to the same packet, over the same
/// snapshot of the realms, by responders that speak the same version and
/// treat unknown packets alike, hold the same.
pub proof fn lemma_respond_is_pure(
    version: Version,
    ignore_unknown_packets: bool,
    packet: ClientPacket,
    snapshot: Seq<RealmServer>,
    first: Result<Option<ServerPacket>>,
    second: Result<Option<ServerPacket>>,
)
    requires
        carries_out(first, reply_to(version, ignore_unknown_packets, packet, snapshot)),
        carries_out(second, reply_to(version, ignore_unknown_packets, packet, snapshot)),
    ensures
        same_result(first, second),
{
}

} // verus!
