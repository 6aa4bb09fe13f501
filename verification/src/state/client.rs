//! Client sessions that the server has admitted, under a cap on their number
//! and a cap on how many may come from one address.

use crate::service::connect::error::ClientPoolError;
use crate::util::event::{dispatched, EventHandler, EventListener};
use crate::util::idxpool::IndexPool;
use chashmap::CHashMap;
use vstd::prelude::*;
use vstd::set_lib::lemma_set_subset_finite;

verus! {

/// An IPv4 address, as the number that its four octets spell, first octet
/// highest.
pub type Ipv4 = u32;

/// The IPv4 socket of a peer.
#[derive(Debug, Clone, Copy, PartialEq, Eq, Hash, Structural)]
pub struct Ipv4Socket {
    pub ip: Ipv4,
    pub port: u16,
}

impl Ipv4Socket {
    pub fn new(ip: Ipv4, port: u16) -> (socket: Self)
        ensures
            socket == (Ipv4Socket { ip, port }),
    {
        Ipv4Socket { ip, port }
    }
}

/// An IP address of either version, as the number that its octets spell.
#[derive(Debug, Clone, Copy, PartialEq, Eq, Hash, Structural)]
pub enum IpAddress {
    V4(Ipv4),
    V6(u128),
}

/// A socket address of either version.
#[derive(Debug, Clone, Copy, PartialEq, Eq, Hash, Structural)]
pub struct SocketAddress {
    pub ip: IpAddress,
    pub port: u16,
}

impl SocketAddress {
    pub fn new(ip: IpAddress, port: u16) -> (socket: Self)
        ensures
            socket == (SocketAddress { ip, port }),
    {
        SocketAddress { ip, port }
    }

    /// The socket as an IPv4 socket, where it is one.
    pub open spec fn spec_v4(&self) -> Option<Ipv4Socket> {
        match self.ip {
            IpAddress::V4(ip) => Some(Ipv4Socket { ip, port: self.port }),
            IpAddress::V6(_) => None,
        }
    }

    /// The socket as an IPv4 socket, where it is one.
    #[verifier::when_used_as_spec(spec_v4)]
    pub fn v4(&self) -> (socket: Option<Ipv4Socket>)
        ensures
            socket == self.spec_v4(),
    {
        match self.ip {
            IpAddress::V4(ip) => Some(Ipv4Socket { ip, port: self.port }),
            IpAddress::V6(_) => None,
        }
    }
}

/// The identifier of an admitted client.
pub type ClientId = u32;

/// An admitted client.
#[derive(Debug, Clone, Copy, PartialEq, Eq, Hash, Structural)]
pub struct Client {
    id: ClientId,
    socket: Ipv4Socket,
}

impl Client {
    pub closed spec fn spec_id(&self) -> ClientId {
        self.id
    }

    pub closed spec fn spec_socket(&self) -> Ipv4Socket {
        self.socket
    }

    pub fn new(id: ClientId, socket: Ipv4Socket) -> (client: Self)
        ensures
            client.spec_id() == id,
            client.spec_socket() == socket,
    {
        Client { id, socket }
    }

    #[verifier::when_used_as_spec(spec_id)]
    pub fn id(&self) -> (id: ClientId)
        ensures
            id == self.spec_id(),
    {
        self.id
    }

    #[verifier::when_used_as_spec(spec_socket)]
    pub fn socket(&self) -> (socket: Ipv4Socket)
        ensures
            socket == self.spec_socket(),
    {
        self.socket
    }
}

/// The clients that a client map holds, each under its key.
pub uninterp spec fn client_entries(map: CHashMap<ClientId, Client>) -> Map<ClientId, Client>;

/// No client at all.
pub open spec fn no_clients() -> Map<ClientId, Client> {
    Map::empty()
}

/// `walk` lists the clients of `clients`: every pair of it is an entry,
/// every entry is among its pairs, and no key comes twice.
pub open spec fn lists_clients(walk: Seq<(ClientId, Client)>, clients: Map<ClientId, Client>) -> bool {
    &&& forall|i: int|
        0 <= i < walk.len() ==> clients.contains_key(#[trigger] walk[i].0) && clients[walk[i].0]
            == walk[i].1
    &&& forall|id: ClientId| #[trigger]
        clients.contains_key(id) ==> exists|i: int| 0 <= i < walk.len() && #[trigger] walk[i].0 == id
    &&& forall|i: int, j: int| 0 <= i < j < walk.len() ==> #[trigger] walk[i].0 != #[trigger] walk[j].0
}

/// `CHashMap::new`: a map without entries.
#[verifier::external_body]
fn clients_new() -> (fresh: CHashMap<ClientId, Client>)
    ensures
        client_entries(fresh) == no_clients(),
{
    CHashMap::new()
}

/// `CHashMap::insert`: puts `client` under `id`, in place of the entry that
/// was there if there was one, and hands that entry back.
#[verifier::external_body]
fn clients_insert(map: &mut CHashMap<ClientId, Client>, id: ClientId, client: Client) -> (previous:
    Option<Client>)
    ensures
        client_entries(*final(map)) == client_entries(*old(map)).insert(id, client),
        previous is Some <==> client_entries(*old(map)).contains_key(id),
        previous matches Some(entry) ==> entry == client_entries(*old(map))[id],
{
    map.insert(id, client)
}

/// Whether an entry under `key` stays when the one under `id` is dropped.
fn stays(key: &ClientId, id: ClientId) -> (kept: bool)
    ensures
        kept == (*key != id),
{
    *key != id
}

/// `CHashMap::retain` with [`stays`]: takes out the entry under `id`, if there
/// is one, and leaves every other entry as it was.
#[verifier::external_body]
fn clients_drop(map: &mut CHashMap<ClientId, Client>, id: ClientId)
    ensures
        client_entries(*final(map)) == client_entries(*old(map)).remove(id),
{
    map.retain(|key, _| stays(key, id))
}

/// `CHashMap::clone` and `CHashMap::into_iter`: hands out each entry of a
/// copy of the map once, as its key and its value, in the order of the map's
/// own making. The map is not changed.
#[verifier::external_body]
fn clients_walk(map: &CHashMap<ClientId, Client>) -> (walk: Vec<(ClientId, Client)>)
    ensures
        lists_clients(walk@, client_entries(*map)),
{
    map.clone().into_iter().collect()
}

/// The identifiers of the clients of `clients` that come from `ip`.
pub open spec fn clients_at(clients: Map<ClientId, Client>, ip: Ipv4) -> Set<ClientId> {
    clients.dom().filter(|id: ClientId| clients[id].spec_socket().ip == ip)
}

/// How many of the pairs of `walk` come from `ip`.
pub open spec fn walk_count(walk: Seq<(ClientId, Client)>, ip: Ipv4) -> nat
    decreases walk.len(),
{
    if walk.len() == 0 {
        0
    } else {
        walk_count(walk.drop_last(), ip) + if walk.last().1.spec_socket().ip == ip {
            1nat
        } else {
            0nat
        }
    }
}

/// A new client adds one to the count of its own address and nothing to
/// that of any other.
pub proof fn lemma_clients_at_insert(
    clients: Map<ClientId, Client>,
    id: ClientId,
    client: Client,
    ip: Ipv4,
)
    requires
        clients.dom().finite(),
        !clients.contains_key(id),
    ensures
        clients_at(clients, ip).finite(),
        clients_at(clients.insert(id, client), ip).finite(),
        clients_at(clients.insert(id, client), ip).len() == clients_at(clients, ip).len() + if client.spec_socket().ip
            == ip {
            1nat
        } else {
            0nat
        },
{
    let before = clients_at(clients, ip);
    let after = clients_at(clients.insert(id, client), ip);
    lemma_set_subset_finite(clients.dom(), before);
    if client.spec_socket().ip == ip {
        assert(after =~= before.insert(id));
    } else {
        assert(after =~= before);
    }
}

/// A client that leaves takes one off the count of its own address and
/// nothing off that of any other.
pub proof fn lemma_clients_at_remove(clients: Map<ClientId, Client>, id: ClientId, ip: Ipv4)
    requires
        clients.dom().finite(),
        clients.contains_key(id),
    ensures
        clients_at(clients, ip).finite(),
        clients_at(clients.remove(id), ip).finite(),
        clients_at(clients, ip).len() == clients_at(clients.remove(id), ip).len() + if clients[id].spec_socket().ip
            == ip {
            1nat
        } else {
            0nat
        },
{
    let before = clients_at(clients, ip);
    let after = clients_at(clients.remove(id), ip);
    lemma_set_subset_finite(clients.dom(), before);
    if clients[id].spec_socket().ip == ip {
        assert(after =~= before.remove(id));
    } else {
        assert(after =~= before);
    }
}

/// A walk over the clients counts, for each address, the clients from it.
pub proof fn lemma_walk_count(walk: Seq<(ClientId, Client)>, clients: Map<ClientId, Client>, ip: Ipv4)
    requires
        clients.dom().finite(),
        lists_clients(walk, clients),
    ensures
        walk_count(walk, ip) == clients_at(clients, ip).len(),
    decreases walk.len(),
{
    if walk.len() == 0 {
        assert(clients_at(clients, ip) =~= Set::empty());
    } else {
        let last = walk.last();
        let rest = walk.drop_last();
        let fewer = clients.remove(last.0);
        assert(clients.contains_key(walk[walk.len() - 1].0));
        assert forall|i: int| 0 <= i < rest.len() implies fewer.contains_key(#[trigger] rest[i].0)
            && fewer[rest[i].0] == rest[i].1 by {
            assert(rest[i] == walk[i]);
            assert(clients.contains_key(walk[i].0));
        }
        assert forall|id: ClientId| #[trigger] fewer.contains_key(id) implies exists|i: int|
            0 <= i < rest.len() && #[trigger] rest[i].0 == id by {
            assert(clients.contains_key(id));
            let i = choose|i: int| 0 <= i < walk.len() && #[trigger] walk[i].0 == id;
            assert(rest[i] == walk[i]);
        }
        assert forall|i: int, j: int| 0 <= i < j < rest.len() implies #[trigger] rest[i].0
            != #[trigger] rest[j].0 by {
            assert(rest[i] == walk[i] && rest[j] == walk[j]);
        }
        lemma_walk_count(rest, fewer, ip);
        lemma_clients_at_remove(clients, last.0, ip);
    }
}

/// The place of the entry under `id` in `walk`, if it has one.
fn position(walk: &Vec<(ClientId, Client)>, id: ClientId) -> (found: Option<usize>)
    ensures
        found matches Some(i) ==> i < walk.len() && walk[i as int].0 == id,
        found is None ==> forall|i: int| 0 <= i < walk.len() ==> walk[i].0 != id,
{
    let mut i: usize = 0;
    while i < walk.len()
        invariant
            i <= walk.len(),
            forall|k: int| 0 <= k < i ==> walk[k].0 != id,
        decreases walk.len() - i,
    {
        if walk[i].0 == id {
            return Some(i);
        }
        i += 1;
    }
    None
}

/// What holds an admitted client's place in the pool. It is handed out by
/// [`ClientPool::add`] and taken back by [`ClientPool::release`], once.
#[derive(Debug)]
pub struct ClientHandle {
    id: ClientId,
}

impl ClientHandle {
    pub closed spec fn spec_id(&self) -> ClientId {
        self.id
    }

    #[verifier::when_used_as_spec(spec_id)]
    pub fn id(&self) -> (id: ClientId)
        ensures
            id == self.spec_id(),
    {
        self.id
    }
}

/// What the pool tells its listeners.
#[derive(Debug, Clone, Copy, PartialEq, Eq, Structural)]
pub enum ClientNotice {
    /// The client has got a place in the pool.
    Connect(Client),
    /// The client has given its place back.
    Disconnect(Client),
}

/// A listener of the pool.
pub trait ClientListener: EventListener<ClientNotice> {

}

/// The listener states after the dispatch of `notice` to listeners in
/// `listeners`.
pub open spec fn noticed<O: EventListener<ClientNotice>>(listeners: Seq<O::V>, notice: ClientNotice) -> Seq<
    O::V,
> {
    dispatched::<ClientNotice, O>(listeners, notice, listeners.len()).states
}

/// The admitted clients.
pub struct ClientPool<O: EventListener<ClientNotice>> {
    dispatcher: EventHandler<ClientNotice, O>,
    clients: CHashMap<ClientId, Client>,
    pool: IndexPool,
    capacity_per_ip: u32,
}

impl<O: EventListener<ClientNotice>> View for ClientPool<O> {
    type V = Map<ClientId, Client>;

    closed spec fn view(&self) -> Map<ClientId, Client> {
        client_entries(self.clients)
    }
}

impl<O: EventListener<ClientNotice>> ClientPool<O> {
    /// The states of the listeners, in the order in which they subscribed.
    pub closed spec fn listeners(&self) -> Seq<O::V> {
        self.dispatcher@
    }

    /// The identifier that the next client gets, if there is room for it:
    /// the one that was given back last, or else the next new one.
    pub closed spec fn next_id(&self) -> ClientId {
        if self.pool.returned().len() > 0 {
            self.pool.returned().last()
        } else {
            (self.pool.made() + 1) as ClientId
        }
    }

    /// How many clients the pool admits at most.
    pub closed spec fn capacity(&self) -> u32 {
        self.pool.capacity()
    }

    /// How many clients the pool admits at most from one address.
    pub closed spec fn capacity_per_ip(&self) -> u32 {
        self.capacity_per_ip
    }

    /// The identifiers: those in use are those of the clients, no identifier
    /// waits twice to be handed out again, and none that waits is in use.
    pub closed spec fn ids_wf(&self) -> bool {
        &&& self.dispatcher.wf()
        &&& self.pool.wf()
        &&& self@.len() + self.pool.returned().len() == self.pool.made()
        &&& forall|id: ClientId| #[trigger]
            self@.contains_key(id) ==> 1 <= id <= self.pool.made() && !self.pool.returned().contains(
                id,
            )
        &&& forall|i: int|
            0 <= i < self.pool.returned().len() ==> 1 <= #[trigger] self.pool.returned()[i]
                <= self.pool.made()
        &&& forall|i: int, j: int|
            0 <= i < j < self.pool.returned().len() ==> #[trigger] self.pool.returned()[i]
                != #[trigger] self.pool.returned()[j]
    }

    /// Every client is filed under its own identifier; the pool holds no
    /// more clients than its capacity, and no more from any one address than
    /// its capacity for one address.
    pub open spec fn wf(&self) -> bool {
        &&& self@.dom().finite()
        &&& self.ids_wf()
        &&& forall|id: ClientId| #[trigger] self@.contains_key(id) ==> self@[id].spec_id() == id
        &&& self@.len() <= self.capacity()
        &&& forall|ip: Ipv4| #[trigger] clients_at(self@, ip).len() <= self.capacity_per_ip()
    }

    /// An empty pool for at most `capacity` clients, at most
    /// `capacity_per_ip` of them from one address.
    pub fn new(capacity: u32, capacity_per_ip: u32) -> (pool: Self)
        ensures
            pool.wf(),
            pool@ == no_clients(),
            pool.listeners().len() == 0,
            pool.capacity() == capacity,
            pool.capacity_per_ip() == capacity_per_ip,
    {
        let pool = ClientPool {
            dispatcher: EventHandler::new(),
            clients: clients_new(),
            pool: IndexPool::with_capacity(capacity),
            capacity_per_ip,
        };
        proof {
            assert forall|ip: Ipv4| #[trigger] clients_at(pool@, ip).len() <= capacity_per_ip by {
                assert(clients_at(pool@, ip) =~= Set::empty());
            }
        }
        pool
    }

    /// Subscribes a listener, behind those that are subscribed.
    pub fn subscribe(&mut self, listener: O)
        requires
            old(self).wf(),
            listener.wf(),
        ensures
            final(self).wf(),
            final(self)@ == old(self)@,
            final(self).listeners() == old(self).listeners().push(listener@),
            final(self).capacity() == old(self).capacity(),
            final(self).capacity_per_ip() == old(self).capacity_per_ip(),
            final(self).next_id() == old(self).next_id(),
    {
        self.dispatcher.subscribe(listener);
    }

    /// The number of clients from `ip`.
    pub fn num_of_clients_for_ip(&self, ip: Ipv4) -> (n: usize)
        requires
            self.wf(),
        ensures
            n == clients_at(self@, ip).len(),
    {
        let walk = clients_walk(&self.clients);
        let mut n: usize = 0;
        let mut i: usize = 0;
        while i < walk.len()
            invariant
                i <= walk.len(),
                n == walk_count(walk@.take(i as int), ip),
                n <= i,
            decreases walk.len() - i,
        {
            proof {
                assert(walk@.take(i + 1).drop_last() =~= walk@.take(i as int));
            }
            if walk[i].1.socket.ip == ip {
                n += 1;
            }
            i += 1;
        }
        proof {
            assert(walk@.take(walk.len() as int) =~= walk@);
            lemma_walk_count(walk@, self@, ip);
        }
        n
    }

    /// Admits a client from `socket`, unless its address or the pool is
    /// full; the address is looked at first. The listeners hear of the
    /// client that is admitted.
    pub fn add(&mut self, socket: Ipv4Socket) -> (result: Result<ClientHandle, ClientPoolError>)
        requires
            old(self).wf(),
        ensures
            final(self).wf(),
            final(self).capacity() == old(self).capacity(),
            final(self).capacity_per_ip() == old(self).capacity_per_ip(),
            match result {
                Ok(handle) => {
                    &&& clients_at(old(self)@, socket.ip).len() < old(self).capacity_per_ip()
                    &&& old(self)@.len() < old(self).capacity()
                    &&& handle.id() == old(self).next_id()
                    &&& !old(self)@.contains_key(handle.id())
                    &&& final(self)@ == old(self)@.insert(handle.id(), final(self)@[handle.id()])
                    &&& final(self)@[handle.id()].spec_id() == handle.id()
                    &&& final(self)@[handle.id()].spec_socket() == socket
                    &&& final(self).listeners() == noticed::<O>(
                        old(self).listeners(),
                        ClientNotice::Connect(final(self)@[handle.id()]),
                    )
                },
                Err(error) => {
                    &&& final(self)@ == old(self)@
                    &&& final(self).listeners() == old(self).listeners()
                    &&& final(self).next_id() == old(self).next_id()
                    &&& if clients_at(old(self)@, socket.ip).len() >= old(self).capacity_per_ip() {
                        error == ClientPoolError::MaxCapacityForIp(socket.ip)
                    } else {
                        old(self)@.len() >= old(self).capacity() && error
                            == ClientPoolError::MaxCapacity
                    }
                },
            },
    {
        let here = self.num_of_clients_for_ip(socket.ip);
        if here >= self.capacity_per_ip as usize {
            return Err(ClientPoolError::MaxCapacityForIp(socket.ip));
        }
        let id = match self.pool.new_id() {
            Some(id) => id,
            None => {
                return Err(ClientPoolError::MaxCapacity);
            },
        };
        let client = Client::new(id, socket);
        proof {
            let before = old(self).pool.returned();
            if before.len() > 0 {
                assert(before[before.len() - 1] == id);
                assert(before.contains(id));
                assert forall|k: ClientId| #[trigger] self@.contains_key(k) implies !before.drop_last().contains(
                    k,
                ) by {
                    if before.drop_last().contains(k) {
                        let i = choose|i: int|
                            0 <= i < before.drop_last().len() && before.drop_last()[i] == k;
                        assert(before[i] == k);
                    }
                }
                assert(!before.drop_last().contains(id)) by {
                    if before.drop_last().contains(id) {
                        let i = choose|i: int|
                            0 <= i < before.drop_last().len() && before.drop_last()[i] == id;
                        assert(before[i] == id);
                    }
                }
            }
        }
        self.dispatcher.dispatch(ClientNotice::Connect(client));
        let ghost before = self@;
        clients_insert(&mut self.clients, id, client);
        proof {
            assert forall|ip: Ipv4| #[trigger]
                clients_at(self@, ip).len() <= self.capacity_per_ip() by {
                lemma_clients_at_insert(before, id, client, ip);
                assert(clients_at(before, ip).len() <= self.capacity_per_ip());
            }
        }
        Ok(ClientHandle { id })
    }

    /// Takes back the place that `handle` holds: its client leaves the
    /// pool and is handed out, its identifier may be used again, and the
    /// listeners hear of it.
    pub fn release(&mut self, handle: ClientHandle) -> (result: Result<Client, ClientPoolError>)
        requires
            old(self).wf(),
        ensures
            final(self).wf(),
            final(self).capacity() == old(self).capacity(),
            final(self).capacity_per_ip() == old(self).capacity_per_ip(),
            final(self)@ == old(self)@.remove(handle.id()),
            match result {
                Ok(client) => {
                    &&& old(self)@.contains_key(handle.id())
                    &&& client == old(self)@[handle.id()]
                    &&& final(self).listeners() == noticed::<O>(
                        old(self).listeners(),
                        ClientNotice::Disconnect(client),
                    )
                    &&& final(self).next_id() == handle.id()
                },
                Err(error) => {
                    &&& !old(self)@.contains_key(handle.id())
                    &&& error == ClientPoolError::InexistentId
                    &&& final(self).listeners() == old(self).listeners()
                    &&& final(self).next_id() == old(self).next_id()
                },
            },
    {
        let id = handle.id;
        let walk = clients_walk(&self.clients);
        match position(&walk, id) {
            Some(i) => {
                let client = walk[i].1;
                proof {
                    let returned = self.pool.returned();
                    assert(self@.contains_key(walk@[i as int].0));
                    assert forall|k: ClientId| #[trigger]
                        self@.remove(id).contains_key(k) implies !returned.push(id).contains(k) by {
                        assert(self@.contains_key(k));
                        if returned.push(id).contains(k) {
                            let j = choose|j: int|
                                0 <= j < returned.push(id).len() && returned.push(id)[j] == k;
                            if j < returned.len() {
                                assert(returned[j] == k);
                                assert(returned.contains(k));
                            }
                        }
                    }
                    assert forall|a: int, b: int|
                        0 <= a < b < returned.push(id).len() implies #[trigger] returned.push(id)[a]
                        != #[trigger] returned.push(id)[b] by {
                        if b == returned.len() {
                            assert(returned[a] == returned.push(id)[a]);
                            assert(returned.contains(returned[a]));
                        }
                    }
                    assert forall|ip: Ipv4| #[trigger]
                        clients_at(self@.remove(id), ip).len() <= self.capacity_per_ip by {
                        lemma_clients_at_remove(self@, id, ip);
                    }
                }
                clients_drop(&mut self.clients, id);
                self.dispatcher.dispatch(ClientNotice::Disconnect(client));
                self.pool.return_id(id);
                Ok(client)
            },
            None => {
                proof {
                    if self@.contains_key(id) {
                        let k = choose|k: int| 0 <= k < walk.len() && #[trigger] walk[k].0 == id;
                        assert(walk[k].0 != id);
                    }
                    assert(self@.remove(id) =~= self@);
                }
                Err(ClientPoolError::InexistentId)
            },
        }
    }

    /// The number of clients admitted.
    pub fn len(&self) -> (n: usize)
        requires
            self.wf(),
        ensures
            n == self@.len(),
    {
        let walk = clients_walk(&self.clients);
        proof {
            lemma_walk_len(walk@, self@);
        }
        walk.len()
    }
}

/// A walk over the clients is as long as there are clients.
pub proof fn lemma_walk_len(walk: Seq<(ClientId, Client)>, clients: Map<ClientId, Client>)
    requires
        clients.dom().finite(),
        lists_clients(walk, clients),
    ensures
        walk.len() == clients.len(),
    decreases walk.len(),
{
    if walk.len() == 0 {
        assert(clients.dom() =~= Set::empty());
    } else {
        let last = walk.last();
        let rest = walk.drop_last();
        let fewer = clients.remove(last.0);
        assert(clients.contains_key(walk[walk.len() - 1].0));
        assert forall|i: int| 0 <= i < rest.len() implies fewer.contains_key(#[trigger] rest[i].0)
            && fewer[rest[i].0] == rest[i].1 by {
            assert(rest[i] == walk[i]);
            assert(clients.contains_key(walk[i].0));
        }
        assert forall|id: ClientId| #[trigger] fewer.contains_key(id) implies exists|i: int|
            0 <= i < rest.len() && #[trigger] rest[i].0 == id by {
            assert(clients.contains_key(id));
            let i = choose|i: int| 0 <= i < walk.len() && #[trigger] walk[i].0 == id;
            assert(rest[i] == walk[i]);
        }
        assert forall|i: int, j: int| 0 <= i < j < rest.len() implies #[trigger] rest[i].0
            != #[trigger] rest[j].0 by {
            assert(rest[i] == walk[i] && rest[j] == walk[j]);
        }
        lemma_walk_len(rest, fewer);
    }
}

/// A pool never holds more clients than its capacity, nor more clients from
/// one address than its capacity for one address. Every operation of the
/// pool keeps it well-formed, so this holds at all times.
pub proof fn lemma_pool_within_caps<O: EventListener<ClientNotice>>(pool: ClientPool<O>, ip: Ipv4)
    requires
        pool.wf(),
    ensures
        pool@.len() <= pool.capacity(),
        clients_at(pool@, ip).len() <= pool.capacity_per_ip(),
{
}

/// A place that was taken back is gone: what is left of the pool does not
/// change when the same place is taken back once more, and the number of
/// clients went down by exactly one the first time.
pub proof fn lemma_release_once(clients: Map<ClientId, Client>, id: ClientId)
    requires
        clients.dom().finite(),
        clients.contains_key(id),
    ensures
        clients.remove(id).len() == clients.len() - 1,
        clients.remove(id).remove(id) == clients.remove(id),
{
    assert(clients.remove(id).remove(id) =~= clients.remove(id));
}

} // verus!
