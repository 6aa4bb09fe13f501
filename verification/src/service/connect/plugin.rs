//! Plugins of the client plane: listeners of its events that log them or
//! turn clients away.

use crate::service::connect::error::{ConnectServiceError, ServerError};
use crate::state::client::{Ipv4, Ipv4Socket, SocketAddress};
use crate::util::event::{
    dispatched, lemma_dispatch_reaches_each, EventAction, EventArgs, EventListener,
};
use chashmap::CHashMap;
use vstd::prelude::*;

verus! {

/// What happens to a client session.
#[derive(Debug, Clone, PartialEq, Eq)]
pub enum ClientEvent {
    /// A client asks to be served. Preventing the default turns it away.
    Connect(Ipv4Socket),
    /// A client that was served is gone.
    Disconnect(Ipv4Socket),
    /// A session ended in a failure.
    Error(ConnectServiceError),
}

/// What happens to the client listener.
#[derive(Debug, Clone, PartialEq, Eq)]
pub enum ListenerEvent {
    /// The listener is bound. Preventing the default aborts it.
    Startup(SocketAddress),
    /// The listener ended in a failure.
    Error(ConnectServiceError),
}

/// How much weight a line of the log carries.
#[derive(Debug, Clone, Copy, PartialEq, Eq, Structural)]
pub enum LogLevel {
    Info,
    Warn,
    Error,
}

/// A plugin of client sessions.
pub trait ClientEventPlugin: EventListener<ClientEvent> {

}

/// A plugin of the client listener.
pub trait ListenerEventPlugin: EventListener<ListenerEvent> {

}

/// Plugin logging any listener events. It never prevents nor stops anything;
/// it says at which level an event goes to the log.
#[derive(Debug, Clone, Copy, PartialEq, Eq, Structural)]
pub struct ListenerEventLogger;

impl ListenerEventLogger {
    /// The level at which `event` is logged.
    pub fn level(event: &ListenerEvent) -> (level: LogLevel)
        ensures
            level == match event {
                ListenerEvent::Startup(_) => LogLevel::Info,
                ListenerEvent::Error(_) => LogLevel::Error,
            },
    {
        match event {
            ListenerEvent::Startup(_) => LogLevel::Info,
            ListenerEvent::Error(_) => LogLevel::Error,
        }
    }
}

impl View for ListenerEventLogger {
    type V = ();

    open spec fn view(&self) -> () {
        ()
    }
}

impl EventListener<ListenerEvent> for ListenerEventLogger {
    open spec fn wf(&self) -> bool {
        true
    }

    open spec fn prevents(state: (), data: ListenerEvent, prevented: bool) -> bool {
        false
    }

    open spec fn stops(state: (), data: ListenerEvent, prevented: bool) -> bool {
        false
    }

    open spec fn next(state: (), data: ListenerEvent, prevented: bool) -> () {
        ()
    }

    fn call<A: EventArgs<ListenerEvent>>(&mut self, event: &mut A) -> (action: EventAction) {
        EventAction::Keep
    }
}

impl ListenerEventPlugin for ListenerEventLogger {

}

/// Plugin logging any client events. It never prevents nor stops anything;
/// it says whether an event goes to the log, and at which level.
#[derive(Debug, Clone, Copy, PartialEq, Eq, Structural)]
pub struct ClientEventLogger;

impl ClientEventLogger {
    /// The level at which `event` is logged. Failures that only say that
    /// the peer reset the connection, or that the server turned the client
    /// away, are not logged.
    pub fn level(event: &ClientEvent) -> (level: Option<LogLevel>)
        ensures
            level == match event {
                ClientEvent::Connect(_) => Some(LogLevel::Info),
                ClientEvent::Disconnect(_) => Some(LogLevel::Info),
                ClientEvent::Error(error) => if error.is_connection_reset() || error.is_rejection() {
                    None
                } else {
                    Some(LogLevel::Warn)
                },
            },
    {
        match event {
            ClientEvent::Connect(_) => Some(LogLevel::Info),
            ClientEvent::Disconnect(_) => Some(LogLevel::Info),
            ClientEvent::Error(error) => {
                if !error.connection_reset_by_peer() && !error.reject_by_server() {
                    Some(LogLevel::Warn)
                } else {
                    None
                }
            },
        }
    }
}

impl View for ClientEventLogger {
    type V = ();

    open spec fn view(&self) -> () {
        ()
    }
}

impl EventListener<ClientEvent> for ClientEventLogger {
    open spec fn wf(&self) -> bool {
        true
    }

    open spec fn prevents(state: (), data: ClientEvent, prevented: bool) -> bool {
        false
    }

    open spec fn stops(state: (), data: ClientEvent, prevented: bool) -> bool {
        false
    }

    open spec fn next(state: (), data: ClientEvent, prevented: bool) -> () {
        ()
    }

    fn call<A: EventArgs<ClientEvent>>(&mut self, event: &mut A) -> (action: EventAction) {
        EventAction::Keep
    }
}

impl ClientEventPlugin for ClientEventLogger {

}

/// The state of [`CheckMaximumClients`].
pub struct MaximumClients {
    /// The clients that the plugin has let in and that have not left.
    pub clients: usize,
    /// The most that it lets in.
    pub capacity: usize,
    /// Whether the last thing that the plugin heard of is a client that it
    /// let in.
    pub pending: bool,
}

impl MaximumClients {
    /// Whether the plugin counts a client that asks to be served: no other
    /// plugin has turned it away, and there is room.
    pub open spec fn admits(self, prevented: bool) -> bool {
        !prevented && self.clients < self.capacity
    }

    /// The state with `clients` clients, the last of which is not the last
    /// thing that the plugin heard of.
    pub open spec fn settled(self, clients: usize) -> MaximumClients {
        MaximumClients { clients, capacity: self.capacity, pending: false }
    }
}

/// Plugin restricting maximum clients.
///
/// It counts the clients that it lets in. A client that it turns away, or
/// that an earlier plugin has turned away, is not counted: no disconnect
/// will follow for it. A client that it lets in and that a later plugin
/// turns away is counted until the plugin hears of the rejection, which
/// comes next.
pub struct CheckMaximumClients {
    clients: usize,
    capacity: usize,
    pending: bool,
}

impl View for CheckMaximumClients {
    type V = MaximumClients;

    closed spec fn view(&self) -> MaximumClients {
        MaximumClients { clients: self.clients, capacity: self.capacity, pending: self.pending }
    }
}

impl CheckMaximumClients {
    /// A plugin that lets in at most `capacity` clients at a time.
    pub fn new(capacity: usize) -> (plugin: Self)
        ensures
            plugin@ == (MaximumClients { clients: 0, capacity, pending: false }),
            plugin.wf(),
    {
        CheckMaximumClients { clients: 0, capacity, pending: false }
    }

    /// The clients that are in.
    pub fn clients(&self) -> (n: usize)
        ensures
            n == self@.clients,
    {
        self.clients
    }
}

impl EventListener<ClientEvent> for CheckMaximumClients {
    open spec fn wf(&self) -> bool {
        self@.clients <= self@.capacity
    }

    open spec fn prevents(state: MaximumClients, data: ClientEvent, prevented: bool) -> bool {
        data is Connect && !prevented && state.clients >= state.capacity
    }

    open spec fn stops(state: MaximumClients, data: ClientEvent, prevented: bool) -> bool {
        false
    }

    open spec fn next(state: MaximumClients, data: ClientEvent, prevented: bool) -> MaximumClients {
        match data {
            ClientEvent::Connect(_) => if state.admits(prevented) {
                MaximumClients { clients: (state.clients + 1) as usize, pending: true, ..state }
            } else {
                state.settled(state.clients)
            },
            ClientEvent::Disconnect(_) => if state.clients > 0 {
                state.settled((state.clients - 1) as usize)
            } else {
                state.settled(state.clients)
            },
            ClientEvent::Error(error) => if state.pending && error.is_rejection() && state.clients
                > 0 {
                state.settled((state.clients - 1) as usize)
            } else {
                state.settled(state.clients)
            },
        }
    }

    fn call<A: EventArgs<ClientEvent>>(&mut self, event: &mut A) -> (action: EventAction) {
        let prevented = event.is_default_prevented();
        let pending = self.pending;
        let mut veto = false;
        self.pending = false;
        match event.data() {
            ClientEvent::Connect(_) => {
                if !prevented {
                    if self.clients < self.capacity {
                        self.clients = self.clients + 1;
                        self.pending = true;
                    } else {
                        veto = true;
                    }
                }
            },
            ClientEvent::Disconnect(_) => {
                if self.clients > 0 {
                    self.clients = self.clients - 1;
                }
            },
            ClientEvent::Error(error) => {
                if pending && error.reject_by_server() && self.clients > 0 {
                    self.clients = self.clients - 1;
                }
            },
        }
        if veto {
            event.prevent_default();
        }
        EventAction::Keep
    }
}

impl ClientEventPlugin for CheckMaximumClients {

}

/// The count that an address map holds for each address.
pub uninterp spec fn address_counts(map: CHashMap<Ipv4, usize>) -> Map<Ipv4, usize>;

/// No count at all.
pub open spec fn no_counts() -> Map<Ipv4, usize> {
    Map::empty()
}

/// `walk` lists the counts of `counts`: every pair of it is an entry, every
/// entry is among its pairs, and no address comes twice.
pub open spec fn lists_counts(walk: Seq<(Ipv4, usize)>, counts: Map<Ipv4, usize>) -> bool {
    &&& forall|i: int|
        0 <= i < walk.len() ==> counts.contains_key(#[trigger] walk[i].0) && counts[walk[i].0]
            == walk[i].1
    &&& forall|ip: Ipv4| #[trigger]
        counts.contains_key(ip) ==> exists|i: int| 0 <= i < walk.len() && #[trigger] walk[i].0 == ip
    &&& forall|i: int, j: int| 0 <= i < j < walk.len() ==> #[trigger] walk[i].0 != #[trigger] walk[j].0
}

/// `CHashMap::new`: a map without entries.
#[verifier::external_body]
fn counts_new() -> (fresh: CHashMap<Ipv4, usize>)
    ensures
        address_counts(fresh) == no_counts(),
{
    CHashMap::new()
}

/// `CHashMap::insert`: puts `count` under `ip`, in place of the count that
/// was there if there was one, and hands that count back.
#[verifier::external_body]
fn counts_insert(map: &mut CHashMap<Ipv4, usize>, ip: Ipv4, count: usize) -> (previous: Option<
    usize,
>)
    ensures
        address_counts(*final(map)) == address_counts(*old(map)).insert(ip, count),
        previous is Some <==> address_counts(*old(map)).contains_key(ip),
        previous matches Some(entry) ==> entry == address_counts(*old(map))[ip],
{
    map.insert(ip, count)
}

/// `CHashMap::clone` and `CHashMap::into_iter`: hands out each entry of a
/// copy of the map once, as its address and its count, in the order of the
/// map's own making. The map is not changed.
#[verifier::external_body]
fn counts_walk(map: &CHashMap<Ipv4, usize>) -> (walk: Vec<(Ipv4, usize)>)
    ensures
        lists_counts(walk@, address_counts(*map)),
{
    map.clone().into_iter().collect()
}

/// The state of [`CheckMaximumClientsPerIp`].
pub struct MaximumClientsPerIp {
    /// For each address that the plugin has heard of, the clients from it
    /// that the plugin has let in and that have not left.
    pub counts: Map<Ipv4, usize>,
    /// The most that it lets in from one address.
    pub capacity_per_ip: usize,
    /// The address of the client that the plugin let in, where that is the
    /// last thing that it heard of.
    pub pending: Option<Ipv4>,
}

impl MaximumClientsPerIp {
    /// The state in which `clients` clients from `ip` are in, the last of
    /// which is not the last thing that the plugin heard of.
    pub open spec fn settled(self, ip: Ipv4, clients: usize) -> MaximumClientsPerIp {
        MaximumClientsPerIp {
            counts: self.counts.insert(ip, clients),
            capacity_per_ip: self.capacity_per_ip,
            pending: None,
        }
    }

    /// The state with the same clients, none of which is the last thing
    /// that the plugin heard of.
    pub open spec fn rested(self) -> MaximumClientsPerIp {
        MaximumClientsPerIp { pending: None, ..self }
    }

    /// The clients from `ip` that are in.
    pub open spec fn clients_at(self, ip: Ipv4) -> usize {
        if self.counts.contains_key(ip) {
            self.counts[ip]
        } else {
            0
        }
    }

    /// Whether the plugin counts a client from `ip` that asks to be served:
    /// no other plugin has turned it away, and its address has room.
    pub open spec fn admits(self, ip: Ipv4, prevented: bool) -> bool {
        !prevented && self.clients_at(ip) < self.capacity_per_ip
    }
}

/// Plugin restricting maximum clients per IP.
///
/// It counts, for each address, the clients that it lets in. A client that
/// it turns away, or that an earlier plugin has turned away, is not counted:
/// no disconnect will follow for it. A client that it lets in and that a
/// later plugin turns away is counted until the plugin hears of the
/// rejection, which comes next.
pub struct CheckMaximumClientsPerIp {
    clients: CHashMap<Ipv4, usize>,
    capacity_per_ip: usize,
    pending: Option<Ipv4>,
}

impl View for CheckMaximumClientsPerIp {
    type V = MaximumClientsPerIp;

    closed spec fn view(&self) -> MaximumClientsPerIp {
        MaximumClientsPerIp {
            counts: address_counts(self.clients),
            capacity_per_ip: self.capacity_per_ip,
            pending: self.pending,
        }
    }
}

impl CheckMaximumClientsPerIp {
    /// A plugin that lets in at most `capacity_per_ip` clients from one
    /// address at a time.
    pub fn new(capacity_per_ip: usize) -> (plugin: Self)
        ensures
            plugin@ == (MaximumClientsPerIp { counts: no_counts(), capacity_per_ip, pending: None }),
            plugin.wf(),
    {
        CheckMaximumClientsPerIp { clients: counts_new(), capacity_per_ip, pending: None }
    }

    /// The clients from `ip` that are in.
    pub fn clients_for_ip(&self, ip: Ipv4) -> (n: usize)
        ensures
            n == self@.clients_at(ip),
    {
        let walk = counts_walk(&self.clients);
        let mut i: usize = 0;
        while i < walk.len()
            invariant
                i <= walk.len(),
                lists_counts(walk@, self@.counts),
                forall|k: int| 0 <= k < i ==> walk[k].0 != ip,
            decreases walk.len() - i,
        {
            if walk[i].0 == ip {
                assert(self@.counts.contains_key(walk@[i as int].0));
                return walk[i].1;
            }
            i += 1;
        }
        proof {
            if self@.counts.contains_key(ip) {
                let k = choose|k: int| 0 <= k < walk.len() && #[trigger] walk[k].0 == ip;
                assert(walk[k].0 != ip);
            }
        }
        0
    }
}

impl EventListener<ClientEvent> for CheckMaximumClientsPerIp {
    open spec fn wf(&self) -> bool {
        forall|ip: Ipv4| #[trigger]
            self@.counts.contains_key(ip) ==> self@.counts[ip] <= self@.capacity_per_ip
    }

    open spec fn prevents(state: MaximumClientsPerIp, data: ClientEvent, prevented: bool) -> bool {
        data matches ClientEvent::Connect(socket) && !prevented && state.clients_at(socket.ip)
            >= state.capacity_per_ip
    }

    open spec fn stops(state: MaximumClientsPerIp, data: ClientEvent, prevented: bool) -> bool {
        false
    }

    open spec fn next(
        state: MaximumClientsPerIp,
        data: ClientEvent,
        prevented: bool,
    ) -> MaximumClientsPerIp {
        match data {
            ClientEvent::Connect(socket) => if state.admits(socket.ip, prevented) {
                MaximumClientsPerIp {
                    pending: Some(socket.ip),
                    ..state.settled(socket.ip, (state.clients_at(socket.ip) + 1) as usize)
                }
            } else {
                state.rested()
            },
            ClientEvent::Disconnect(socket) => if state.clients_at(socket.ip) > 0 {
                state.settled(socket.ip, (state.clients_at(socket.ip) - 1) as usize)
            } else {
                state.rested()
            },
            ClientEvent::Error(error) => match state.pending {
                Some(ip) => if error.is_rejection() && state.clients_at(ip) > 0 {
                    state.settled(ip, (state.clients_at(ip) - 1) as usize)
                } else {
                    state.rested()
                },
                None => state.rested(),
            },
        }
    }

    fn call<A: EventArgs<ClientEvent>>(&mut self, event: &mut A) -> (action: EventAction) {
        let prevented = event.is_default_prevented();
        let pending = self.pending;
        let mut veto = false;
        self.pending = None;
        match event.data() {
            ClientEvent::Connect(socket) => {
                if !prevented {
                    let here = self.clients_for_ip(socket.ip);
                    if here < self.capacity_per_ip {
                        counts_insert(&mut self.clients, socket.ip, here + 1);
                        self.pending = Some(socket.ip);
                    } else {
                        veto = true;
                    }
                }
            },
            ClientEvent::Disconnect(socket) => {
                let here = self.clients_for_ip(socket.ip);
                if here > 0 {
                    counts_insert(&mut self.clients, socket.ip, here - 1);
                }
            },
            ClientEvent::Error(error) => {
                if let Some(ip) = pending {
                    if error.reject_by_server() {
                        let here = self.clients_for_ip(ip);
                        if here > 0 {
                            counts_insert(&mut self.clients, ip, here - 1);
                        }
                    }
                }
            },
        }
        proof {
            assert forall|ip: Ipv4| #[trigger] self@.counts.contains_key(ip) implies self@.counts[ip]
                <= self@.capacity_per_ip by {
                assert(old(self)@.counts.contains_key(ip) ==> old(self)@.counts[ip] <= old(
                    self,
                )@.capacity_per_ip);
            }
        }
        if veto {
            event.prevent_default();
        }
        EventAction::Keep
    }
}

impl ClientEventPlugin for CheckMaximumClientsPerIp {

}

/// The plugins that the server knows, as one type, so that one channel can
/// hold any of them.
pub enum ClientPlugin {
    Logger(ClientEventLogger),
    MaximumClients(CheckMaximumClients),
    MaximumClientsPerIp(CheckMaximumClientsPerIp),
}

/// The state of a [`ClientPlugin`].
pub enum ClientPluginState {
    Logger,
    MaximumClients(MaximumClients),
    MaximumClientsPerIp(MaximumClientsPerIp),
}

impl View for ClientPlugin {
    type V = ClientPluginState;

    open spec fn view(&self) -> ClientPluginState {
        match self {
            ClientPlugin::Logger(_) => ClientPluginState::Logger,
            ClientPlugin::MaximumClients(plugin) => ClientPluginState::MaximumClients(plugin@),
            ClientPlugin::MaximumClientsPerIp(plugin) => ClientPluginState::MaximumClientsPerIp(
                plugin@,
            ),
        }
    }
}

impl EventListener<ClientEvent> for ClientPlugin {
    open spec fn wf(&self) -> bool {
        match self {
            ClientPlugin::Logger(plugin) => plugin.wf(),
            ClientPlugin::MaximumClients(plugin) => plugin.wf(),
            ClientPlugin::MaximumClientsPerIp(plugin) => plugin.wf(),
        }
    }

    open spec fn prevents(state: ClientPluginState, data: ClientEvent, prevented: bool) -> bool {
        match state {
            ClientPluginState::Logger => false,
            ClientPluginState::MaximumClients(state) => CheckMaximumClients::prevents(
                state,
                data,
                prevented,
            ),
            ClientPluginState::MaximumClientsPerIp(state) => CheckMaximumClientsPerIp::prevents(
                state,
                data,
                prevented,
            ),
        }
    }

    open spec fn stops(state: ClientPluginState, data: ClientEvent, prevented: bool) -> bool {
        false
    }

    open spec fn next(state: ClientPluginState, data: ClientEvent, prevented: bool) -> ClientPluginState {
        match state {
            ClientPluginState::Logger => ClientPluginState::Logger,
            ClientPluginState::MaximumClients(state) => ClientPluginState::MaximumClients(
                CheckMaximumClients::next(state, data, prevented),
            ),
            ClientPluginState::MaximumClientsPerIp(state) => ClientPluginState::MaximumClientsPerIp(
                CheckMaximumClientsPerIp::next(state, data, prevented),
            ),
        }
    }

    fn call<A: EventArgs<ClientEvent>>(&mut self, event: &mut A) -> (action: EventAction) {
        match self {
            ClientPlugin::Logger(plugin) => plugin.call(event),
            ClientPlugin::MaximumClients(plugin) => plugin.call(event),
            ClientPlugin::MaximumClientsPerIp(plugin) => plugin.call(event),
        }
    }
}

impl ClientEventPlugin for ClientPlugin {

}

/// A client that the cap on the clients turns away, or that was turned away
/// before the plugin heard of it, is not counted, so that nothing is amiss
/// when no disconnect follows.
pub proof fn lemma_turned_away_is_not_counted(state: MaximumClients, peer: Ipv4Socket, prevented: bool)
    requires
        prevented || CheckMaximumClients::prevents(state, ClientEvent::Connect(peer), prevented),
    ensures
        CheckMaximumClients::next(state, ClientEvent::Connect(peer), prevented) == state.settled(
            state.clients,
        ),
{
}

/// A client that the cap on the clients of one address turns away, or that
/// was turned away before the plugin heard of it, is not counted.
pub proof fn lemma_turned_away_is_not_counted_per_ip(
    state: MaximumClientsPerIp,
    peer: Ipv4Socket,
    prevented: bool,
)
    requires
        prevented || CheckMaximumClientsPerIp::prevents(state, ClientEvent::Connect(peer), prevented),
    ensures
        CheckMaximumClientsPerIp::next(state, ClientEvent::Connect(peer), prevented)
            == state.rested(),
{
}

/// A client that the cap on the clients lets in and that then leaves
/// leaves the plugin with as many clients as before it came.
pub proof fn lemma_connect_then_disconnect_balances(state: MaximumClients, peer: Ipv4Socket)
    requires
        state.admits(false),
    ensures
        CheckMaximumClients::next(
            CheckMaximumClients::next(state, ClientEvent::Connect(peer), false),
            ClientEvent::Disconnect(peer),
            false,
        ) == state.settled(state.clients),
{
}

/// How many clients a plugin in `state` holds from `ip`, where the plugin
/// counts by address, and how many it holds in all, where it counts them
/// all; nothing, where it does not count.
pub open spec fn counted(state: ClientPluginState, ip: Ipv4) -> usize {
    match state {
        ClientPluginState::Logger => 0,
        ClientPluginState::MaximumClients(state) => state.clients,
        ClientPluginState::MaximumClientsPerIp(state) => state.clients_at(ip),
    }
}

/// A connection that is turned away leaves the count of every plugin as it
/// was, whether the plugin has turned it away itself, has heard of it after
/// it was turned away, or has let it in and hears next that a later plugin
/// turned it away.
pub proof fn lemma_rejection_is_taken_back(
    state: ClientPluginState,
    peer: Ipv4Socket,
    prevented: bool,
    told: bool,
    ip: Ipv4,
)
    ensures
        counted(
            ClientPlugin::next(
                ClientPlugin::next(state, ClientEvent::Connect(peer), prevented),
                ClientEvent::Error(ConnectServiceError::Server(ServerError::ClientRejected)),
                told,
            ),
            ip,
        ) == counted(state, ip),
{
}

/// Whenever the plugins hear of a client that asks to be served and then of
/// its rejection, the count of every plugin is as it was before: no plugin
/// waits for a disconnect that will not come.
pub proof fn lemma_rejection_leaves_the_counts(
    plugins: Seq<ClientPluginState>,
    peer: Ipv4Socket,
    ip: Ipv4,
    i: int,
)
    requires
        0 <= i < plugins.len(),
    ensures
        ({
            let rejected = ClientEvent::Error(
                ConnectServiceError::Server(ServerError::ClientRejected),
            );
            let asked = dispatched::<ClientEvent, ClientPlugin>(
                plugins,
                ClientEvent::Connect(peer),
                plugins.len(),
            ).states;
            let told = dispatched::<ClientEvent, ClientPlugin>(asked, rejected, asked.len()).states;
            asked.len() == plugins.len() && told.len() == plugins.len() && counted(told[i], ip)
                == counted(plugins[i], ip)
        }),
{
    let connect = ClientEvent::Connect(peer);
    let rejected = ClientEvent::Error(ConnectServiceError::Server(ServerError::ClientRejected));
    lemma_dispatch_reaches_each::<ClientEvent, ClientPlugin>(plugins, connect, plugins.len());
    let asked = dispatched::<ClientEvent, ClientPlugin>(plugins, connect, plugins.len()).states;
    lemma_dispatch_reaches_each::<ClientEvent, ClientPlugin>(asked, rejected, asked.len());
    lemma_rejection_is_taken_back(
        plugins[i],
        peer,
        dispatched::<ClientEvent, ClientPlugin>(plugins, connect, i as nat).prevented,
        dispatched::<ClientEvent, ClientPlugin>(asked, rejected, i as nat).prevented,
        ip,
    );
}

} // verus!
