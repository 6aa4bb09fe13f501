//! The realm directory: the live realm servers, keyed by their identifier.

use chashmap::CHashMap;
use vstd::prelude::*;

verus! {

/// A realm server identifier.
pub type RealmServerId = u16;

/// Realm server information.
#[derive(Debug, PartialEq, Eq, Hash)]
pub struct RealmServer {
    pub id: RealmServerId,
    pub host: String,
    pub port: u16,
    pub clients: u32,
    pub capacity: u32,
}

/// The mathematical value of a [`RealmServer`].
pub struct RealmView {
    pub id: RealmServerId,
    pub host: Seq<char>,
    pub port: u16,
    pub clients: u32,
    pub capacity: u32,
}

impl View for RealmServer {
    type V = RealmView;

    open spec fn view(&self) -> RealmView {
        RealmView {
            id: self.id,
            host: self.host@,
            port: self.port,
            clients: self.clients,
            capacity: self.capacity,
        }
    }
}

impl RealmView {
    /// A realm never reports more clients than it has room for.
    pub open spec fn wf(self) -> bool {
        self.clients <= self.capacity
    }
}

impl Clone for RealmServer {
    fn clone(&self) -> (copy: Self)
        ensures
            copy == *self,
    {
        RealmServer {
            id: self.id,
            host: self.host.clone(),
            port: self.port,
            clients: self.clients,
            capacity: self.capacity,
        }
    }
}

/// Why the directory refused an operation.
#[derive(Debug, Clone, Copy, PartialEq, Eq, Structural)]
pub enum RealmServerListError {
    /// The identifier is already registered.
    DuplicateId,
    /// No realm is registered under the identifier.
    InexistentId,
}

/// `chashmap::CHashMap`, a concurrent hash map. The proofs see nothing
/// inside it: what it holds goes by a name, of which only the functions
/// below that call into it speak.
#[verifier::external_type_specification]
#[verifier::external_body]
#[verifier::reject_recursive_types(K)]
#[verifier::reject_recursive_types(V)]
pub struct ExCHashMap<K, V>(CHashMap<K, V>);

/// The entries that a realm map holds, each under its key.
pub uninterp spec fn realm_entries(map: CHashMap<RealmServerId, RealmServer>) -> Map<
    RealmServerId,
    RealmView,
>;

/// The directory without any realm.
pub open spec fn no_realms() -> Map<RealmServerId, RealmView> {
    Map::empty()
}

/// `walk` lists the entries of `entries`: every pair of it is an entry, every
/// entry is among its pairs, and no key comes twice. The order is left open.
pub open spec fn lists_entries(
    walk: Seq<(RealmServerId, RealmServer)>,
    entries: Map<RealmServerId, RealmView>,
) -> bool {
    &&& forall|i: int|
        0 <= i < walk.len() ==> entries.contains_key(#[trigger] walk[i].0) && entries[walk[i].0]
            == walk[i].1@
    &&& forall|id: RealmServerId| #[trigger]
        entries.contains_key(id) ==> exists|i: int| 0 <= i < walk.len() && #[trigger] walk[i].0 == id
    &&& forall|i: int, j: int| 0 <= i < j < walk.len() ==> #[trigger] walk[i].0 != #[trigger] walk[j].0
}

/// `snapshot` lists the realms of `realms`: each of its items is a realm of
/// the directory, every realm of the directory is among them, and no
/// identifier comes twice. The order is left open.
pub open spec fn lists_realms(snapshot: Seq<RealmServer>, realms: Map<RealmServerId, RealmView>) -> bool {
    &&& forall|i: int|
        0 <= i < snapshot.len() ==> realms.contains_key(#[trigger] snapshot[i].id)
            && realms[snapshot[i].id] == snapshot[i]@
    &&& forall|id: RealmServerId| #[trigger]
        realms.contains_key(id) ==> exists|i: int|
            0 <= i < snapshot.len() && #[trigger] snapshot[i].id == id
    &&& forall|i: int, j: int|
        0 <= i < j < snapshot.len() ==> #[trigger] snapshot[i].id != #[trigger] snapshot[j].id
}

/// `CHashMap::new`: a map without entries.
#[verifier::external_body]
fn realms_new() -> (fresh: CHashMap<RealmServerId, RealmServer>)
    ensures
        realm_entries(fresh) == no_realms(),
{
    CHashMap::new()
}

/// `CHashMap::len`: the number of entries.
#[verifier::external_body]
fn realms_len(map: &CHashMap<RealmServerId, RealmServer>) -> (n: usize)
    ensures
        n == realm_entries(*map).len(),
{
    map.len()
}

/// `CHashMap::insert`: puts `realm` under its identifier, in place of the
/// entry that was there if there was one, and hands that entry back.
#[verifier::external_body]
fn realms_insert(map: &mut CHashMap<RealmServerId, RealmServer>, realm: RealmServer) -> (previous:
    Option<RealmServer>)
    ensures
        realm_entries(*final(map)) == realm_entries(*old(map)).insert(realm.id, realm@),
        previous is Some <==> realm_entries(*old(map)).contains_key(realm.id),
        previous matches Some(entry) ==> entry@ == realm_entries(*old(map))[realm.id],
{
    map.insert(realm.id, realm)
}

/// Whether an entry under `key` stays when the one under `id` is dropped.
fn stays(key: &RealmServerId, id: RealmServerId) -> (kept: bool)
    ensures
        kept == (*key != id),
{
    *key != id
}

/// `CHashMap::retain` with [`stays`]: takes out the entry under `id`, if there
/// is one, and leaves every other entry as it was.
#[verifier::external_body]
fn realms_drop(map: &mut CHashMap<RealmServerId, RealmServer>, id: RealmServerId)
    ensures
        realm_entries(*final(map)) == realm_entries(*old(map)).remove(id),
{
    map.retain(|key, _| stays(key, id))
}

/// `CHashMap::clone` and `CHashMap::into_iter`: hands out each entry of a
/// copy of the map once, as its key and its value, in the order of the map's
/// own making. The map is not changed.
#[verifier::external_body]
fn realms_walk(map: &CHashMap<RealmServerId, RealmServer>) -> (walk: Vec<
    (RealmServerId, RealmServer),
>)
    ensures
        lists_entries(walk@, realm_entries(*map)),
{
    map.clone().into_iter().collect()
}

/// The realm directory.
pub struct RealmServerList {
    realms: CHashMap<RealmServerId, RealmServer>,
}

impl View for RealmServerList {
    type V = Map<RealmServerId, RealmView>;

    closed spec fn view(&self) -> Map<RealmServerId, RealmView> {
        realm_entries(self.realms)
    }
}

/// The place of the entry under `id` in `walk`, if it has one.
fn position(walk: &Vec<(RealmServerId, RealmServer)>, id: RealmServerId) -> (found: Option<usize>)
    ensures
        found matches Some(i) ==> i < walk.len() && walk[i as int].0 == id,
        found is None ==> forall|i: int| 0 <= i < walk.len() ==> walk[i].0 != id,
{
    let mut i: usize = 0;
    while i < walk.len()
        invariant
            i <= walk.len(),
            forall|k: int| 0 <= k < i ==> walk[k].0 != id,
        decreases walk.len() - i,
    {
        if walk[i].0 == id {
            return Some(i);
        }
        i += 1;
    }
    None
}

impl RealmServerList {
    /// Every realm is filed under its own identifier, and none reports more
    /// clients than its capacity.
    pub open spec fn wf(&self) -> bool {
        &&& self@.dom().finite()
        &&& forall|id: RealmServerId| #[trigger]
            self@.contains_key(id) ==> self@[id].id == id && self@[id].wf()
    }

    /// An empty directory.
    pub fn new() -> (list: Self)
        ensures
            list.wf(),
            list@ == no_realms(),
    {
        RealmServerList { realms: realms_new() }
    }

    /// Registers `realm` unless its identifier is taken.
    pub fn add(&mut self, realm: RealmServer) -> (result: Result<(), RealmServerListError>)
        requires
            old(self).wf(),
            realm@.wf(),
        ensures
            final(self).wf(),
            old(self)@.contains_key(realm.id) ==> result == Err::<(), _>(
                RealmServerListError::DuplicateId,
            ) && final(self)@ == old(self)@,
            !old(self)@.contains_key(realm.id) ==> result is Ok && final(self)@ == old(self)@.insert(
                realm.id,
                realm@,
            ),
            result is Ok <==> succeeds(old(self)@, DirectoryOp::Add(realm@)),
            final(self)@ == applied(old(self)@, DirectoryOp::Add(realm@)),
    {
        let walk = realms_walk(&self.realms);
        match position(&walk, realm.id) {
            Some(_) => Err(RealmServerListError::DuplicateId),
            None => {
                realms_insert(&mut self.realms, realm);
                Ok(())
            },
        }
    }

    /// Deregisters the realm under `id` and hands its entry back.
    pub fn remove(&mut self, id: RealmServerId) -> (result: Result<
        RealmServer,
        RealmServerListError,
    >)
        requires
            old(self).wf(),
        ensures
            final(self).wf(),
            final(self)@ == old(self)@.remove(id),
            result is Ok <==> succeeds(old(self)@, DirectoryOp::Remove(id)),
            final(self)@ == applied(old(self)@, DirectoryOp::Remove(id)),
            match result {
                Ok(realm) => old(self)@.contains_key(id) && realm@ == old(self)@[id],
                Err(error) => !old(self)@.contains_key(id) && error
                    == RealmServerListError::InexistentId,
            },
    {
        let mut walk = realms_walk(&self.realms);
        match position(&walk, id) {
            Some(i) => {
                realms_drop(&mut self.realms, id);
                let (_, realm) = walk.swap_remove(i);
                Ok(realm)
            },
            None => {
                assert(self@.remove(id) =~= self@);
                Err(RealmServerListError::InexistentId)
            },
        }
    }

    /// A copy of the realm under `id`, as it stands now.
    pub fn get(&self, id: RealmServerId) -> (result: Result<RealmServer, RealmServerListError>)
        requires
            self.wf(),
        ensures
            match result {
                Ok(realm) => self@.contains_key(id) && realm@ == self@[id],
                Err(error) => !self@.contains_key(id) && error == RealmServerListError::InexistentId,
            },
    {
        let mut walk = realms_walk(&self.realms);
        match position(&walk, id) {
            Some(i) => {
                let (_, realm) = walk.swap_remove(i);
                Ok(realm)
            },
            None => Err(RealmServerListError::InexistentId),
        }
    }

    /// Hands the realm under `id` to `mutator` and files what comes back in
    /// its place. The mutator may change anything but the identifier, and
    /// must leave the realm well-formed. A copy of the new entry is handed
    /// back.
    pub fn get_mut<F: FnOnce(RealmServer) -> RealmServer>(
        &mut self,
        id: RealmServerId,
        mutator: F,
    ) -> (result: Result<RealmServer, RealmServerListError>)
        requires
            old(self).wf(),
            forall|realm: RealmServer|
                old(self)@.contains_key(id) && realm@ == old(self)@[id] ==> call_requires(
                    mutator,
                    (realm,),
                ),
            forall|realm: RealmServer, changed: RealmServer| #[trigger]
                call_ensures(mutator, (realm,), changed) && realm@.wf() ==> changed.id == realm.id
                    && changed@.wf(),
        ensures
            final(self).wf(),
            match result {
                Ok(changed) => old(self)@.contains_key(id) && changed.id == id && final(self)@
                    == old(self)@.insert(id, changed@) && final(self)@ == applied(
                    old(self)@,
                    DirectoryOp::Update(changed@),
                ) && exists|realm: RealmServer, filed: RealmServer|
                    realm@ == old(self)@[id] && filed@ == changed@ && #[trigger] call_ensures(
                        mutator,
                        (realm,),
                        filed,
                    ),
                Err(error) => !old(self)@.contains_key(id) && error
                    == RealmServerListError::InexistentId && final(self)@ == old(self)@,
            },
    {
        let mut walk = realms_walk(&self.realms);
        match position(&walk, id) {
            Some(i) => {
                let (_, realm) = walk.swap_remove(i);
                let changed = mutator(realm);
                let copy = changed.clone();
                realms_insert(&mut self.realms, changed);
                Ok(copy)
            },
            None => Err(RealmServerListError::InexistentId),
        }
    }

    /// Every realm, once, as it stands now. The order is the map's own.
    pub fn entries(&self) -> (snapshot: Vec<RealmServer>)
        requires
            self.wf(),
        ensures
            lists_realms(snapshot@, self@),
    {
        let mut walk = realms_walk(&self.realms);
        let mut snapshot: Vec<RealmServer> = Vec::new();
        let ghost pairs = walk@;
        while walk.len() > 0
            invariant
                self.wf(),
                lists_entries(pairs, self@),
                walk.len() + snapshot.len() == pairs.len(),
                forall|i: int| 0 <= i < walk.len() ==> walk[i] == pairs[i],
                forall|i: int|
                    0 <= i < snapshot.len() ==> (#[trigger] snapshot[i])@ == pairs[pairs.len() - 1
                        - i].1@,
            decreases walk.len(),
        {
            let pair = walk.pop();
            if let Some((_, realm)) = pair {
                snapshot.push(realm);
            }
        }
        proof {
            let n = pairs.len() as int;
            assert forall|i: int| 0 <= i < snapshot.len() implies self@.contains_key(
                #[trigger] snapshot[i].id,
            ) && self@[snapshot[i].id] == snapshot[i]@ by {
                let k = n - 1 - i;
                assert(self@.contains_key(pairs[k].0));
            }
            assert forall|id: RealmServerId| #[trigger] self@.contains_key(id) implies exists|
                i: int,
            |
                0 <= i < snapshot.len() && #[trigger] snapshot[i].id == id by {
                let k = choose|k: int| 0 <= k < pairs.len() && #[trigger] pairs[k].0 == id;
                assert(self@.contains_key(pairs[k].0));
                assert(snapshot[n - 1 - k]@ == pairs[k].1@);
                assert(snapshot[n - 1 - k].id == id);
            }
            assert forall|i: int, j: int| 0 <= i < j < snapshot.len() implies #[trigger] snapshot[i].id
                != #[trigger] snapshot[j].id by {
                assert(self@.contains_key(pairs[n - 1 - i].0));
                assert(self@.contains_key(pairs[n - 1 - j].0));
            }
        }
        snapshot
    }

    /// Calls `func` once for each realm, as it stands now, and hands out
    /// what the calls gave, in the order of the calls. The order is the
    /// map's own.
    pub fn for_each<R, F: Fn(&RealmServer) -> R>(&self, func: F) -> (out: Vec<R>)
        requires
            self.wf(),
            forall|realm: RealmServer|
                self@.contains_key(realm.id) && realm@ == self@[realm.id] ==> call_requires(
                    func,
                    (&realm,),
                ),
        ensures
            exists|snapshot: Seq<RealmServer>|
                {
                    &&& #[trigger] lists_realms(snapshot, self@)
                    &&& out.len() == snapshot.len()
                    &&& forall|i: int|
                        0 <= i < out.len() ==> call_ensures(func, (&snapshot[i],), #[trigger] out[i])
                },
    {
        let snapshot = self.entries();
        let mut out: Vec<R> = Vec::with_capacity(snapshot.len());
        let mut i: usize = 0;
        while i < snapshot.len()
            invariant
                i <= snapshot.len(),
                out.len() == i,
                lists_realms(snapshot@, self@),
                forall|realm: RealmServer|
                    self@.contains_key(realm.id) && realm@ == self@[realm.id] ==> call_requires(
                        func,
                        (&realm,),
                    ),
                forall|k: int| 0 <= k < i ==> call_ensures(func, (&snapshot[k],), #[trigger] out[k]),
            decreases snapshot.len() - i,
        {
            assert(self@.contains_key(snapshot@[i as int].id));
            let given = func(&snapshot[i]);
            out.push(given);
            i += 1;
        }
        out
    }

    /// The number of realms registered.
    pub fn len(&self) -> (n: usize)
        ensures
            n == self@.len(),
    {
        realms_len(&self.realms)
    }
}

/// What can be asked of the directory.
pub enum DirectoryOp {
    /// Register this realm.
    Add(RealmView),
    /// Deregister the realm under this identifier.
    Remove(RealmServerId),
    /// File this realm in place of the one under its identifier.
    Update(RealmView),
}

/// Whether the directory `realms` does what `op` asks.
pub open spec fn succeeds(realms: Map<RealmServerId, RealmView>, op: DirectoryOp) -> bool {
    match op {
        DirectoryOp::Add(realm) => !realms.contains_key(realm.id),
        DirectoryOp::Remove(id) => realms.contains_key(id),
        DirectoryOp::Update(realm) => realms.contains_key(realm.id),
    }
}

/// The directory `realms` after `op`: as [`RealmServerList::add`],
/// [`RealmServerList::remove`] and [`RealmServerList::get_mut`] leave it.
pub open spec fn applied(realms: Map<RealmServerId, RealmView>, op: DirectoryOp) -> Map<
    RealmServerId,
    RealmView,
> {
    if succeeds(realms, op) {
        match op {
            DirectoryOp::Add(realm) => realms.insert(realm.id, realm),
            DirectoryOp::Remove(id) => realms.remove(id),
            DirectoryOp::Update(realm) => realms.insert(realm.id, realm),
        }
    } else {
        realms
    }
}

/// The directory after `ops`, one after another, on an empty directory.
pub open spec fn replayed(ops: Seq<DirectoryOp>) -> Map<RealmServerId, RealmView>
    decreases ops.len(),
{
    if ops.len() == 0 {
        no_realms()
    } else {
        applied(replayed(ops.drop_last()), ops.last())
    }
}

/// How many of `ops`, one after another on an empty directory, are
/// registrations that succeed, less those that are removals that succeed.
pub open spec fn balance(ops: Seq<DirectoryOp>) -> int
    decreases ops.len(),
{
    if ops.len() == 0 {
        0
    } else {
        let before = replayed(ops.drop_last());
        balance(ops.drop_last()) + if !succeeds(before, ops.last()) {
            0int
        } else {
            match ops.last() {
                DirectoryOp::Add(_) => 1int,
                DirectoryOp::Remove(_) => -1int,
                DirectoryOp::Update(_) => 0int,
            }
        }
    }
}

/// Whatever is asked of a directory, in whatever order: it holds as many
/// realms as were registered with success, less those that were removed with
/// success, and it files every realm under the realm's own identifier, so
/// that no identifier is in two entries.
pub proof fn lemma_directory_counts(ops: Seq<DirectoryOp>)
    ensures
        replayed(ops).dom().finite(),
        replayed(ops).len() == balance(ops),
        forall|id: RealmServerId| #[trigger]
            replayed(ops).contains_key(id) ==> replayed(ops)[id].id == id,
    decreases ops.len(),
{
    if ops.len() > 0 {
        lemma_directory_counts(ops.drop_last());
    }
}

} // verus!
