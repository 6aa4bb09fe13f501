use mucs::state::{RealmServer, RealmServerList, RealmServerListError};

fn realm(id: u16, clients: u32, capacity: u32) -> RealmServer {
    RealmServer { id, host: format!("10.0.0.{}", id), port: 55901, clients, capacity }
}

#[test]
fn add_then_get_returns_the_entry() {
    let mut list = RealmServerList::new();
    assert_eq!(list.len(), 0);
    assert_eq!(list.add(realm(7, 3, 100)), Ok(()));
    assert_eq!(list.len(), 1);
    assert_eq!(list.get(7), Ok(realm(7, 3, 100)));
    assert_eq!(list.get(8), Err(RealmServerListError::InexistentId));
}

#[test]
fn add_refuses_a_duplicate_id() {
    let mut list = RealmServerList::new();
    assert_eq!(list.add(realm(1, 0, 10)), Ok(()));
    assert_eq!(list.add(realm(1, 5, 10)), Err(RealmServerListError::DuplicateId));
    assert_eq!(list.len(), 1);
    assert_eq!(list.get(1), Ok(realm(1, 0, 10)));
}

#[test]
fn remove_hands_the_entry_back_once() {
    let mut list = RealmServerList::new();
    assert_eq!(list.add(realm(1, 0, 10)), Ok(()));
    assert_eq!(list.add(realm(2, 0, 10)), Ok(()));
    assert_eq!(list.remove(1), Ok(realm(1, 0, 10)));
    assert_eq!(list.remove(1), Err(RealmServerListError::InexistentId));
    assert_eq!(list.len(), 1);
    assert_eq!(list.get(2), Ok(realm(2, 0, 10)));
}

#[test]
fn directory_survives_many_register_cycles() {
    let mut list = RealmServerList::new();
    for round in 0..3u32 {
        for id in 0..1000u16 {
            assert_eq!(list.add(realm(id, round, 100)), Ok(()));
            assert_eq!(list.get(id), Ok(realm(id, round, 100)));
            assert_eq!(list.remove(id), Ok(realm(id, round, 100)));
            assert_eq!(list.get(id), Err(RealmServerListError::InexistentId));
        }
    }
    assert_eq!(list.len(), 0);
}

#[test]
fn get_mut_files_what_the_mutator_hands_back() {
    let mut list = RealmServerList::new();
    assert_eq!(list.add(realm(7, 3, 100)), Ok(()));
    let changed = list.get_mut(7, |mut entry| {
        entry.clients = 50;
        entry.capacity = 60;
        entry
    });
    assert_eq!(changed, Ok(realm(7, 50, 60)));
    assert_eq!(list.get(7), Ok(realm(7, 50, 60)));
    assert_eq!(list.len(), 1);
}

#[test]
fn get_mut_fails_on_an_unknown_id() {
    let mut list = RealmServerList::new();
    assert_eq!(list.get_mut(7, |entry| entry), Err(RealmServerListError::InexistentId));
    assert_eq!(list.len(), 0);
}

#[test]
fn entries_lists_every_realm_once() {
    let mut list = RealmServerList::new();
    for id in [5u16, 1, 9, 3] {
        assert_eq!(list.add(realm(id, id as u32, 100)), Ok(()));
    }
    let mut ids: Vec<u16> = list.entries().iter().map(|entry| entry.id).collect();
    ids.sort();
    assert_eq!(ids, vec![1, 3, 5, 9]);
    assert!(RealmServerList::new().entries().is_empty());
}

#[test]
fn for_each_calls_the_function_once_per_realm() {
    let mut list = RealmServerList::new();
    for id in [2u16, 4, 6] {
        assert_eq!(list.add(realm(id, id as u32, 10)), Ok(()));
    }
    let mut loads = list.for_each(|entry| (entry.id, entry.clients, entry.capacity));
    loads.sort();
    assert_eq!(loads, vec![(2, 2, 10), (4, 4, 10), (6, 6, 10)]);
}

#[test]
fn len_is_registrations_less_removals() {
    let mut list = RealmServerList::new();
    let mut added = 0usize;
    let mut removed = 0usize;
    for id in [1u16, 2, 2, 3, 1] {
        if list.add(realm(id, 0, 1)).is_ok() {
            added += 1;
        }
    }
    for id in [2u16, 2, 8] {
        if list.remove(id).is_ok() {
            removed += 1;
        }
    }
    assert_eq!(added, 3);
    assert_eq!(removed, 1);
    assert_eq!(list.len(), added - removed);
}

#[test]
fn a_clone_of_a_realm_equals_it() {
    let entry = realm(3, 1, 2);
    assert_eq!(entry.clone(), entry);
}
