use mucs::service::connect::ClientPoolError;
use mucs::state::{Client, ClientNotice, ClientPool, Ipv4Socket};
use mucs::util::event::EventAction;
use mucs::util::{EventArgs, EventListener};
use mucs::EventObserver;
use std::cell::RefCell;
use std::rc::Rc;
use mucs::util::IndexPool;

fn socket(ip: u32, port: u16) -> Ipv4Socket {
    Ipv4Socket::new(ip, port)
}

#[test]
fn index_pool_counts_up_from_one() {
    let mut pool = IndexPool::with_capacity(3);
    assert_eq!(pool.new_id(), Some(1));
    assert_eq!(pool.new_id(), Some(2));
    assert_eq!(pool.new_id(), Some(3));
    assert_eq!(pool.new_id(), None);
    assert_eq!(pool.new_id(), None);
}

#[test]
fn index_pool_hands_out_the_last_returned_first() {
    let mut pool = IndexPool::with_capacity(3);
    assert_eq!(pool.new_id(), Some(1));
    assert_eq!(pool.new_id(), Some(2));
    assert_eq!(pool.new_id(), Some(3));
    pool.return_id(1);
    pool.return_id(3);
    assert_eq!(pool.new_id(), Some(3));
    assert_eq!(pool.new_id(), Some(1));
    assert_eq!(pool.new_id(), None);
}

#[test]
fn index_pool_of_no_capacity_is_always_empty() {
    let mut pool = IndexPool::with_capacity(0);
    assert_eq!(pool.new_id(), None);
}

#[test]
fn pool_admits_up_to_its_capacity() {
    let mut pool: ClientPool<EventObserver> = ClientPool::new(2, 5);
    let first = pool.add(socket(0x0a00_0001, 1000)).unwrap();
    let second = pool.add(socket(0x0a00_0002, 1000)).unwrap();
    assert_eq!(first.id(), 1);
    assert_eq!(second.id(), 2);
    assert_eq!(pool.len(), 2);
    assert_eq!(
        pool.add(socket(0x0a00_0003, 1000)).map(|handle| handle.id()),
        Err(ClientPoolError::MaxCapacity)
    );
    assert_eq!(pool.len(), 2);
}

#[test]
fn pool_admits_up_to_its_capacity_per_address() {
    let mut pool: ClientPool<EventObserver> = ClientPool::new(10, 2);
    let ip = 0xc0a8_0001;
    assert!(pool.add(socket(ip, 1)).is_ok());
    assert!(pool.add(socket(ip, 2)).is_ok());
    assert_eq!(
        pool.add(socket(ip, 3)).map(|handle| handle.id()),
        Err(ClientPoolError::MaxCapacityForIp(ip))
    );
    assert_eq!(pool.num_of_clients_for_ip(ip), 2);
    assert!(pool.add(socket(ip + 1, 3)).is_ok());
    assert_eq!(pool.len(), 3);
}

#[test]
fn pool_looks_at_the_address_before_the_capacity() {
    let mut pool: ClientPool<EventObserver> = ClientPool::new(1, 1);
    let ip = 7;
    assert!(pool.add(socket(ip, 1)).is_ok());
    assert_eq!(
        pool.add(socket(ip, 2)).map(|handle| handle.id()),
        Err(ClientPoolError::MaxCapacityForIp(ip))
    );
    assert_eq!(
        pool.add(socket(ip + 1, 2)).map(|handle| handle.id()),
        Err(ClientPoolError::MaxCapacity)
    );
}

#[test]
fn pool_of_no_capacity_per_address_admits_nobody() {
    let mut pool: ClientPool<EventObserver> = ClientPool::new(10, 0);
    assert_eq!(
        pool.add(socket(9, 1)).map(|handle| handle.id()),
        Err(ClientPoolError::MaxCapacityForIp(9))
    );
    assert_eq!(pool.len(), 0);
}

#[test]
fn release_frees_the_place_and_the_identifier() {
    let mut pool: ClientPool<EventObserver> = ClientPool::new(1, 1);
    let handle = pool.add(socket(5, 80)).unwrap();
    assert_eq!(handle.id(), 1);
    let client = pool.release(handle).unwrap();
    assert_eq!(client.id(), 1);
    assert_eq!(client.socket(), socket(5, 80));
    assert_eq!(pool.len(), 0);
    assert_eq!(pool.num_of_clients_for_ip(5), 0);
    let again = pool.add(socket(5, 81)).unwrap();
    assert_eq!(again.id(), 1);
}

#[test]
fn pool_survives_many_sessions() {
    let mut pool: ClientPool<EventObserver> = ClientPool::new(4, 2);
    for round in 0..2000u32 {
        let a = pool.add(socket(round, 1)).unwrap();
        let b = pool.add(socket(round, 2)).unwrap();
        assert!(pool.add(socket(round, 3)).is_err());
        assert_eq!(pool.num_of_clients_for_ip(round), 2);
        assert!(pool.release(a).is_ok());
        assert!(pool.release(b).is_ok());
        assert_eq!(pool.len(), 0);
    }
}

struct Recorder {
    heard: Vec<ClientNotice>,
}

struct Shared(Rc<RefCell<Recorder>>);

impl vstd::view::View for Shared {
    type V = ();

    fn view(&self) {}
}

impl EventListener<ClientNotice> for Shared {
    fn wf(&self) -> bool {
        true
    }

    fn prevents(_state: (), _data: ClientNotice, _prevented: bool) -> bool {
        false
    }

    fn stops(_state: (), _data: ClientNotice, _prevented: bool) -> bool {
        false
    }

    fn next(_state: (), _data: ClientNotice, _prevented: bool) {}

    fn call<A: EventArgs<ClientNotice>>(&mut self, event: &mut A) -> EventAction {
        self.0.borrow_mut().heard.push(*event.data());
        EventAction::Keep
    }
}

#[test]
fn pool_tells_its_listeners_of_who_comes_and_goes() {
    let recorder = Rc::new(RefCell::new(Recorder { heard: Vec::new() }));
    let mut pool = ClientPool::new(1, 1);
    pool.subscribe(Shared(recorder.clone()));
    let handle = pool.add(socket(3, 9)).unwrap();
    assert!(pool.add(socket(4, 9)).is_err());
    let client = pool.release(handle).unwrap();
    assert_eq!(client, Client::new(1, socket(3, 9)));
    assert_eq!(
        recorder.borrow().heard,
        vec![ClientNotice::Connect(client), ClientNotice::Disconnect(client)]
    );
}
