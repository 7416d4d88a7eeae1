use abetal::dryrun::Simulering;
use abetal::registry::{Delivery, Registry, RegistryError};
use abetal::status::{Reply, Status};
use abetal::uid::Uid;

fn reply(status: Status) -> Reply {
    Reply { status, error: None }
}

#[test]
fn register_then_contains() {
    let mut reg = Registry::new();
    let id = Uid::new(1);
    assert!(!reg.contains(id));
    assert!(reg.register(id, false).is_ok());
    assert!(reg.contains(id));
    assert_eq!(reg.len(), 1);
}

#[test]
fn register_twice_is_rejected() {
    let mut reg = Registry::new();
    let id = Uid::new(42);
    assert!(reg.register(id, false).is_ok());
    let second = reg.register(id, true);
    assert_eq!(second, Err(RegistryError::AlreadyRegistered));
    assert_eq!(reg.len(), 1);
}

#[test]
fn deliver_to_unregistered_id_is_a_noop() {
    let mut reg = Registry::new();
    let id = Uid::new(7);
    let outcome = reg.deliver(id, reply(Status::Okay));
    assert_eq!(outcome, Delivery::NoWaiter);
    assert_eq!(reg.len(), 0);
}

#[test]
fn deliver_then_take_in_order() {
    let mut reg = Registry::new();
    let id = Uid::new(9);
    reg.register(id, false).unwrap();
    assert_eq!(reg.deliver(id, reply(Status::Mottatt)), Delivery::Delivered);
    assert_eq!(reg.deliver(id, reply(Status::Okay)), Delivery::Delivered);
    let first = reg.take_status(id).unwrap();
    assert_eq!(first.status, Status::Mottatt);
    let second = reg.take_status(id).unwrap();
    assert_eq!(second.status, Status::Okay);
    assert!(reg.take_status(id).is_none());
}

#[test]
fn full_inbox_drops_delivery() {
    let mut reg = Registry::new();
    let id = Uid::new(11);
    reg.register(id, false).unwrap();
    for _ in 0..100 {
        assert_eq!(reg.deliver(id, reply(Status::Mottatt)), Delivery::Delivered);
    }
    assert_eq!(reg.deliver(id, reply(Status::Okay)), Delivery::Dropped);
}

#[test]
fn sim_lands_only_in_a_waiter_that_wants_it() {
    let mut reg = Registry::new();
    let wants = Uid::new(20);
    let plain = Uid::new(21);
    reg.register(wants, true).unwrap();
    reg.register(plain, false).unwrap();
    let sim = Simulering::new(Vec::new());
    assert_eq!(reg.deliver_sim(plain, sim.clone()), Delivery::Dropped);
    assert_eq!(reg.deliver_sim(wants, sim.clone()), Delivery::Delivered);
    // at most one result per correlation id
    assert_eq!(reg.deliver_sim(wants, sim.clone()), Delivery::Dropped);
    assert!(reg.take_sim(wants).is_some());
    assert!(reg.take_sim(wants).is_none());
}

#[test]
fn deliver_sim_to_unregistered_id_is_a_noop() {
    let mut reg = Registry::new();
    let outcome = reg.deliver_sim(Uid::new(5), Simulering::new(Vec::new()));
    assert_eq!(outcome, Delivery::NoWaiter);
    assert_eq!(reg.len(), 0);
}

#[test]
fn remove_is_idempotent() {
    let mut reg = Registry::new();
    let id = Uid::new(33);
    reg.register(id, false).unwrap();
    reg.remove(id);
    assert!(!reg.contains(id));
    reg.remove(id);
    assert!(!reg.contains(id));
    // a late reply after removal is dropped, not an error
    assert_eq!(reg.deliver(id, reply(Status::Okay)), Delivery::NoWaiter);
}
