use abetal::dryrun::Simulering;
use abetal::kafka::{dryrun_listener_step, status_listener_step, ListenStep};
use abetal::registry::{Delivery, Registry};
use abetal::status::{Reply, Status};
use abetal::uid::Uid;

fn reply(status: Status) -> Reply {
    Reply { status, error: None }
}

#[test]
fn malformed_keys_never_disturb_the_registry() {
    let mut reg = Registry::new();
    let id = Uid::new(5);
    reg.register(id, false).unwrap();

    let r1 = status_listener_step(&mut reg, None, Some(reply(Status::Okay)));
    assert_eq!(r1, ListenStep::BadKey);
    let r2 = status_listener_step(&mut reg, Some("not-a-uuid"), Some(reply(Status::Okay)));
    assert_eq!(r2, ListenStep::BadKey);
    assert_eq!(reg.len(), 1);
    assert!(reg.take_status(id).is_none());
}

#[test]
fn undecodable_payload_is_skipped() {
    let mut reg = Registry::new();
    let id = Uid::new(6);
    reg.register(id, false).unwrap();
    let key = id.to_hyphenated();
    let r = status_listener_step(&mut reg, Some(&key), None);
    assert_eq!(r, ListenStep::BadPayload);
    assert!(reg.take_status(id).is_none());
}

#[test]
fn decoded_reply_reaches_the_matching_waiter() {
    let mut reg = Registry::new();
    let id = Uid::new(0xfeed);
    reg.register(id, false).unwrap();
    let key = id.to_hyphenated();
    let r = status_listener_step(&mut reg, Some(&key), Some(reply(Status::HosOppdrag)));
    assert_eq!(r, ListenStep::Dispatched(Delivery::Delivered));
    let got = reg.take_status(id).unwrap();
    assert_eq!(got.status, Status::HosOppdrag);
}

#[test]
fn foreign_key_forms_still_reach_the_waiter() {
    // a peer may key its records in any form uuid parsing accepts
    let mut reg = Registry::new();
    let id = Uid::new(0xa1a2a3a4_b1b2_c1c2_d1d2_d3d4d5d6d7d8_u128);
    reg.register(id, false).unwrap();
    let simple = "a1a2a3a4b1b2c1c2d1d2d3d4d5d6d7d8";
    let r = status_listener_step(&mut reg, Some(simple), Some(reply(Status::Mottatt)));
    assert_eq!(r, ListenStep::Dispatched(Delivery::Delivered));
    let urn = "urn:uuid:a1a2a3a4-b1b2-c1c2-d1d2-d3d4d5d6d7d8";
    let r = status_listener_step(&mut reg, Some(urn), Some(reply(Status::Okay)));
    assert_eq!(r, ListenStep::Dispatched(Delivery::Delivered));
    assert_eq!(reg.take_status(id).unwrap().status, Status::Mottatt);
    assert_eq!(reg.take_status(id).unwrap().status, Status::Okay);
}

#[test]
fn reply_for_unknown_id_is_discarded() {
    let mut reg = Registry::new();
    let key = Uid::new(404).to_hyphenated();
    let r = status_listener_step(&mut reg, Some(&key), Some(reply(Status::Okay)));
    assert_eq!(r, ListenStep::Dispatched(Delivery::NoWaiter));
    assert_eq!(reg.len(), 0);
}

#[test]
fn dryrun_listener_fills_the_sim_slot_once() {
    let mut reg = Registry::new();
    let id = Uid::new(0xbeef);
    reg.register(id, true).unwrap();
    let key = id.to_hyphenated();
    let first = dryrun_listener_step(&mut reg, Some(&key), Some(Simulering::new(Vec::new())));
    assert_eq!(first, ListenStep::Dispatched(Delivery::Delivered));
    let second = dryrun_listener_step(&mut reg, Some(&key), Some(Simulering::new(Vec::new())));
    assert_eq!(second, ListenStep::Dispatched(Delivery::Dropped));
    assert!(reg.take_sim(id).is_some());
}

#[test]
fn dryrun_listener_skips_bad_records() {
    let mut reg = Registry::new();
    let r1 = dryrun_listener_step(&mut reg, None, Some(Simulering::new(Vec::new())));
    assert_eq!(r1, ListenStep::BadKey);
    let key = Uid::new(1).to_hyphenated();
    let r2 = dryrun_listener_step(&mut reg, Some(&key), None);
    assert_eq!(r2, ListenStep::BadPayload);
    let r3 = dryrun_listener_step(&mut reg, Some(&key), Some(Simulering::new(Vec::new())));
    assert_eq!(r3, ListenStep::Dispatched(Delivery::NoWaiter));
}
