use abetal::dryrun::Simulering;
use abetal::handler::{
    close_session, handle_utbetaling, monitor_replies, open_session, run_session,
    simulering_handler, Event, HttpOutcome, Session,
};
use abetal::registry::{Delivery, Registry, RegistryError};
use abetal::status::{Error, Reply, Status};
use abetal::uid::Uid;

fn reply(status: Status) -> Reply {
    Reply { status, error: None }
}

fn failed_with(code: u16) -> Reply {
    Reply {
        status: Status::Feilet,
        error: Some(Error::new(code, String::from("nede"), String::from("doc"))),
    }
}

fn fresh_session(id: u128, dryrun: bool) -> Session {
    Session { id: Uid::new(id), dryrun, seen_reply: false, done: false }
}

#[test]
fn terminal_ok_resolves_at_once() {
    let mut sess = fresh_session(1, false);
    let out = sess.step(Event::Status(reply(Status::Okay)));
    match out {
        Some(HttpOutcome::OkReply(r)) => assert_eq!(r.status, Status::Okay),
        other => panic!("expected OkReply, got {:?}", other),
    }
}

#[test]
fn terminal_failed_uses_embedded_code() {
    let mut sess = fresh_session(2, false);
    let out = sess.step(Event::Status(failed_with(409)));
    match out {
        Some(HttpOutcome::FailedReply(code, _)) => assert_eq!(code, 409),
        other => panic!("expected FailedReply, got {:?}", other),
    }
}

#[test]
fn failed_without_error_maps_to_500() {
    let out = run_session(fresh_session(3, false), vec![Event::Status(reply(Status::Feilet))]);
    assert_eq!(out.status_code(), 500);
}

#[test]
fn failed_with_unusable_code_maps_to_400() {
    let out = run_session(fresh_session(4, false), vec![Event::Status(failed_with(1000))]);
    assert_eq!(out.status_code(), 400);
}

#[test]
fn only_nonterminal_replies_give_202_never_200() {
    let events = vec![
        Event::Status(reply(Status::Mottatt)),
        Event::Status(reply(Status::HosOppdrag)),
        Event::Deadline,
    ];
    let out = run_session(fresh_session(5, false), events);
    assert!(matches!(out, HttpOutcome::Accepted));
    assert_eq!(out.status_code(), 202);
}

#[test]
fn zero_replies_give_408_never_202() {
    let out = run_session(fresh_session(6, false), vec![Event::Deadline]);
    assert!(matches!(out, HttpOutcome::NoReply));
    assert_eq!(out.status_code(), 408);

    let empty = run_session(fresh_session(7, false), Vec::new());
    assert_eq!(empty.status_code(), 408);
}

#[test]
fn simulation_short_circuits_status_replies() {
    let events = vec![
        Event::Status(reply(Status::Mottatt)),
        Event::Sim(Simulering::new(Vec::new())),
        Event::Status(reply(Status::Okay)),
    ];
    let out = run_session(fresh_session(8, true), events);
    assert!(matches!(out, HttpOutcome::SimResult(_)));
    assert_eq!(out.status_code(), 200);
}

#[test]
fn session_cleanup_leaves_no_registry_entry() {
    let mut reg = Registry::new();
    let id = Uid::new(77);
    let sess = open_session(&mut reg, id, false).unwrap();
    assert!(reg.contains(id));
    close_session(&mut reg, &sess);
    assert!(!reg.contains(id));
    // a subsequent delivery is a no-op
    assert_eq!(reg.deliver(id, reply(Status::Okay)), Delivery::NoWaiter);
}

#[test]
fn end_to_end_terminal_ok_within_deadline() {
    // publish command, inject a terminal OK reply well before the deadline:
    // the handler answers 200 without waiting out the deadline
    let mut reg = Registry::new();
    let id = Uid::new(0xa1);
    let events = vec![Event::Status(reply(Status::Okay)), Event::Deadline];
    let out = handle_utbetaling(&mut reg, id, false, true, events).unwrap();
    assert_eq!(out.status_code(), 200);
    assert!(!reg.contains(id));
}

#[test]
fn end_to_end_only_received_gives_202() {
    // publish command, inject only a RECEIVED progress reply, then nothing:
    // the deadline elapses and the handler answers 202
    let mut reg = Registry::new();
    let id = Uid::new(0xa2);
    let events = vec![Event::Status(reply(Status::Mottatt)), Event::Deadline];
    let out = handle_utbetaling(&mut reg, id, false, true, events).unwrap();
    assert_eq!(out.status_code(), 202);
    assert!(!reg.contains(id));
}

#[test]
fn end_to_end_dryrun_simulation_wins() {
    // publish with dryrun set, inject a simulation result and a concurrent
    // status reply: the simulation payload wins with 200
    let mut reg = Registry::new();
    let id = Uid::new(0xa3);
    let events = vec![
        Event::Sim(Simulering::new(Vec::new())),
        Event::Status(reply(Status::Okay)),
    ];
    let out = handle_utbetaling(&mut reg, id, true, true, events).unwrap();
    assert!(matches!(out, HttpOutcome::SimResult(_)));
    assert_eq!(out.status_code(), 200);
    assert!(!reg.contains(id));
}

#[test]
fn publish_failure_skips_waiting_and_cleans_up() {
    let mut reg = Registry::new();
    let id = Uid::new(99);
    let out = handle_utbetaling(&mut reg, id, false, false, vec![Event::Deadline]).unwrap();
    assert!(matches!(out, HttpOutcome::PublishFailed));
    assert_eq!(out.status_code(), 502);
    assert!(!reg.contains(id));
}

#[test]
fn duplicate_correlation_id_is_rejected() {
    let mut reg = Registry::new();
    let id = Uid::new(123);
    reg.register(id, false).unwrap();
    let res = handle_utbetaling(&mut reg, id, false, true, Vec::new());
    assert_eq!(res.unwrap_err(), RegistryError::AlreadyRegistered);
    assert!(reg.contains(id));
}

#[test]
fn monitor_picks_first_terminal_reply() {
    let replies = vec![reply(Status::Mottatt), reply(Status::Feilet), reply(Status::Okay)];
    let got = monitor_replies(replies).unwrap();
    assert_eq!(got.status, Status::Feilet);
}

#[test]
fn monitor_falls_back_to_last_nonterminal() {
    let replies = vec![reply(Status::Mottatt), reply(Status::HosOppdrag)];
    let got = monitor_replies(replies).unwrap();
    assert_eq!(got.status, Status::HosOppdrag);
    assert!(monitor_replies(Vec::new()).is_none());
}

#[test]
fn simulering_handler_maps_timeout_to_408() {
    let hit = simulering_handler(Some(Simulering::new(Vec::new())));
    assert_eq!(hit.status_code(), 200);
    let missed = simulering_handler(None);
    assert_eq!(missed.status_code(), 408);
}
