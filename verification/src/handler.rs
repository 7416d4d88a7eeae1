//! The request handler's resolution rules.
//!
//! A handler registers a waiter, triggers the publisher, then races the
//! delivered replies against a fixed deadline. The decision rules live
//! here, as a state machine consumed one event at a time: a simulation
//! result always wins at once; a terminal status reply (OK or FAILED)
//! resolves at once; non-terminal replies only record progress; when the
//! deadline fires, observed progress means 202 Accepted and silence means
//! 408. The surrounding process (channels, timers) hands the events in;
//! every rule about them is verified here.

use vstd::prelude::*;
use crate::dryrun::Simulering;
use crate::registry::{Registry, RegistryError};
use crate::status::{Reply, Status};
use crate::uid::Uid;

verus! {

/// The fixed overall deadline a handler races its waiter against, in
/// seconds.
pub const DEADLINE_SECS: u64 = 30;

/// How long a listener's poll may block, in milliseconds: short, so that
/// shutdown checks stay responsive.
pub const POLL_TIMEOUT_MS: u64 = 50;

/// One thing a waiting handler can observe: a status reply, a simulation
/// result, or the deadline firing.
#[derive(Clone, Debug)]
pub enum Event {
    Status(Reply),
    Sim(Simulering),
    Deadline,
}

/// The handler's decision: what the HTTP response will be.
#[derive(Clone, Debug)]
pub enum HttpOutcome {
    /// A terminal OK reply: 200 with the reply body.
    OkReply(Reply),
    /// A terminal FAILED reply: the embedded downstream status code (500
    /// when the reply carries no structured error, 400 when it carries an
    /// unusable one), with the reply body.
    FailedReply(u16, Reply),
    /// A simulation result: 200 with the simulated amounts.
    SimResult(Simulering),
    /// Deadline elapsed after progress was observed: 202 Accepted.
    Accepted,
    /// Deadline elapsed with no reply at all: 408.
    NoReply,
    /// The publish step failed; the handler never waited.
    PublishFailed,
}

/// The HTTP status code a failed reply maps to: the embedded downstream
/// code when it is a usable one, 400 when it is out of range, 500 when the
/// reply carries no structured error at all.
pub open spec fn spec_failed_code(r: Reply) -> u16 {
    match r.error {
        Option::None => 500,
        Option::Some(e) => if 100 <= e.status_code && e.status_code <= 999 {
            e.status_code
        } else {
            400
        },
    }
}

/// The outcome a terminal status reply resolves to.
pub open spec fn spec_status_outcome(r: Reply) -> HttpOutcome {
    if r.status == Status::Okay {
        HttpOutcome::OkReply(r)
    } else {
        HttpOutcome::FailedReply(spec_failed_code(r), r)
    }
}

/// The outcome of a waiter that observes `events` in order, having already
/// seen a reply iff `seen`: the first simulation result or terminal status
/// decides; non-terminal statuses record progress; the deadline — or the
/// end of the trace — yields 202 with progress and 408 without.
pub open spec fn spec_resolve(events: Seq<Event>, seen: bool) -> HttpOutcome
    decreases events.len(),
{
    if events.len() == 0 {
        if seen {
            HttpOutcome::Accepted
        } else {
            HttpOutcome::NoReply
        }
    } else {
        match events[0] {
            Event::Deadline => if seen {
                HttpOutcome::Accepted
            } else {
                HttpOutcome::NoReply
            },
            Event::Sim(s) => HttpOutcome::SimResult(s),
            Event::Status(r) => if r.status.spec_is_terminal() {
                spec_status_outcome(r)
            } else {
                spec_resolve(events.drop_first(), true)
            },
        }
    }
}

impl HttpOutcome {
    /// The HTTP status code of this outcome.
    pub fn status_code(&self) -> (r: u16)
        ensures
            match self {
                HttpOutcome::OkReply(_) => r == 200,
                HttpOutcome::FailedReply(c, _) => r == c,
                HttpOutcome::SimResult(_) => r == 200,
                HttpOutcome::Accepted => r == 202,
                HttpOutcome::NoReply => r == 408,
                HttpOutcome::PublishFailed => r == 502,
            },
    {
        match self {
            HttpOutcome::OkReply(_) => 200,
            HttpOutcome::FailedReply(c, _) => *c,
            HttpOutcome::SimResult(_) => 200,
            HttpOutcome::Accepted => 202,
            HttpOutcome::NoReply => 408,
            HttpOutcome::PublishFailed => 502,
        }
    }
}

/// One in-flight request: its correlation id, whether it asked for a
/// dry-run, whether any status reply has been observed yet, and whether a
/// decision has been reached.
pub struct Session {
    pub id: Uid,
    pub dryrun: bool,
    pub seen_reply: bool,
    pub done: bool,
}

impl Session {
    /// Feeds one observed event to the session. Returns the decision it
    /// forces, if any: a simulation result or a terminal status decides at
    /// once, the deadline always decides, and a non-terminal status only
    /// records progress.
    pub fn step(&mut self, event: Event) -> (r: Option<HttpOutcome>)
        requires
            !old(self).done,
        ensures
            final(self).id == old(self).id,
            final(self).dryrun == old(self).dryrun,
            final(self).done == (r is Some),
            match event {
                Event::Sim(s) => r == Some(HttpOutcome::SimResult(s)),
                Event::Status(rep) => {
                    &&& final(self).seen_reply
                    &&& rep.status.spec_is_terminal() ==> r == Some(spec_status_outcome(rep))
                    &&& !rep.status.spec_is_terminal() ==> r is None
                },
                Event::Deadline => r == Some(
                    if old(self).seen_reply {
                        HttpOutcome::Accepted
                    } else {
                        HttpOutcome::NoReply
                    },
                ),
            },
            final(self).seen_reply == (old(self).seen_reply || event matches Event::Status(_)),
    {
        match event {
            Event::Sim(s) => {
                self.done = true;
                Some(HttpOutcome::SimResult(s))
            },
            Event::Status(rep) => {
                self.seen_reply = true;
                if rep.status.is_terminal() {
                    self.done = true;
                    if rep.status == Status::Okay {
                        Some(HttpOutcome::OkReply(rep))
                    } else {
                        let code: u16 = match &rep.error {
                            Option::None => 500,
                            Option::Some(e) => if 100 <= e.status_code && e.status_code <= 999 {
                                e.status_code
                            } else {
                                400
                            },
                        };
                        Some(HttpOutcome::FailedReply(code, rep))
                    }
                } else {
                    None
                }
            },
            Event::Deadline => {
                self.done = true;
                if self.seen_reply {
                    Some(HttpOutcome::Accepted)
                } else {
                    Some(HttpOutcome::NoReply)
                }
            },
        }
    }
}

/// Registers a waiter for `id` and opens a session around it. Fails — and
/// leaves the registry alone — exactly when `id` is already registered.
pub fn open_session(reg: &mut Registry, id: Uid, dryrun: bool) -> (r: Result<
    Session,
    RegistryError,
>)
    ensures
        old(reg)@.contains_key(id.value) ==> r == Result::<Session, RegistryError>::Err(
            RegistryError::AlreadyRegistered,
        ) && final(reg)@ == old(reg)@,
        !old(reg)@.contains_key(id.value) ==> {
            &&& r matches Result::Ok(s) && s.id == id && s.dryrun == dryrun && !s.seen_reply
                && !s.done
            &&& final(reg)@.contains_key(id.value)
            &&& final(reg)@.dom() =~= old(reg)@.dom().insert(id.value)
            &&& final(reg)@[id.value].wants_sim == dryrun
            &&& final(reg)@[id.value].status_inbox@.len() == 0
            &&& final(reg)@[id.value].sim_slot is None
            &&& forall|k: u128|
                k != id.value && old(reg)@.contains_key(k) ==> final(reg)@[k] == old(reg)@[k]
        },
{
    match reg.register(id, dryrun) {
        Err(e) => Err(e),
        Ok(()) => Ok(Session { id, dryrun, seen_reply: false, done: false }),
    }
}

/// Removes the session's registry entry: the guaranteed cleanup on every
/// exit path. Afterwards the correlation id is absent, so any late
/// delivery for it is a no-op.
pub fn close_session(reg: &mut Registry, session: &Session)
    ensures
        final(reg)@ =~= old(reg)@.remove(session.id.value),
        !final(reg)@.contains_key(session.id.value),
{
    reg.remove(session.id);
}

/// The whole handler decision path for one request, from registration to
/// cleanup: register a waiter, and — when the publish step succeeded —
/// resolve the observed events; a publish failure skips the waiting
/// entirely. Whatever path is taken, the correlation id is absent from the
/// registry afterwards.
pub fn handle_utbetaling(
    reg: &mut Registry,
    id: Uid,
    dryrun: bool,
    publish_ok: bool,
    events: Vec<Event>,
) -> (r: Result<HttpOutcome, RegistryError>)
    ensures
        old(reg)@.contains_key(id.value) ==> r == Result::<HttpOutcome, RegistryError>::Err(
            RegistryError::AlreadyRegistered,
        ) && final(reg)@ == old(reg)@,
        !old(reg)@.contains_key(id.value) ==> {
            &&& !final(reg)@.contains_key(id.value)
            &&& final(reg)@ =~= old(reg)@.remove(id.value)
            &&& publish_ok ==> r == Result::<HttpOutcome, RegistryError>::Ok(
                spec_resolve(events@, false),
            )
            &&& !publish_ok ==> r == Result::<HttpOutcome, RegistryError>::Ok(
                HttpOutcome::PublishFailed,
            )
        },
{
    let session = match open_session(reg, id, dryrun) {
        Err(e) => {
            return Err(e);
        },
        Ok(s) => s,
    };
    if !publish_ok {
        close_session(reg, &session);
        proof {
            assert(reg@ =~= old(reg)@.remove(id.value));
        }
        return Ok(HttpOutcome::PublishFailed);
    }
    let outcome = run_session(session, events);
    reg.remove(id);
    proof {
        assert(reg@ =~= old(reg)@.remove(id.value));
    }
    Ok(outcome)
}

/// Resolves a session against the events it observes, in order. The trace
/// ending without a decision counts as the deadline firing.
pub fn run_session(session: Session, events: Vec<Event>) -> (r: HttpOutcome)
    requires
        !session.done,
    ensures
        r == spec_resolve(events@, session.seen_reply),
    decreases events@.len(),
{
    let mut sess = session;
    let mut rest = events;
    if rest.len() == 0 {
        match sess.step(Event::Deadline) {
            Some(o) => o,
            // unreachable: the deadline always decides
            None => HttpOutcome::NoReply,
        }
    } else {
        let ghost prev = rest@;
        let ev = rest.remove(0);
        proof {
            assert(prev.drop_first() =~= rest@);
        }
        match sess.step(ev) {
            Some(o) => o,
            None => run_session(sess, rest),
        }
    }
}

/// Law: delivering a terminal OK or FAILED reply resolves the handler at
/// once — the outcome is decided by that reply, whatever comes later and
/// without waiting for any deadline. Here `i` is the position of the first
/// terminal reply; everything before it is non-terminal progress.
pub proof fn lemma_terminal_resolves_immediately(events: Seq<Event>, seen: bool, i: int)
    requires
        0 <= i < events.len(),
        forall|j: int|
            0 <= j < i ==> ((#[trigger] events[j]) matches Event::Status(r)
                && !r.status.spec_is_terminal()),
        events[i] matches Event::Status(r) && r.status.spec_is_terminal(),
    ensures
        spec_resolve(events, seen) == spec_status_outcome(events[i]->Status_0),
    decreases i,
{
    if i > 0 {
        lemma_terminal_resolves_immediately(events.drop_first(), true, i - 1);
    }
}

/// Law: a simulation result always short-circuits status-reply resolution
/// — if one arrives before any terminal status reply, the outcome is that
/// simulation result, whatever non-terminal progress came before it.
pub proof fn lemma_sim_short_circuits(events: Seq<Event>, seen: bool, i: int)
    requires
        0 <= i < events.len(),
        forall|j: int|
            0 <= j < i ==> ((#[trigger] events[j]) matches Event::Status(r)
                && !r.status.spec_is_terminal()),
        events[i] matches Event::Sim(s),
    ensures
        spec_resolve(events, seen) == HttpOutcome::SimResult(events[i]->Sim_0),
    decreases i,
{
    if i > 0 {
        lemma_sim_short_circuits(events.drop_first(), true, i - 1);
    }
}

/// Law: when only non-terminal replies arrive before the deadline, the
/// handler answers 202 Accepted — never 200, and never 408.
pub proof fn lemma_nonterminal_only_gives_accepted(events: Seq<Event>, seen: bool)
    requires
        events.len() > 0,
        events[events.len() - 1] == Event::Deadline,
        forall|j: int|
            0 <= j < events.len() - 1 ==> ((#[trigger] events[j]) matches Event::Status(r)
                && !r.status.spec_is_terminal()),
        seen || events.len() > 1,
    ensures
        spec_resolve(events, seen) == HttpOutcome::Accepted,
    decreases events.len(),
{
    if events.len() > 1 {
        lemma_nonterminal_only_gives_accepted(events.drop_first(), true);
    }
}

/// Law: when no reply at all arrives before the deadline, the handler
/// answers 408 — never 202.
pub proof fn lemma_no_reply_gives_timeout(events: Seq<Event>)
    requires
        forall|j: int| 0 <= j < events.len() ==> (#[trigger] events[j]) matches Event::Deadline,
    ensures
        spec_resolve(events, false) == HttpOutcome::NoReply,
{
}

/// Maps the raced simulation wait to its response: the result when one
/// arrived in time, 408 when the deadline elapsed first.
pub fn simulering_handler(result: Option<Simulering>) -> (r: HttpOutcome)
    ensures
        match result {
            Option::Some(s) => r == HttpOutcome::SimResult(s),
            Option::None => r == HttpOutcome::NoReply,
        },
{
    match result {
        Some(s) => HttpOutcome::SimResult(s),
        None => HttpOutcome::NoReply,
    }
}

/// What a stream of status replies resolves to once the sender closes:
/// the first terminal reply, or failing that the last reply seen at all.
pub open spec fn spec_monitor(rs: Seq<Reply>, last: Option<Reply>) -> Option<Reply>
    decreases rs.len(),
{
    if rs.len() == 0 {
        last
    } else if rs[0].status.spec_is_terminal() {
        Option::Some(rs[0])
    } else {
        spec_monitor(rs.drop_first(), Option::Some(rs[0]))
    }
}

/// Scans delivered replies in order: returns the first terminal one, or,
/// when none is terminal, the last one observed (`None` for an empty
/// stream).
pub fn monitor_replies(replies: Vec<Reply>) -> (r: Option<Reply>)
    ensures
        r == spec_monitor(replies@, Option::None),
{
    monitor_from(replies, None)
}

/// The recursive scan behind [`monitor_replies`], carrying the last
/// non-terminal reply seen so far.
fn monitor_from(replies: Vec<Reply>, last: Option<Reply>) -> (r: Option<Reply>)
    ensures
        r == spec_monitor(replies@, last),
    decreases replies@.len(),
{
    let mut rest = replies;
    if rest.len() == 0 {
        return last;
    }
    let ghost prev = rest@;
    let head = rest.remove(0);
    proof {
        assert(prev.drop_first() =~= rest@);
    }
    if head.status.is_terminal() {
        return Some(head);
    }
    monitor_from(rest, Some(head))
}

} // verus!
