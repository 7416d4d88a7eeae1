//! The event-stream side of the broker: partitioning, the outbound record,
//! and the per-record step of the reply listeners.
//!
//! Producer and consumer must agree on a partition for a correlation id
//! without any coordination, so the partition is a fixed well-known hash of
//! the record key — not the platform's default partitioner. The listeners'
//! loops poll the stream outside this crate; what each polled record does
//! to the registry is decided and verified here.

use vstd::prelude::*;
use vstd::string::*;
use vstd::utf8::encode_utf8;
use crate::dryrun::Simulering;
use crate::models::Utbetaling;
use crate::registry::{Delivery, Registry, CHANNEL_CAPACITY};
use crate::status::Reply;
use crate::uid::{parse_uid, uid_chars, uuid_any_val, valid_uuid_any, Uid};

verus! {

/// The fixed size of the partition space.
pub const NUM_PARTITIONS: i32 = 3;

/// The 32-bit XXH32 digest (seed 0) of a byte sequence.
pub uninterp spec fn xxh32_of(data: Seq<u8>) -> u32;

/// Relies on `twox_hash::XxHash32::oneshot` with seed 0: the XXH32 digest,
/// a function of the input bytes alone.
#[verifier::external_body]
fn xxh32(data: &[u8]) -> (r: u32)
    ensures
        r == xxh32_of(data@),
{
    twox_hash::XxHash32::oneshot(0, data)
}

/// The partition a correlation id maps to: the XXH32 digest of the UTF-8
/// bytes of its canonical string form, sign bit cleared, reduced into the
/// partition space. A pure function of the id, so producer and consumer
/// derive the same value independently.
pub open spec fn spec_partition(id: Uid) -> int {
    ((xxh32_of(encode_utf8(uid_chars(id.value))) & 0x7fffffff) as int) % (NUM_PARTITIONS as int)
}

/// Maps a correlation id to its partition: deterministic, stable across
/// processes, and always within `[0, NUM_PARTITIONS)`.
pub fn partition(key: Uid) -> (r: i32)
    ensures
        r == spec_partition(key),
        0 <= r < NUM_PARTITIONS,
{
    broadcast use vstd::string::group_string_axioms;

    let s = key.to_hyphenated();
    let h = xxh32(s.as_str().as_bytes());
    ((h & 0x7fffffff) % 3) as i32
}

/// The topic a command is routed to, by benefit-type variant.
pub open spec fn spec_topic(u: Utbetaling) -> Seq<char> {
    match u {
        Utbetaling::Aap(_) => "helved.utbetalinger-aap.v1"@,
        Utbetaling::Dp(_) => "helved.utbetalinger-dp.v1"@,
        Utbetaling::Ts(_) => "helved.utbetalinger-ts.v1"@,
        Utbetaling::Tp(_) => "helved.utbetalinger-tp.v1"@,
    }
}

/// The topic name for a command: the dispatch table behind the publisher.
pub fn topic_for(u: &Utbetaling) -> (r: &'static str)
    ensures
        r@ == spec_topic(*u),
{
    match u {
        Utbetaling::Aap(_) => "helved.utbetalinger-aap.v1",
        Utbetaling::Dp(_) => "helved.utbetalinger-dp.v1",
        Utbetaling::Ts(_) => "helved.utbetalinger-ts.v1",
        Utbetaling::Tp(_) => "helved.utbetalinger-tp.v1",
    }
}

/// One fully-prepared outbound record: everything the stream producer
/// needs, computed and checked before any transport is touched.
pub struct PublishPlan {
    /// The per-benefit-type topic.
    pub topic: String,
    /// The record key: the correlation id's canonical string form.
    pub key: String,
    /// The partition, derived from the key alone.
    pub partition: i32,
    /// The JSON payload.
    pub payload: String,
}

/// Prepares the outbound record for a command: serializes the payload,
/// sets the key to the correlation id's string form, and selects the
/// partition via the fixed hash.
pub fn plan_utbetaling(uid: Uid, utbet: &Utbetaling) -> (r: PublishPlan)
    ensures
        r.topic@ == spec_topic(*utbet),
        r.key@ == uid_chars(uid.value),
        r.partition == spec_partition(uid),
        0 <= r.partition < NUM_PARTITIONS,
        r.payload@ == crate::models::spec_json(*utbet),
{
    let topic = String::from_str(topic_for(utbet));
    let key = uid.to_hyphenated();
    let part = partition(uid);
    let payload = utbet.to_json();
    PublishPlan { topic, key, partition: part, payload }
}

/// What the listener did with one polled record.
#[derive(Clone, Copy, Debug, PartialEq, Eq, Structural)]
pub enum ListenStep {
    /// The record key is missing or is no uuid string: the record is
    /// skipped, never crashing the loop.
    BadKey,
    /// The payload is missing or undecodable: skipped likewise.
    BadPayload,
    /// The record was decoded and handed to the registry.
    Dispatched(Delivery),
}

/// The per-record step of the status-reply listener: decode the key,
/// then deliver the decoded reply — whatever its terminality — to the
/// matching waiter. A malformed record or an unknown id never disturbs
/// the registry and never fails loudly.
pub fn status_listener_step(reg: &mut Registry, key: Option<&str>, reply: Option<Reply>) -> (r:
    ListenStep)
    ensures
        match key {
            Option::None => r == ListenStep::BadKey && final(reg)@ == old(reg)@,
            Option::Some(k) => {
                &&& !valid_uuid_any(k@) ==> r == ListenStep::BadKey && final(reg)@ == old(reg)@
                &&& valid_uuid_any(k@) && reply is None ==> r == ListenStep::BadPayload && final(reg)@ == old(reg)@
                &&& valid_uuid_any(k@) && reply is Some ==> {
                    let id = uuid_any_val(k@) as u128;
                    &&& !old(reg)@.contains_key(id) ==> r == ListenStep::Dispatched(
                        Delivery::NoWaiter,
                    ) && final(reg)@ =~= old(reg)@
                    &&& old(reg)@.contains_key(id) && old(reg)@[id].status_inbox@.len()
                        >= CHANNEL_CAPACITY ==> r == ListenStep::Dispatched(Delivery::Dropped)
                        && final(reg)@ =~= old(reg)@
                    &&& old(reg)@.contains_key(id) && old(reg)@[id].status_inbox@.len()
                        < CHANNEL_CAPACITY ==> {
                        &&& r == ListenStep::Dispatched(Delivery::Delivered)
                        &&& final(reg)@.dom() =~= old(reg)@.dom()
                        &&& final(reg)@[id].status_inbox@ =~= old(reg)@[id].status_inbox@.push(
                            reply->Some_0,
                        )
                        &&& final(reg)@[id].sim_slot == old(reg)@[id].sim_slot
                        &&& final(reg)@[id].wants_sim == old(reg)@[id].wants_sim
                        &&& forall|k2: u128|
                            k2 != id && old(reg)@.contains_key(k2) ==> final(reg)@[k2] == old(reg)@[k2]
                    }
                }
            },
        },
{
    let k = match key {
        None => {
            return ListenStep::BadKey;
        },
        Some(k) => k,
    };
    let uid = match parse_uid(k) {
        None => {
            return ListenStep::BadKey;
        },
        Some(u) => u,
    };
    let rep = match reply {
        None => {
            return ListenStep::BadPayload;
        },
        Some(rep) => rep,
    };
    ListenStep::Dispatched(reg.deliver(uid, rep))
}

/// The per-record step of the dry-run listener: decode the key, then hand
/// the simulation result to the matching waiter — at most one lands per
/// correlation id.
pub fn dryrun_listener_step(reg: &mut Registry, key: Option<&str>, sim: Option<Simulering>) -> (r:
    ListenStep)
    ensures
        match key {
            Option::None => r == ListenStep::BadKey && final(reg)@ == old(reg)@,
            Option::Some(k) => {
                &&& !valid_uuid_any(k@) ==> r == ListenStep::BadKey && final(reg)@ == old(reg)@
                &&& valid_uuid_any(k@) && sim is None ==> r == ListenStep::BadPayload && final(reg)@
                    == old(reg)@
                &&& valid_uuid_any(k@) && sim is Some ==> {
                    let id = uuid_any_val(k@) as u128;
                    &&& !old(reg)@.contains_key(id) ==> r == ListenStep::Dispatched(
                        Delivery::NoWaiter,
                    ) && final(reg)@ =~= old(reg)@
                    &&& old(reg)@.contains_key(id) && !(old(reg)@[id].wants_sim && old(reg)@[id].sim_slot is None) ==> r == ListenStep::Dispatched(Delivery::Dropped)
                        && final(reg)@ =~= old(reg)@
                    &&& old(reg)@.contains_key(id) && old(reg)@[id].wants_sim && old(reg)@[id].sim_slot is None ==> {
                        &&& r == ListenStep::Dispatched(Delivery::Delivered)
                        &&& final(reg)@.dom() =~= old(reg)@.dom()
                        &&& final(reg)@[id].status_inbox@ =~= old(reg)@[id].status_inbox@
                        &&& final(reg)@[id].sim_slot == Some(sim->Some_0)
                        &&& final(reg)@[id].wants_sim == old(reg)@[id].wants_sim
                        &&& forall|k2: u128|
                            k2 != id && old(reg)@.contains_key(k2) ==> final(reg)@[k2] == old(reg)@[k2]
                    }
                }
            },
        },
{
    let k = match key {
        None => {
            return ListenStep::BadKey;
        },
        Some(k) => k,
    };
    let uid = match parse_uid(k) {
        None => {
            return ListenStep::BadKey;
        },
        Some(u) => u,
    };
    let s = match sim {
        None => {
            return ListenStep::BadPayload;
        },
        Some(s) => s,
    };
    ListenStep::Dispatched(reg.deliver_sim(uid, s))
}

} // verus!
