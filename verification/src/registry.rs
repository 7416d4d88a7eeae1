//! The correlation registry.
//!
//! The shared map from correlation id to a pending waiter: a bounded inbox
//! of status replies plus a single slot for a dry-run simulation result.
//! Handlers register and remove entries; the reply listeners deliver into
//! them. A reply for an id nobody is waiting on is silently discarded, and
//! a full inbox drops the reply rather than block — delivery never fails
//! loudly and never blocks a listener.

use vstd::prelude::*;
use std::collections::HashMap;
use crate::dryrun::Simulering;
use crate::status::Reply;
use crate::uid::Uid;

verus! {

broadcast use vstd::std_specs::hash::group_hash_axioms;

/// The capacity of a waiter's status inbox; a delivery beyond it is
/// dropped, never blocked on.
pub const CHANNEL_CAPACITY: usize = 100;

/// The per-correlation-id state held by the registry while a request
/// handler is waiting.
pub struct PendingWaiter {
    /// Status replies delivered but not yet consumed, oldest first.
    pub status_inbox: Vec<Reply>,
    /// The dry-run simulation result, delivered at most once.
    pub sim_slot: Option<Simulering>,
    /// Whether the handler asked for a simulation result at all.
    pub wants_sim: bool,
}

/// What became of a delivery attempt.
#[derive(Clone, Copy, Debug, PartialEq, Eq, Structural)]
pub enum Delivery {
    /// The reply reached the waiter.
    Delivered,
    /// A waiter exists but would not take the reply (full inbox, unwanted
    /// or repeated simulation result); the reply was dropped.
    Dropped,
    /// Nobody is waiting on this id; the reply was discarded.
    NoWaiter,
}

/// Why a registration was refused.
#[derive(Clone, Copy, Debug, PartialEq, Eq, Structural)]
pub enum RegistryError {
    /// The id already has a pending waiter; concurrent duplicate
    /// correlation ids are a caller error, never silently merged.
    AlreadyRegistered,
}

/// The map from correlation id to pending waiter.
pub struct Registry {
    map: HashMap<u128, PendingWaiter>,
}

impl View for Registry {
    type V = Map<u128, PendingWaiter>;

    closed spec fn view(&self) -> Map<u128, PendingWaiter> {
        self.map@
    }
}

impl Registry {
    /// An empty registry, as created once at server start.
    pub fn new() -> (r: Registry)
        ensures
            r@ == Map::<u128, PendingWaiter>::empty(),
    {
        Registry { map: HashMap::new() }
    }

    /// Whether `id` has a pending waiter.
    pub fn contains(&self, id: Uid) -> (r: bool)
        ensures
            r == self@.contains_key(id.value),
    {
        self.map.contains_key(&id.value)
    }

    /// The number of pending waiters.
    pub fn len(&self) -> (r: usize)
        ensures
            r == self@.len(),
    {
        self.map.len()
    }

    /// Creates and inserts a fresh waiter for `id`. Fails — leaving the
    /// registry unchanged — exactly when `id` is already registered: a
    /// duplicate in-flight correlation id is rejected, never overwritten.
    pub fn register(&mut self, id: Uid, wants_sim: bool) -> (r: Result<(), RegistryError>)
        ensures
            old(self)@.contains_key(id.value) ==> r == Result::<(), RegistryError>::Err(
                RegistryError::AlreadyRegistered,
            ) && final(self)@ == old(self)@,
            !old(self)@.contains_key(id.value) ==> {
                &&& r is Ok
                &&& final(self)@.dom() =~= old(self)@.dom().insert(id.value)
                &&& final(self)@[id.value].status_inbox@ =~= Seq::<Reply>::empty()
                &&& final(self)@[id.value].sim_slot is None
                &&& final(self)@[id.value].wants_sim == wants_sim
                &&& forall|k: u128|
                    k != id.value && old(self)@.contains_key(k) ==> final(self)@[k] == old(
                        self,
                    )@[k]
            },
    {
        if self.map.contains_key(&id.value) {
            Err(RegistryError::AlreadyRegistered)
        } else {
            let waiter = PendingWaiter { status_inbox: Vec::new(), sim_slot: None, wants_sim };
            self.map.insert(id.value, waiter);
            Ok(())
        }
    }

    /// Delivers a status reply to the waiter for `id`, if any: a
    /// non-blocking append to its inbox. With no waiter, or a full inbox,
    /// the reply is dropped and the registry is unchanged — a late or
    /// unknown reply is expected and harmless.
    pub fn deliver(&mut self, id: Uid, reply: Reply) -> (r: Delivery)
        ensures
            !old(self)@.contains_key(id.value) ==> r == Delivery::NoWaiter && final(self)@ =~= old(
                self,
            )@,
            old(self)@.contains_key(id.value) && old(self)@[id.value].status_inbox@.len()
                >= CHANNEL_CAPACITY ==> r == Delivery::Dropped && final(self)@ =~= old(self)@,
            old(self)@.contains_key(id.value) && old(self)@[id.value].status_inbox@.len()
                < CHANNEL_CAPACITY ==> {
                &&& r == Delivery::Delivered
                &&& final(self)@.dom() =~= old(self)@.dom()
                &&& final(self)@[id.value].status_inbox@ =~= old(
                    self,
                )@[id.value].status_inbox@.push(reply)
                &&& final(self)@[id.value].sim_slot == old(self)@[id.value].sim_slot
                &&& final(self)@[id.value].wants_sim == old(self)@[id.value].wants_sim
                &&& forall|k: u128|
                    k != id.value && old(self)@.contains_key(k) ==> final(self)@[k] == old(
                        self,
                    )@[k]
            },
    {
        match self.map.remove(&id.value) {
            None => Delivery::NoWaiter,
            Some(mut waiter) => {
                let ghost pre = old(self)@;
                if waiter.status_inbox.len() < CHANNEL_CAPACITY {
                    waiter.status_inbox.push(reply);
                    self.map.insert(id.value, waiter);
                    proof {
                        assert(self.map@ =~= pre.insert(id.value, waiter));
                    }
                    Delivery::Delivered
                } else {
                    self.map.insert(id.value, waiter);
                    proof {
                        assert(self.map@ =~= pre);
                    }
                    Delivery::Dropped
                }
            },
        }
    }

    /// Delivers a dry-run simulation result to the waiter for `id`, if any.
    /// It lands only in a waiter that asked for one and has none yet — at
    /// most one result per correlation id; otherwise it is dropped. With no
    /// waiter it is discarded; the registry is unchanged either way.
    pub fn deliver_sim(&mut self, id: Uid, sim: Simulering) -> (r: Delivery)
        ensures
            !old(self)@.contains_key(id.value) ==> r == Delivery::NoWaiter && final(self)@ =~= old(
                self,
            )@,
            old(self)@.contains_key(id.value) && !(old(self)@[id.value].wants_sim && old(
                self,
            )@[id.value].sim_slot is None) ==> r == Delivery::Dropped && final(self)@ =~= old(
                self,
            )@,
            old(self)@.contains_key(id.value) && old(self)@[id.value].wants_sim && old(
                self,
            )@[id.value].sim_slot is None ==> {
                &&& r == Delivery::Delivered
                &&& final(self)@.dom() =~= old(self)@.dom()
                &&& final(self)@[id.value].status_inbox@ =~= old(self)@[id.value].status_inbox@
                &&& final(self)@[id.value].sim_slot == Some(sim)
                &&& final(self)@[id.value].wants_sim == old(self)@[id.value].wants_sim
                &&& forall|k: u128|
                    k != id.value && old(self)@.contains_key(k) ==> final(self)@[k] == old(
                        self,
                    )@[k]
            },
    {
        match self.map.remove(&id.value) {
            None => Delivery::NoWaiter,
            Some(mut waiter) => {
                let ghost pre = old(self)@;
                if waiter.wants_sim && waiter.sim_slot.is_none() {
                    waiter.sim_slot = Some(sim);
                    self.map.insert(id.value, waiter);
                    proof {
                        assert(self.map@ =~= pre.insert(id.value, waiter));
                    }
                    Delivery::Delivered
                } else {
                    self.map.insert(id.value, waiter);
                    proof {
                        assert(self.map@ =~= pre);
                    }
                    Delivery::Dropped
                }
            },
        }
    }

    /// Takes the oldest unconsumed status reply for `id`, if any.
    pub fn take_status(&mut self, id: Uid) -> (r: Option<Reply>)
        ensures
            !old(self)@.contains_key(id.value) ==> r is None && final(self)@ =~= old(self)@,
            old(self)@.contains_key(id.value) && old(self)@[id.value].status_inbox@.len() == 0
                ==> r is None && final(self)@ =~= old(self)@,
            old(self)@.contains_key(id.value) && old(self)@[id.value].status_inbox@.len() > 0
                ==> {
                &&& r == Some(old(self)@[id.value].status_inbox@[0])
                &&& final(self)@.dom() =~= old(self)@.dom()
                &&& final(self)@[id.value].status_inbox@ =~= old(
                    self,
                )@[id.value].status_inbox@.drop_first()
                &&& final(self)@[id.value].sim_slot == old(self)@[id.value].sim_slot
                &&& final(self)@[id.value].wants_sim == old(self)@[id.value].wants_sim
                &&& forall|k: u128|
                    k != id.value && old(self)@.contains_key(k) ==> final(self)@[k] == old(
                        self,
                    )@[k]
            },
    {
        match self.map.remove(&id.value) {
            None => None,
            Some(mut waiter) => {
                let ghost pre = old(self)@;
                if waiter.status_inbox.len() > 0 {
                    let first = waiter.status_inbox.remove(0);
                    self.map.insert(id.value, waiter);
                    proof {
                        assert(self.map@ =~= pre.insert(id.value, waiter));
                    }
                    Some(first)
                } else {
                    self.map.insert(id.value, waiter);
                    proof {
                        assert(self.map@ =~= pre);
                    }
                    None
                }
            },
        }
    }

    /// Takes the simulation result for `id`, if one has been delivered.
    pub fn take_sim(&mut self, id: Uid) -> (r: Option<Simulering>)
        ensures
            !old(self)@.contains_key(id.value) ==> r is None && final(self)@ =~= old(self)@,
            old(self)@.contains_key(id.value) && old(self)@[id.value].sim_slot is None ==> r
                is None && final(self)@ =~= old(self)@,
            old(self)@.contains_key(id.value) && old(self)@[id.value].sim_slot is Some ==> {
                &&& r == old(self)@[id.value].sim_slot
                &&& final(self)@.dom() =~= old(self)@.dom()
                &&& final(self)@[id.value].status_inbox@ =~= old(self)@[id.value].status_inbox@
                &&& final(self)@[id.value].sim_slot is None
                &&& final(self)@[id.value].wants_sim == old(self)@[id.value].wants_sim
                &&& forall|k: u128|
                    k != id.value && old(self)@.contains_key(k) ==> final(self)@[k] == old(
                        self,
                    )@[k]
            },
    {
        match self.map.remove(&id.value) {
            None => None,
            Some(mut waiter) => {
                let ghost pre = old(self)@;
                let taken = waiter.sim_slot.take();
                self.map.insert(id.value, waiter);
                proof {
                    if pre[id.value].sim_slot is None {
                        assert(self.map@ =~= pre);
                    } else {
                        assert(self.map@ =~= pre.insert(id.value, waiter));
                    }
                }
                taken
            },
        }
    }

    /// Erases the entry for `id`; idempotent, and a no-op when `id` is not
    /// registered.
    pub fn remove(&mut self, id: Uid)
        ensures
            final(self)@ =~= old(self)@.remove(id.value),
            !final(self)@.contains_key(id.value),
    {
        self.map.remove(&id.value);
    }
}

} // verus!
