//! A request/reply correlation broker for a payment-disbursement pipeline.
//!
//! An HTTP front end accepts a disbursement command, publishes it onto a
//! key-partitioned event stream, and waits for an asynchronous status reply
//! correlated by an identifier. This crate holds the verified core of that
//! broker: the deterministic partitioner, the correlation registry that maps
//! ids to pending waiters, the decode-and-dispatch step of the reply
//! listeners, the resolution rules of the request handler, and the wire
//! encoding of the outbound commands.

pub mod aap;
pub mod date;
pub mod dp;
pub mod dryrun;
pub mod dto;
pub mod handler;
pub mod jsonenc;
pub mod job;
pub mod kafka;
pub mod models;
pub mod registry;
pub mod status;
pub mod tp;
pub mod ts;
pub mod uid;
pub mod utsjekk;
