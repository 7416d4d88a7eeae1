//! Decoded dry-run simulation results.
//!
//! A simulation result is the computed preview of a disbursement: a list of
//! periods, each with the amounts that would be paid. It is always terminal
//! on arrival — at most one result per correlation id.

use vstd::prelude::*;
use crate::date::Date;

verus! {

/// One simulated payment line within a period.
#[derive(Clone, Debug)]
pub struct Utbetaling {
    pub fagsystem: String,
    pub sak_id: String,
    pub utbetales_til: String,
    pub stonadstype: String,
    pub tidligere_utbetalt: i32,
    pub nytt_belop: i32,
}

/// One simulated period with its payment lines.
#[derive(Clone, Debug)]
pub struct Periode {
    pub fom: Date,
    pub tom: Date,
    pub utbetalinger: Vec<Utbetaling>,
}

/// A decoded dry-run reply: the list of simulated periods.
#[derive(Clone, Debug)]
pub struct Simulering {
    pub perioder: Vec<Periode>,
}

impl Simulering {
    /// Builds a simulation result from its periods.
    pub fn new(perioder: Vec<Periode>) -> (r: Simulering)
        ensures
            r.perioder == perioder,
    {
        Simulering { perioder }
    }
}

} // verus!
