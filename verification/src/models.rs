//! The outbound disbursement command, over all benefit-type variants.

use vstd::prelude::*;
use crate::aap;
use crate::dp;
use crate::tp;
use crate::ts;

verus! {

/// A disbursement command of any benefit type. The variant decides which
/// topic the publisher routes the record to.
#[derive(Clone, Debug)]
pub enum Utbetaling {
    Aap(aap::Utbetaling),
    Dp(dp::Utbetaling),
    Ts(ts::Utbetaling),
    Tp(tp::Utbetaling),
}

/// The JSON wire form of a command, per variant.
pub open spec fn spec_json(u: Utbetaling) -> Seq<char> {
    match u {
        Utbetaling::Aap(x) => aap::json_utbetaling(x),
        Utbetaling::Dp(x) => dp::json_utbetaling(x),
        Utbetaling::Ts(x) => ts::json_utbetaling(x),
        Utbetaling::Tp(x) => tp::json_utbetaling(x),
    }
}

impl Utbetaling {
    /// Whether the command asks for a dry-run simulation instead of a real
    /// disbursement.
    pub fn dryrun(&self) -> (r: bool)
        ensures
            r == self.spec_dryrun(),
    {
        match self {
            Utbetaling::Aap(x) => x.dryrun,
            Utbetaling::Dp(x) => x.dryrun,
            Utbetaling::Ts(x) => x.dryrun,
            Utbetaling::Tp(x) => x.dryrun,
        }
    }

    /// The dry-run flag of the wrapped command.
    pub open spec fn spec_dryrun(&self) -> bool {
        match self {
            Utbetaling::Aap(x) => x.dryrun,
            Utbetaling::Dp(x) => x.dryrun,
            Utbetaling::Ts(x) => x.dryrun,
            Utbetaling::Tp(x) => x.dryrun,
        }
    }

    /// The JSON wire form of this command, exactly as specified by
    /// [`spec_json`].
    pub fn to_json(&self) -> (r: String)
        ensures
            r@ == spec_json(*self),
    {
        match self {
            Utbetaling::Aap(x) => x.to_json(),
            Utbetaling::Dp(x) => x.to_json(),
            Utbetaling::Ts(x) => x.to_json(),
            Utbetaling::Tp(x) => x.to_json(),
        }
    }
}

} // verus!
