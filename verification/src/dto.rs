//! The effectuation request payload and its builders.
//!
//! A background job posts a synthetic effectuation request to an external
//! HTTP service. The payload is built here: random case and treatment
//! ids, a person identifier drawn from a fixed set, and a fixed payment
//! line. Only the drawing of randomness and the clock are delegated to
//! outside crates; every builder's result is otherwise pinned down.

use vstd::prelude::*;
use vstd::string::*;
use crate::date::Date;
use crate::jsonenc::{dec_str, u32_to_string};

verus! {

/// A variant-tagged bundle of benefit-specific data on a payment line.
#[derive(Clone, Debug)]
pub enum Stonadsdata {
    Dagpenger { stonadstype: String, ferietillegg: Option<Ferietillegg>, meldekort_id: String },
    Tiltakspenger {
        stonadstype: String,
        barnetillegg: bool,
        brukers_nav_kontor: String,
        meldekort_id: String,
    },
    Tilleggsstonader { stonadstype: String, brukers_nav_kontor: Option<String> },
}

/// A reference to the preceding effectuation of the same case, if any.
#[derive(Clone, Debug)]
pub struct ForrigeIverksetting {
    pub behandling_id: String,
    pub iverksetting_id: Option<String>,
}

/// A person identifier.
#[derive(Clone, Debug)]
pub struct Personident {
    pub verdi: String,
}

/// How a payment amount is counted.
#[allow(clippy::upper_case_acronyms)]
#[derive(Clone, Copy, Debug, PartialEq, Eq, Structural)]
pub enum SatsType {
    DAGLIG,
    MANEDLIG,
    ENGANGS,
}

/// The holiday-supplement marker on a DP payment line.
#[allow(clippy::upper_case_acronyms)]
#[derive(Clone, Copy, Debug, PartialEq, Eq, Structural)]
pub enum Ferietillegg {
    ORDINAER,
    AVDOD,
}

/// One payment line of an effectuation request.
#[derive(Clone, Debug)]
pub struct Utbetaling {
    pub belop: u32,
    pub satstype: SatsType,
    pub fra_og_med_dato: Date,
    pub til_og_med_dato: Date,
    pub stonadsdata: Stonadsdata,
}

/// The decision details of an effectuation request.
#[derive(Clone, Debug)]
pub struct Vedtaksdetaljer {
    pub vedtakstidspunkt: String,
    pub saksbehandler_id: String,
    pub beslutter_id: String,
    pub utbetalinger: Vec<Utbetaling>,
}

/// A whole effectuation request.
#[derive(Clone, Debug)]
pub struct Iverksetting {
    pub sak_id: String,
    pub behandling_id: String,
    pub iverksetting_id: Option<String>,
    pub personident: Personident,
    pub vedtak: Vedtaksdetaljer,
    pub forrige_iverksetting: Option<ForrigeIverksetting>,
}

/// Relies on `rand::random`: a uniformly random `u32`. The result is
/// random, so nothing is promised of it.
#[verifier::external_body]
fn random_u32() -> (r: u32) {
    rand::random()
}

/// Relies on `chrono::Utc::now` and `chrono::DateTime::to_rfc3339`: the
/// current time as an RFC 3339 timestamp. The result depends on the
/// clock, so nothing is promised of it.
#[verifier::external_body]
fn now_rfc3339() -> (r: String) {
    chrono::Utc::now().to_rfc3339()
}

impl Default for Personident {
    /// A person identifier drawn at random from the fixed test set.
    fn default() -> (r: Personident)
        ensures
            r.verdi@ == "18439049363"@ || r.verdi@ == "12460271795"@ || r.verdi@
                == "20416818623"@,
    {
        let n = random_u32() % 3;
        let verdi = if n == 0 {
            String::from_str("18439049363")
        } else if n == 1 {
            String::from_str("12460271795")
        } else {
            String::from_str("20416818623")
        };
        Personident { verdi }
    }
}

impl Vedtaksdetaljer {
    /// Fresh decision details: the clock's timestamp, fixed handler ids,
    /// and no payment lines yet.
    pub fn new() -> (r: Vedtaksdetaljer)
        ensures
            r.saksbehandler_id@ == "A123456"@,
            r.beslutter_id@ == "B234567"@,
            r.utbetalinger@.len() == 0,
    {
        Vedtaksdetaljer {
            vedtakstidspunkt: now_rfc3339(),
            saksbehandler_id: String::from_str("A123456"),
            beslutter_id: String::from_str("B234567"),
            utbetalinger: Vec::new(),
        }
    }

    /// Appends one payment line.
    pub fn add_utbetaling(&mut self, utbetaling: Utbetaling)
        ensures
            final(self).utbetalinger@ == old(self).utbetalinger@.push(utbetaling),
            final(self).vedtakstidspunkt == old(self).vedtakstidspunkt,
            final(self).saksbehandler_id == old(self).saksbehandler_id,
            final(self).beslutter_id == old(self).beslutter_id,
    {
        self.utbetalinger.push(utbetaling);
    }
}

impl Utbetaling {
    /// The fixed payment line the job posts: 700 a day through the first
    /// week of 2021, as an ordinary DP payment.
    pub fn new() -> (r: Utbetaling)
        ensures
            r.belop == 700,
            r.satstype == SatsType::DAGLIG,
            r.fra_og_med_dato == (Date { year: 2021, month: 1, day: 1 }),
            r.til_og_med_dato == (Date { year: 2021, month: 1, day: 7 }),
            r.stonadsdata matches Stonadsdata::Dagpenger { stonadstype, ferietillegg, meldekort_id }
                && stonadstype@ == "DAGPENGER_ARBEIDSSØKER_ORDINÆR"@ && ferietillegg == Some(
                Ferietillegg::ORDINAER,
            ) && meldekort_id@ == "123456"@,
    {
        let fom = match Date::from_ymd(2021, 1, 1) {
            Some(d) => d,
            // unreachable: the first of January 2021 is a valid date
            None => Date { year: 2021, month: 1, day: 1 },
        };
        let tom = match Date::from_ymd(2021, 1, 7) {
            Some(d) => d,
            // unreachable likewise
            None => Date { year: 2021, month: 1, day: 7 },
        };
        Utbetaling {
            belop: 700,
            satstype: SatsType::DAGLIG,
            fra_og_med_dato: fom,
            til_og_med_dato: tom,
            stonadsdata: Stonadsdata::Dagpenger {
                stonadstype: String::from_str("DAGPENGER_ARBEIDSSØKER_ORDINÆR"),
                ferietillegg: Some(Ferietillegg::ORDINAER),
                meldekort_id: String::from_str("123456"),
            },
        }
    }
}

impl Iverksetting {
    /// A fresh effectuation request: random case and treatment ids (each
    /// the decimal form of a random 32-bit number), a random person
    /// identifier from the fixed set, fresh decision details, and no
    /// effectuation id or predecessor.
    pub fn new() -> (r: Iverksetting)
        ensures
            r.iverksetting_id is None,
            r.forrige_iverksetting is None,
            exists|n: u32| r.sak_id@ == dec_str(n as int),
            exists|n: u32| r.behandling_id@ == dec_str(n as int),
            r.vedtak.saksbehandler_id@ == "A123456"@,
            r.vedtak.beslutter_id@ == "B234567"@,
            r.vedtak.utbetalinger@.len() == 0,
    {
        let sak = random_u32();
        let beh = random_u32();
        let r = Iverksetting {
            sak_id: u32_to_string(sak),
            behandling_id: u32_to_string(beh),
            iverksetting_id: None,
            personident: Personident::default(),
            vedtak: Vedtaksdetaljer::new(),
            forrige_iverksetting: None,
        };
        proof {
            assert(r.sak_id@ == dec_str(sak as int));
            assert(r.behandling_id@ == dec_str(beh as int));
        }
        r
    }

    /// Replaces the decision details.
    pub fn set_vedtak(&mut self, vedtak: Vedtaksdetaljer)
        ensures
            final(self).vedtak == vedtak,
            final(self).sak_id == old(self).sak_id,
            final(self).behandling_id == old(self).behandling_id,
            final(self).iverksetting_id == old(self).iverksetting_id,
            final(self).personident == old(self).personident,
            final(self).forrige_iverksetting == old(self).forrige_iverksetting,
    {
        self.vedtak = vedtak;
    }
}

} // verus!
