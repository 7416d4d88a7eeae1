//! The disbursement command payload for the TS benefit type, and its
//! verified wire encoding.

use vstd::prelude::*;
use vstd::string::*;
use crate::date::Date;
use crate::jsonenc::{
    append_bool, append_date, append_json_str, append_opt_str, append_u32, dec_str, join_comma,
    json_arr, json_bool, json_date, json_opt_str, json_str, lemma_join_comma_push, opt_view,
    push_char,
};
use crate::uid::{uid_chars, Uid};

verus! {

/// How a TS period is counted.
#[derive(Clone, Copy, Debug, PartialEq, Eq, Structural)]
pub enum Periodetype {
    Dag,
    Ukedag,
    Mnd,
    EnGang,
}

/// The TS benefit variant a command concerns.
#[allow(non_camel_case_types)]
#[derive(Clone, Copy, Debug, PartialEq, Eq, Structural)]
pub enum Stonadtype {
    TILSYN_BARN_ENSLIG_FORSORGER,
    TILSYN_BARN_AAP,
    TILSYN_BARN_ETTERLATTE,
    LAEREMIDLER_ENSLIG_FORSORGER,
    LAEREMIDLER_AAP,
    LAEREMIDLER_ETTERLATTE,
    BOUTGIFTER_AAP,
    BOUTGIFTER_ENSLIG_FORSORGER,
    BOUTGIFTER_ETTERLATTE,
    DAGLIG_REISE_ENSLIG_FORSORGET,
    DAGLIG_REISE_AAP,
    DAGLIG_REISE_ETTERLATTE,
    REISE_TIL_SAMLING_ENSLIG_FORSORGER,
    REISE_TIL_SAMLING_AAP,
    REISE_TIL_SAMLING_ETTERLATTE,
    REISE_OPPSTART_ENSLIG_FORSORGET,
    REISE_OPPSTART_AAP,
    REISE_OPPSTART_ETTERLATTE,
    REIS_ARBEID_ENSLIG_FORSORGER,
    REIS_ARBEID_AAP,
    REIS_ARBEID_ETTERLATTE,
    FLYTTING_ENSLIG_FORSORGER,
    FLYTTING_AAP,
    FLYTTING_ETTERLATTE,
}

/// One payment period within a TS command.
#[derive(Clone, Debug)]
pub struct Periode {
    pub fom: Date,
    pub tom: Date,
    pub belop: u32,
}

/// A TS disbursement command.
#[derive(Clone, Debug)]
pub struct Utbetaling {
    pub dryrun: bool,
    pub id: Uid,
    pub sak_id: String,
    pub behandling_id: String,
    pub personident: String,
    pub stonad: Stonadtype,
    pub vedtakstidspunkt: String,
    pub periodetype: Periodetype,
    pub perioder: Vec<Periode>,
    pub bruk_fagomrade_tillst: bool,
    pub saksbehandler: Option<String>,
    pub beslutter: Option<String>,
}

/// The JSON form of a period type: its screaming-snake-case name in
/// quotes.
pub open spec fn json_periodetype(t: Periodetype) -> Seq<char> {
    match t {
        Periodetype::Dag => "\"DAG\""@,
        Periodetype::Ukedag => "\"UKEDAG\""@,
        Periodetype::Mnd => "\"MND\""@,
        Periodetype::EnGang => "\"EN_GANG\""@,
    }
}

/// The JSON form of a TS benefit variant: its name in quotes.
pub open spec fn json_stonadtype(t: Stonadtype) -> Seq<char> {
    match t {
        Stonadtype::TILSYN_BARN_ENSLIG_FORSORGER => "\"TILSYN_BARN_ENSLIG_FORSØRGER\""@,
        Stonadtype::TILSYN_BARN_AAP => "\"TILSYN_BARN_AAP\""@,
        Stonadtype::TILSYN_BARN_ETTERLATTE => "\"TILSYN_BARN_ETTERLATTE\""@,
        Stonadtype::LAEREMIDLER_ENSLIG_FORSORGER => "\"LÆREMIDLER_ENSLIG_FORSØRGER\""@,
        Stonadtype::LAEREMIDLER_AAP => "\"LÆREMIDLER_AAP\""@,
        Stonadtype::LAEREMIDLER_ETTERLATTE => "\"LÆREMIDLER_ETTERLATTE\""@,
        Stonadtype::BOUTGIFTER_AAP => "\"BOUTGIFTER_AAP\""@,
        Stonadtype::BOUTGIFTER_ENSLIG_FORSORGER => "\"BOUTGIFTER_ENSLIG_FORSØRGER\""@,
        Stonadtype::BOUTGIFTER_ETTERLATTE => "\"BOUTGIFTER_ETTERLATTE\""@,
        Stonadtype::DAGLIG_REISE_ENSLIG_FORSORGET => "\"DAGLIG_REISE_ENSLIG_FORSØRGET\""@,
        Stonadtype::DAGLIG_REISE_AAP => "\"DAGLIG_REISE_AAP\""@,
        Stonadtype::DAGLIG_REISE_ETTERLATTE => "\"DAGLIG_REISE_ETTERLATTE\""@,
        Stonadtype::REISE_TIL_SAMLING_ENSLIG_FORSORGER => "\"REISE_TIL_SAMLING_ENSLIG_FORSØRGER\""@,
        Stonadtype::REISE_TIL_SAMLING_AAP => "\"REISE_TIL_SAMLING_AAP\""@,
        Stonadtype::REISE_TIL_SAMLING_ETTERLATTE => "\"REISE_TIL_SAMLING_ETTERLATTE\""@,
        Stonadtype::REISE_OPPSTART_ENSLIG_FORSORGET => "\"REISE_OPPSTART_ENSLIG_FORSØRGET\""@,
        Stonadtype::REISE_OPPSTART_AAP => "\"REISE_OPPSTART_AAP\""@,
        Stonadtype::REISE_OPPSTART_ETTERLATTE => "\"REISE_OPPSTART_ETTERLATTE\""@,
        Stonadtype::REIS_ARBEID_ENSLIG_FORSORGER => "\"REIS_ARBEID_ENSLIG_FORSØRGER\""@,
        Stonadtype::REIS_ARBEID_AAP => "\"REIS_ARBEID_AAP\""@,
        Stonadtype::REIS_ARBEID_ETTERLATTE => "\"REIS_ARBEID_ETTERLATTE\""@,
        Stonadtype::FLYTTING_ENSLIG_FORSORGER => "\"FLYTTING_ENSLIG_FORSØRGER\""@,
        Stonadtype::FLYTTING_AAP => "\"FLYTTING_AAP\""@,
        Stonadtype::FLYTTING_ETTERLATTE => "\"FLYTTING_ETTERLATTE\""@,
    }
}

impl Periodetype {
    /// The JSON token for this variant.
    pub fn to_json(&self) -> (r: &'static str)
        ensures
            r@ == json_periodetype(*self),
    {
        match self {
            Periodetype::Dag => "\"DAG\"",
            Periodetype::Ukedag => "\"UKEDAG\"",
            Periodetype::Mnd => "\"MND\"",
            Periodetype::EnGang => "\"EN_GANG\"",
        }
    }
}

impl Stonadtype {
    /// The JSON token for this variant.
    pub fn to_json(&self) -> (r: &'static str)
        ensures
            r@ == json_stonadtype(*self),
    {
        match self {
            Stonadtype::TILSYN_BARN_ENSLIG_FORSORGER => "\"TILSYN_BARN_ENSLIG_FORSØRGER\"",
            Stonadtype::TILSYN_BARN_AAP => "\"TILSYN_BARN_AAP\"",
            Stonadtype::TILSYN_BARN_ETTERLATTE => "\"TILSYN_BARN_ETTERLATTE\"",
            Stonadtype::LAEREMIDLER_ENSLIG_FORSORGER => "\"LÆREMIDLER_ENSLIG_FORSØRGER\"",
            Stonadtype::LAEREMIDLER_AAP => "\"LÆREMIDLER_AAP\"",
            Stonadtype::LAEREMIDLER_ETTERLATTE => "\"LÆREMIDLER_ETTERLATTE\"",
            Stonadtype::BOUTGIFTER_AAP => "\"BOUTGIFTER_AAP\"",
            Stonadtype::BOUTGIFTER_ENSLIG_FORSORGER => "\"BOUTGIFTER_ENSLIG_FORSØRGER\"",
            Stonadtype::BOUTGIFTER_ETTERLATTE => "\"BOUTGIFTER_ETTERLATTE\"",
            Stonadtype::DAGLIG_REISE_ENSLIG_FORSORGET => "\"DAGLIG_REISE_ENSLIG_FORSØRGET\"",
            Stonadtype::DAGLIG_REISE_AAP => "\"DAGLIG_REISE_AAP\"",
            Stonadtype::DAGLIG_REISE_ETTERLATTE => "\"DAGLIG_REISE_ETTERLATTE\"",
            Stonadtype::REISE_TIL_SAMLING_ENSLIG_FORSORGER => "\"REISE_TIL_SAMLING_ENSLIG_FORSØRGER\"",
            Stonadtype::REISE_TIL_SAMLING_AAP => "\"REISE_TIL_SAMLING_AAP\"",
            Stonadtype::REISE_TIL_SAMLING_ETTERLATTE => "\"REISE_TIL_SAMLING_ETTERLATTE\"",
            Stonadtype::REISE_OPPSTART_ENSLIG_FORSORGET => "\"REISE_OPPSTART_ENSLIG_FORSØRGET\"",
            Stonadtype::REISE_OPPSTART_AAP => "\"REISE_OPPSTART_AAP\"",
            Stonadtype::REISE_OPPSTART_ETTERLATTE => "\"REISE_OPPSTART_ETTERLATTE\"",
            Stonadtype::REIS_ARBEID_ENSLIG_FORSORGER => "\"REIS_ARBEID_ENSLIG_FORSØRGER\"",
            Stonadtype::REIS_ARBEID_AAP => "\"REIS_ARBEID_AAP\"",
            Stonadtype::REIS_ARBEID_ETTERLATTE => "\"REIS_ARBEID_ETTERLATTE\"",
            Stonadtype::FLYTTING_ENSLIG_FORSORGER => "\"FLYTTING_ENSLIG_FORSØRGER\"",
            Stonadtype::FLYTTING_AAP => "\"FLYTTING_AAP\"",
            Stonadtype::FLYTTING_ETTERLATTE => "\"FLYTTING_ETTERLATTE\"",
        }
    }
}

/// The JSON object for one payment period.
pub open spec fn json_periode(p: Periode) -> Seq<char> {
    "{\"fom\":"@ + json_date(p.fom) + ",\"tom\":"@ + json_date(p.tom) + ",\"beløp\":"@ + dec_str(
        p.belop as int,
    ) + "}"@
}

/// The encoded members of a period list.
pub open spec fn json_periode_seq(v: Seq<Periode>) -> Seq<Seq<char>> {
    v.map_values(|p: Periode| json_periode(p))
}

/// The JSON object for a whole TS command; the correlation id is embedded
/// in its canonical hyphenated string form.
pub open spec fn json_utbetaling(u: Utbetaling) -> Seq<char> {
    "{\"dryrun\":"@ + json_bool(u.dryrun) + ",\"id\":\""@ + uid_chars(u.id.value) + "\",\"sakId\":"@
        + json_str(u.sak_id@) + ",\"behandlingId\":"@ + json_str(u.behandling_id@)
        + ",\"personident\":"@ + json_str(u.personident@) + ",\"stønad\":"@ + json_stonadtype(
        u.stonad,
    ) + ",\"vedtakstidspunkt\":"@ + json_str(u.vedtakstidspunkt@) + ",\"periodetype\":"@
        + json_periodetype(u.periodetype) + ",\"perioder\":"@ + json_arr(
        json_periode_seq(u.perioder@),
    ) + ",\"brukFagområdeTillst\":"@ + json_bool(u.bruk_fagomrade_tillst) + ",\"saksbehandler\":"@
        + json_opt_str(opt_view(u.saksbehandler)) + ",\"beslutter\":"@ + json_opt_str(
        opt_view(u.beslutter),
    ) + "}"@
}

/// Appends the JSON object for one payment period.
fn append_periode(out: &mut String, p: &Periode)
    ensures
        final(out)@ == old(out)@ + json_periode(*p),
{
    out.append("{\"fom\":");
    append_date(out, &p.fom);
    out.append(",\"tom\":");
    append_date(out, &p.tom);
    out.append(",\"beløp\":");
    append_u32(out, p.belop);
    out.append("}");
    assert(out@ =~= old(out)@ + json_periode(*p));
}

/// Appends the JSON array of payment periods.
fn append_periode_arr(out: &mut String, v: &Vec<Periode>)
    ensures
        final(out)@ == old(out)@ + json_arr(json_periode_seq(v@)),
{
    push_char(out, '[');
    let mut i: usize = 0;
    while i < v.len()
        invariant
            i <= v@.len(),
            out@ == old(out)@ + seq!['['] + join_comma(json_periode_seq(v@.subrange(0, i as int))),
        decreases v@.len() - i,
    {
        if i > 0 {
            push_char(out, ',');
        }
        append_periode(out, &v[i]);
        proof {
            assert(json_periode_seq(v@.subrange(0, i as int + 1)) =~= json_periode_seq(
                v@.subrange(0, i as int),
            ).push(json_periode(v@[i as int])));
            lemma_join_comma_push(
                json_periode_seq(v@.subrange(0, i as int)),
                json_periode(v@[i as int]),
            );
            assert(out@ =~= old(out)@ + seq!['['] + join_comma(
                json_periode_seq(v@.subrange(0, i as int + 1)),
            ));
        }
        i += 1;
    }
    proof {
        assert(v@.subrange(0, v@.len() as int) =~= v@);
    }
    push_char(out, ']');
    assert(out@ =~= old(out)@ + json_arr(json_periode_seq(v@)));
}

impl Utbetaling {
    /// The JSON wire form of this command, exactly as specified by
    /// [`json_utbetaling`].
    pub fn to_json(&self) -> (r: String)
        ensures
            r@ == json_utbetaling(*self),
    {
        let mut out = String::new();
        out.append("{\"dryrun\":");
        append_bool(&mut out, self.dryrun);
        out.append(",\"id\":\"");
        let id_str = self.id.to_hyphenated();
        out.append(id_str.as_str());
        out.append("\",\"sakId\":");
        append_json_str(&mut out, self.sak_id.as_str());
        out.append(",\"behandlingId\":");
        append_json_str(&mut out, self.behandling_id.as_str());
        out.append(",\"personident\":");
        append_json_str(&mut out, self.personident.as_str());
        out.append(",\"stønad\":");
        out.append(self.stonad.to_json());
        out.append(",\"vedtakstidspunkt\":");
        append_json_str(&mut out, self.vedtakstidspunkt.as_str());
        out.append(",\"periodetype\":");
        out.append(self.periodetype.to_json());
        out.append(",\"perioder\":");
        append_periode_arr(&mut out, &self.perioder);
        out.append(",\"brukFagområdeTillst\":");
        append_bool(&mut out, self.bruk_fagomrade_tillst);
        out.append(",\"saksbehandler\":");
        append_opt_str(&mut out, &self.saksbehandler);
        out.append(",\"beslutter\":");
        append_opt_str(&mut out, &self.beslutter);
        out.append("}");
        assert(out@ =~= json_utbetaling(*self));
        out
    }
}

} // verus!
