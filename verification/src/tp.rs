//! The disbursement command payload for the TP benefit type, and its
//! verified wire encoding.

use vstd::prelude::*;
use vstd::string::*;
use crate::date::Date;
use crate::jsonenc::{
    append_bool, append_date, append_json_str, append_opt_str, append_u32, dec_str, join_comma,
    json_arr, json_bool, json_date, json_opt_str, json_str, lemma_join_comma_push, opt_view,
    push_char,
};

verus! {

/// The TP measure variant a command concerns.
#[allow(non_camel_case_types)]
#[derive(Clone, Copy, Debug, PartialEq, Eq, Structural)]
pub enum Stonadtype {
    ARBEIDSFORBEREDENDE_TRENING,
    ARBEIDSRETTET_REHABILITERING,
    ARBEIDSTRENING,
    AVKLARING,
    DIGITAL_JOBBKLUBB,
    ENKELTPLASS_AMO,
    ENKELTPLASS_VGS_OG_HOYERE_YRKESFAG,
    FORSOK_OPPLAERING_LENGRE_VARIGHET,
    GRUPPE_AMO,
    GRUPPE_VGS_OG_HOYERE_YRKESFAG,
    HOYERE_UTDANNING,
    INDIVIDUELL_JOBBSTOTTE,
    INDIVIDUELL_KARRIERESTOTTE_UNG,
    JOBBKLUBB,
    OPPFOLGING,
    UTVIDET_OPPFOLGING_I_NAV,
    UTVIDET_OPPFOLGING_I_OPPLAERING,
    ARBEIDSFORBEREDENDE_TRENING_BARN,
    ARBEIDSRETTET_REHABILITERING_BARN,
    ARBEIDSTRENING_BARN,
    AVKLARING_BARN,
    DIGITAL_JOBBKLUBB_BARN,
    ENKELTPLASS_AMO_BARN,
    ENKELTPLASS_VGS_OG_HOYERE_YRKESFAG_BARN,
    FORSOK_OPPLAERING_LENGRE_VARIGHET_BARN,
    GRUPPE_AMO_BARN,
    GRUPPE_VGS_OG_HOYERE_YRKESFAG_BARN,
    HOYERE_UTDANNING_BARN,
    INDIVIDUELL_JOBBSTOTTE_BARN,
    INDIVIDUELL_KARRIERESTOTTE_UNG_BARN,
    JOBBKLUBB_BARN,
    OPPFOLGING_BARN,
    UTVIDET_OPPFOLGING_I_NAV_BARN,
    UTVIDET_OPPFOLGING_I_OPPLAERING_BARN,
}

/// One payment period within a TP command.
#[derive(Clone, Debug)]
pub struct Periode {
    pub meldeperiode: String,
    pub fom: Date,
    pub tom: Date,
    pub belop: u32,
}

/// A TP disbursement command.
#[derive(Clone, Debug)]
pub struct Utbetaling {
    pub dryrun: bool,
    pub sak_id: String,
    pub behandling_id: String,
    pub personident: String,
    pub stonad: Stonadtype,
    pub vedtakstidspunkt: String,
    pub perioder: Vec<Periode>,
    pub saksbehandler: Option<String>,
    pub beslutter: Option<String>,
}

/// The JSON form of a TP measure variant: its name in quotes.
pub open spec fn json_stonadtype(t: Stonadtype) -> Seq<char> {
    match t {
        Stonadtype::ARBEIDSFORBEREDENDE_TRENING => "\"ARBEIDSFORBEREDENDE_TRENING\""@,
        Stonadtype::ARBEIDSRETTET_REHABILITERING => "\"ARBEIDSRETTET_REHABILITERING\""@,
        Stonadtype::ARBEIDSTRENING => "\"ARBEIDSTRENING\""@,
        Stonadtype::AVKLARING => "\"AVKLARING\""@,
        Stonadtype::DIGITAL_JOBBKLUBB => "\"DIGITAL_JOBBKLUBB\""@,
        Stonadtype::ENKELTPLASS_AMO => "\"ENKELTPLASS_AMO\""@,
        Stonadtype::ENKELTPLASS_VGS_OG_HOYERE_YRKESFAG => "\"ENKELTPLASS_VGS_OG_HØYERE_YRKESFAG\""@,
        Stonadtype::FORSOK_OPPLAERING_LENGRE_VARIGHET => "\"FORSØK_OPPLÆRING_LENGRE_VARIGHET\""@,
        Stonadtype::GRUPPE_AMO => "\"GRUPPE_AMO\""@,
        Stonadtype::GRUPPE_VGS_OG_HOYERE_YRKESFAG => "\"GRUPPE_VGS_OG_HØYERE_YRKESFAG\""@,
        Stonadtype::HOYERE_UTDANNING => "\"HØYERE_UTDANNING\""@,
        Stonadtype::INDIVIDUELL_JOBBSTOTTE => "\"INDIVIDUELL_JOBBSTØTTE\""@,
        Stonadtype::INDIVIDUELL_KARRIERESTOTTE_UNG => "\"INDIVIDUELL_KARRIERESTØTTE_UNG\""@,
        Stonadtype::JOBBKLUBB => "\"JOBBKLUBB\""@,
        Stonadtype::OPPFOLGING => "\"OPPFØLGING\""@,
        Stonadtype::UTVIDET_OPPFOLGING_I_NAV => "\"UTVIDET_OPPFØLGING_I_NAV\""@,
        Stonadtype::UTVIDET_OPPFOLGING_I_OPPLAERING => "\"UTVIDET_OPPFØLGING_I_OPPLÆRING\""@,
        Stonadtype::ARBEIDSFORBEREDENDE_TRENING_BARN => "\"ARBEIDSFORBEREDENDE_TRENING_BARN\""@,
        Stonadtype::ARBEIDSRETTET_REHABILITERING_BARN => "\"ARBEIDSRETTET_REHABILITERING_BARN\""@,
        Stonadtype::ARBEIDSTRENING_BARN => "\"ARBEIDSTRENING_BARN\""@,
        Stonadtype::AVKLARING_BARN => "\"AVKLARING_BARN\""@,
        Stonadtype::DIGITAL_JOBBKLUBB_BARN => "\"DIGITAL_JOBBKLUBB_BARN\""@,
        Stonadtype::ENKELTPLASS_AMO_BARN => "\"ENKELTPLASS_AMO_BARN\""@,
        Stonadtype::ENKELTPLASS_VGS_OG_HOYERE_YRKESFAG_BARN => "\"ENKELTPLASS_VGS_OG_HØYERE_YRKESFAG_BARN\""@,
        Stonadtype::FORSOK_OPPLAERING_LENGRE_VARIGHET_BARN => "\"FORSØK_OPPLÆRING_LENGRE_VARIGHET_BARN\""@,
        Stonadtype::GRUPPE_AMO_BARN => "\"GRUPPE_AMO_BARN\""@,
        Stonadtype::GRUPPE_VGS_OG_HOYERE_YRKESFAG_BARN => "\"GRUPPE_VGS_OG_HØYERE_YRKESFAG_BARN\""@,
        Stonadtype::HOYERE_UTDANNING_BARN => "\"HØYERE_UTDANNING_BARN\""@,
        Stonadtype::INDIVIDUELL_JOBBSTOTTE_BARN => "\"INDIVIDUELL_JOBBSTØTTE_BARN\""@,
        Stonadtype::INDIVIDUELL_KARRIERESTOTTE_UNG_BARN => "\"INDIVIDUELL_KARRIERESTØTTE_UNG_BARN\""@,
        Stonadtype::JOBBKLUBB_BARN => "\"JOBBKLUBB_BARN\""@,
        Stonadtype::OPPFOLGING_BARN => "\"OPPFØLGING_BARN\""@,
        Stonadtype::UTVIDET_OPPFOLGING_I_NAV_BARN => "\"UTVIDET_OPPFØLGING_I_NAV_BARN\""@,
        Stonadtype::UTVIDET_OPPFOLGING_I_OPPLAERING_BARN => "\"UTVIDET_OPPFØLGING_I_OPPLÆRING_BARN\""@,
    }
}

impl Stonadtype {
    /// The JSON token for this variant.
    pub fn to_json(&self) -> (r: &'static str)
        ensures
            r@ == json_stonadtype(*self),
    {
        match self {
            Stonadtype::ARBEIDSFORBEREDENDE_TRENING => "\"ARBEIDSFORBEREDENDE_TRENING\"",
            Stonadtype::ARBEIDSRETTET_REHABILITERING => "\"ARBEIDSRETTET_REHABILITERING\"",
            Stonadtype::ARBEIDSTRENING => "\"ARBEIDSTRENING\"",
            Stonadtype::AVKLARING => "\"AVKLARING\"",
            Stonadtype::DIGITAL_JOBBKLUBB => "\"DIGITAL_JOBBKLUBB\"",
            Stonadtype::ENKELTPLASS_AMO => "\"ENKELTPLASS_AMO\"",
            Stonadtype::ENKELTPLASS_VGS_OG_HOYERE_YRKESFAG => "\"ENKELTPLASS_VGS_OG_HØYERE_YRKESFAG\"",
            Stonadtype::FORSOK_OPPLAERING_LENGRE_VARIGHET => "\"FORSØK_OPPLÆRING_LENGRE_VARIGHET\"",
            Stonadtype::GRUPPE_AMO => "\"GRUPPE_AMO\"",
            Stonadtype::GRUPPE_VGS_OG_HOYERE_YRKESFAG => "\"GRUPPE_VGS_OG_HØYERE_YRKESFAG\"",
            Stonadtype::HOYERE_UTDANNING => "\"HØYERE_UTDANNING\"",
            Stonadtype::INDIVIDUELL_JOBBSTOTTE => "\"INDIVIDUELL_JOBBSTØTTE\"",
            Stonadtype::INDIVIDUELL_KARRIERESTOTTE_UNG => "\"INDIVIDUELL_KARRIERESTØTTE_UNG\"",
            Stonadtype::JOBBKLUBB => "\"JOBBKLUBB\"",
            Stonadtype::OPPFOLGING => "\"OPPFØLGING\"",
            Stonadtype::UTVIDET_OPPFOLGING_I_NAV => "\"UTVIDET_OPPFØLGING_I_NAV\"",
            Stonadtype::UTVIDET_OPPFOLGING_I_OPPLAERING => "\"UTVIDET_OPPFØLGING_I_OPPLÆRING\"",
            Stonadtype::ARBEIDSFORBEREDENDE_TRENING_BARN => "\"ARBEIDSFORBEREDENDE_TRENING_BARN\"",
            Stonadtype::ARBEIDSRETTET_REHABILITERING_BARN => "\"ARBEIDSRETTET_REHABILITERING_BARN\"",
            Stonadtype::ARBEIDSTRENING_BARN => "\"ARBEIDSTRENING_BARN\"",
            Stonadtype::AVKLARING_BARN => "\"AVKLARING_BARN\"",
            Stonadtype::DIGITAL_JOBBKLUBB_BARN => "\"DIGITAL_JOBBKLUBB_BARN\"",
            Stonadtype::ENKELTPLASS_AMO_BARN => "\"ENKELTPLASS_AMO_BARN\"",
            Stonadtype::ENKELTPLASS_VGS_OG_HOYERE_YRKESFAG_BARN => "\"ENKELTPLASS_VGS_OG_HØYERE_YRKESFAG_BARN\"",
            Stonadtype::FORSOK_OPPLAERING_LENGRE_VARIGHET_BARN => "\"FORSØK_OPPLÆRING_LENGRE_VARIGHET_BARN\"",
            Stonadtype::GRUPPE_AMO_BARN => "\"GRUPPE_AMO_BARN\"",
            Stonadtype::GRUPPE_VGS_OG_HOYERE_YRKESFAG_BARN => "\"GRUPPE_VGS_OG_HØYERE_YRKESFAG_BARN\"",
            Stonadtype::HOYERE_UTDANNING_BARN => "\"HØYERE_UTDANNING_BARN\"",
            Stonadtype::INDIVIDUELL_JOBBSTOTTE_BARN => "\"INDIVIDUELL_JOBBSTØTTE_BARN\"",
            Stonadtype::INDIVIDUELL_KARRIERESTOTTE_UNG_BARN => "\"INDIVIDUELL_KARRIERESTØTTE_UNG_BARN\"",
            Stonadtype::JOBBKLUBB_BARN => "\"JOBBKLUBB_BARN\"",
            Stonadtype::OPPFOLGING_BARN => "\"OPPFØLGING_BARN\"",
            Stonadtype::UTVIDET_OPPFOLGING_I_NAV_BARN => "\"UTVIDET_OPPFØLGING_I_NAV_BARN\"",
            Stonadtype::UTVIDET_OPPFOLGING_I_OPPLAERING_BARN => "\"UTVIDET_OPPFØLGING_I_OPPLÆRING_BARN\"",
        }
    }
}

/// The JSON object for one payment period.
pub open spec fn json_periode(p: Periode) -> Seq<char> {
    "{\"meldeperiode\":"@ + json_str(p.meldeperiode@) + ",\"fom\":"@ + json_date(p.fom)
        + ",\"tom\":"@ + json_date(p.tom) + ",\"beløp\":"@ + dec_str(p.belop as int) + "}"@
}

/// The encoded members of a period list.
pub open spec fn json_periode_seq(v: Seq<Periode>) -> Seq<Seq<char>> {
    v.map_values(|p: Periode| json_periode(p))
}

/// The JSON object for a whole TP command.
pub open spec fn json_utbetaling(u: Utbetaling) -> Seq<char> {
    "{\"dryrun\":"@ + json_bool(u.dryrun) + ",\"sakId\":"@ + json_str(u.sak_id@)
        + ",\"behandlingId\":"@ + json_str(u.behandling_id@) + ",\"personident\":"@ + json_str(
        u.personident@,
    ) + ",\"stønad\":"@ + json_stonadtype(u.stonad) + ",\"vedtakstidspunkt\":"@ + json_str(
        u.vedtakstidspunkt@,
    ) + ",\"perioder\":"@ + json_arr(json_periode_seq(u.perioder@)) + ",\"saksbehandler\":"@
        + json_opt_str(opt_view(u.saksbehandler)) + ",\"beslutter\":"@ + json_opt_str(
        opt_view(u.beslutter),
    ) + "}"@
}

/// Appends the JSON object for one payment period.
fn append_periode(out: &mut String, p: &Periode)
    ensures
        final(out)@ == old(out)@ + json_periode(*p),
{
    out.append("{\"meldeperiode\":");
    append_json_str(out, p.meldeperiode.as_str());
    out.append(",\"fom\":");
    append_date(out, &p.fom);
    out.append(",\"tom\":");
    append_date(out, &p.tom);
    out.append(",\"beløp\":");
    append_u32(out, p.belop);
    out.append("}");
    assert(out@ =~= old(out)@ + json_periode(*p));
}

/// Appends the JSON array of payment periods.
fn append_periode_arr(out: &mut String, v: &Vec<Periode>)
    ensures
        final(out)@ == old(out)@ + json_arr(json_periode_seq(v@)),
{
    push_char(out, '[');
    let mut i: usize = 0;
    while i < v.len()
        invariant
            i <= v@.len(),
            out@ == old(out)@ + seq!['['] + join_comma(json_periode_seq(v@.subrange(0, i as int))),
        decreases v@.len() - i,
    {
        if i > 0 {
            push_char(out, ',');
        }
        append_periode(out, &v[i]);
        proof {
            assert(json_periode_seq(v@.subrange(0, i as int + 1)) =~= json_periode_seq(
                v@.subrange(0, i as int),
            ).push(json_periode(v@[i as int])));
            lemma_join_comma_push(
                json_periode_seq(v@.subrange(0, i as int)),
                json_periode(v@[i as int]),
            );
            assert(out@ =~= old(out)@ + seq!['['] + join_comma(
                json_periode_seq(v@.subrange(0, i as int + 1)),
            ));
        }
        i += 1;
    }
    proof {
        assert(v@.subrange(0, v@.len() as int) =~= v@);
    }
    push_char(out, ']');
    assert(out@ =~= old(out)@ + json_arr(json_periode_seq(v@)));
}

impl Utbetaling {
    /// The JSON wire form of this command, exactly as specified by
    /// [`json_utbetaling`].
    pub fn to_json(&self) -> (r: String)
        ensures
            r@ == json_utbetaling(*self),
    {
        let mut out = String::new();
        out.append("{\"dryrun\":");
        append_bool(&mut out, self.dryrun);
        out.append(",\"sakId\":");
        append_json_str(&mut out, self.sak_id.as_str());
        out.append(",\"behandlingId\":");
        append_json_str(&mut out, self.behandling_id.as_str());
        out.append(",\"personident\":");
        append_json_str(&mut out, self.personident.as_str());
        out.append(",\"stønad\":");
        out.append(self.stonad.to_json());
        out.append(",\"vedtakstidspunkt\":");
        append_json_str(&mut out, self.vedtakstidspunkt.as_str());
        out.append(",\"perioder\":");
        append_periode_arr(&mut out, &self.perioder);
        out.append(",\"saksbehandler\":");
        append_opt_str(&mut out, &self.saksbehandler);
        out.append(",\"beslutter\":");
        append_opt_str(&mut out, &self.beslutter);
        out.append("}");
        assert(out@ =~= json_utbetaling(*self));
        out
    }
}

} // verus!
