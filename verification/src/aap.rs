//! The disbursement command payload for the AAP benefit type, and its
//! verified wire encoding.

use vstd::prelude::*;
use vstd::string::*;
use crate::date::Date;
use crate::jsonenc::{
    append_bool, append_date, append_json_str, append_opt_str, append_u32, dec_str, join_comma,
    json_arr, json_bool, json_date, json_opt_str, json_str, lemma_join_comma_push, opt_view,
    push_char,
};

verus! {

/// One payment day within an AAP command.
#[derive(Clone, Debug)]
pub struct Utbetalingsdag {
    pub meldeperiode: String,
    pub dato: Date,
    pub sats: u32,
    pub utbetalt_belop: u32,
}

/// An AAP disbursement command.
#[derive(Clone, Debug)]
pub struct Utbetaling {
    pub dryrun: bool,
    pub sak_id: String,
    pub behandling_id: String,
    pub ident: String,
    pub utbetalinger: Vec<Utbetalingsdag>,
    pub vedtakstidspunktet: String,
    pub saksbehandler: Option<String>,
    pub beslutter: Option<String>,
}

/// The JSON object for one payment day.
pub open spec fn json_utbetalingsdag(d: Utbetalingsdag) -> Seq<char> {
    "{\"meldeperiode\":"@ + json_str(d.meldeperiode@) + ",\"dato\":"@ + json_date(d.dato)
        + ",\"sats\":"@ + dec_str(d.sats as int) + ",\"utbetaltBeløp\":"@ + dec_str(
        d.utbetalt_belop as int,
    ) + "}"@
}

/// The encoded members of a payment-day list.
pub open spec fn json_dag_seq(v: Seq<Utbetalingsdag>) -> Seq<Seq<char>> {
    v.map_values(|d: Utbetalingsdag| json_utbetalingsdag(d))
}

/// The JSON object for a whole AAP command.
pub open spec fn json_utbetaling(u: Utbetaling) -> Seq<char> {
    "{\"dryrun\":"@ + json_bool(u.dryrun) + ",\"sakId\":"@ + json_str(u.sak_id@)
        + ",\"behandlingId\":"@ + json_str(u.behandling_id@) + ",\"ident\":"@ + json_str(u.ident@)
        + ",\"utbetalinger\":"@ + json_arr(json_dag_seq(u.utbetalinger@))
        + ",\"vedtakstidspunktet\":"@ + json_str(u.vedtakstidspunktet@) + ",\"saksbehandler\":"@
        + json_opt_str(opt_view(u.saksbehandler)) + ",\"beslutter\":"@ + json_opt_str(
        opt_view(u.beslutter),
    ) + "}"@
}

/// Appends the JSON object for one payment day.
fn append_dag(out: &mut String, d: &Utbetalingsdag)
    ensures
        final(out)@ == old(out)@ + json_utbetalingsdag(*d),
{
    out.append("{\"meldeperiode\":");
    append_json_str(out, d.meldeperiode.as_str());
    out.append(",\"dato\":");
    append_date(out, &d.dato);
    out.append(",\"sats\":");
    append_u32(out, d.sats);
    out.append(",\"utbetaltBeløp\":");
    append_u32(out, d.utbetalt_belop);
    out.append("}");
    assert(out@ =~= old(out)@ + json_utbetalingsdag(*d));
}

/// Appends the JSON array of payment days.
fn append_dag_arr(out: &mut String, v: &Vec<Utbetalingsdag>)
    ensures
        final(out)@ == old(out)@ + json_arr(json_dag_seq(v@)),
{
    push_char(out, '[');
    let mut i: usize = 0;
    while i < v.len()
        invariant
            i <= v@.len(),
            out@ == old(out)@ + seq!['['] + join_comma(json_dag_seq(v@.subrange(0, i as int))),
        decreases v@.len() - i,
    {
        if i > 0 {
            push_char(out, ',');
        }
        append_dag(out, &v[i]);
        proof {
            assert(json_dag_seq(v@.subrange(0, i as int + 1)) =~= json_dag_seq(
                v@.subrange(0, i as int),
            ).push(json_utbetalingsdag(v@[i as int])));
            lemma_join_comma_push(
                json_dag_seq(v@.subrange(0, i as int)),
                json_utbetalingsdag(v@[i as int]),
            );
            assert(out@ =~= old(out)@ + seq!['['] + join_comma(
                json_dag_seq(v@.subrange(0, i as int + 1)),
            ));
        }
        i += 1;
    }
    proof {
        assert(v@.subrange(0, v@.len() as int) =~= v@);
    }
    push_char(out, ']');
    assert(out@ =~= old(out)@ + json_arr(json_dag_seq(v@)));
}

impl Utbetaling {
    /// The JSON wire form of this command, exactly as specified by
    /// [`json_utbetaling`].
    pub fn to_json(&self) -> (r: String)
        ensures
            r@ == json_utbetaling(*self),
    {
        let mut out = String::new();
        out.append("{\"dryrun\":");
        append_bool(&mut out, self.dryrun);
        out.append(",\"sakId\":");
        append_json_str(&mut out, self.sak_id.as_str());
        out.append(",\"behandlingId\":");
        append_json_str(&mut out, self.behandling_id.as_str());
        out.append(",\"ident\":");
        append_json_str(&mut out, self.ident.as_str());
        out.append(",\"utbetalinger\":");
        append_dag_arr(&mut out, &self.utbetalinger);
        out.append(",\"vedtakstidspunktet\":");
        append_json_str(&mut out, self.vedtakstidspunktet.as_str());
        out.append(",\"saksbehandler\":");
        append_opt_str(&mut out, &self.saksbehandler);
        out.append(",\"beslutter\":");
        append_opt_str(&mut out, &self.beslutter);
        out.append("}");
        assert(out@ =~= json_utbetaling(*self));
        out
    }
}

} // verus!
