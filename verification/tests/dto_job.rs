use abetal::date::Date;
use abetal::dto::{Ferietillegg, Iverksetting, Personident, SatsType, Stonadsdata, Utbetaling,
    Vedtaksdetaljer};
use abetal::job::{JobState, State};
use abetal::utsjekk::{iverksett_response, token_request_body};

#[test]
fn dates_follow_the_calendar() {
    assert!(Date::from_ymd(2021, 1, 1).is_some());
    assert!(Date::from_ymd(2020, 2, 29).is_some());
    assert!(Date::from_ymd(2021, 2, 29).is_none());
    assert!(Date::from_ymd(1900, 2, 29).is_none());
    assert!(Date::from_ymd(2000, 2, 29).is_some());
    assert!(Date::from_ymd(2021, 4, 31).is_none());
    assert!(Date::from_ymd(2021, 12, 31).is_some());
    assert!(Date::from_ymd(2021, 0, 1).is_none());
    assert!(Date::from_ymd(2021, 13, 1).is_none());
    assert!(Date::from_ymd(2021, 1, 0).is_none());
}

#[test]
fn fixed_payment_line() {
    let u = Utbetaling::new();
    assert_eq!(u.belop, 700);
    assert_eq!(u.satstype, SatsType::DAGLIG);
    assert_eq!(u.fra_og_med_dato, Date { year: 2021, month: 1, day: 1 });
    assert_eq!(u.til_og_med_dato, Date { year: 2021, month: 1, day: 7 });
    match u.stonadsdata {
        Stonadsdata::Dagpenger { stonadstype, ferietillegg, meldekort_id } => {
            assert_eq!(stonadstype, "DAGPENGER_ARBEIDSSØKER_ORDINÆR");
            assert_eq!(ferietillegg, Some(Ferietillegg::ORDINAER));
            assert_eq!(meldekort_id, "123456");
        },
        other => panic!("expected Dagpenger, got {:?}", other),
    }
}

#[test]
fn fresh_request_has_numeric_ids_and_no_predecessor() {
    let mut iv = Iverksetting::new();
    assert!(iv.iverksetting_id.is_none());
    assert!(iv.forrige_iverksetting.is_none());
    assert!(!iv.sak_id.is_empty());
    assert!(iv.sak_id.chars().all(|c| c.is_ascii_digit()));
    assert!(iv.behandling_id.chars().all(|c| c.is_ascii_digit()));
    assert_eq!(iv.vedtak.saksbehandler_id, "A123456");
    assert_eq!(iv.vedtak.beslutter_id, "B234567");
    assert!(iv.vedtak.utbetalinger.is_empty());

    let mut vedtak = Vedtaksdetaljer::new();
    vedtak.add_utbetaling(Utbetaling::new());
    iv.set_vedtak(vedtak);
    assert_eq!(iv.vedtak.utbetalinger.len(), 1);
}

#[test]
fn personident_comes_from_the_fixed_set() {
    for _ in 0..20 {
        let p = Personident::default();
        assert!(
            p.verdi == "18439049363" || p.verdi == "12460271795" || p.verdi == "20416818623",
            "unexpected personident {}",
            p.verdi
        );
    }
}

#[test]
fn job_state_transitions() {
    let mut js = JobState::default();
    assert_eq!(js.state, State::Stopped);
    assert_eq!(js.sleep_ms, 1000);
    assert!(!js.should_run());
    js.start();
    assert!(js.should_run());
    js.set_sleep_ms(250);
    assert_eq!(js.describe(), "state: Started sleep_ms: 250");
    js.stop();
    assert!(!js.should_run());
    assert_eq!(js.describe(), "state: Stopped sleep_ms: 250");
}

#[test]
fn token_body_is_exact() {
    let body = token_request_body("my-id", "SECRET-REDACTED");
    assert_eq!(
        body,
        "client_id=my-id&client_secret=SECRET-REDACTED&scope=api://dev-gcp.helved.utsjekk/.default&grant_type=client_credentials"
    );
}

#[test]
fn effectuation_outcome_passes_through_or_becomes_500() {
    let ok = iverksett_response(Ok((202, String::from("accepted"))));
    assert_eq!(ok, (202, String::from("accepted")));
    let err = iverksett_response(Err(String::from("connection refused")));
    assert_eq!(err.0, 500);
    assert_eq!(err.1, "connection refused");
}
