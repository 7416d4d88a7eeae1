use abetal::aap;
use abetal::date::Date;
use abetal::dp;
use abetal::kafka::plan_utbetaling;
use abetal::models::Utbetaling;
use abetal::tp;
use abetal::ts;
use abetal::uid::Uid;

fn date(y: u16, m: u8, d: u8) -> Date {
    Date::from_ymd(y, m, d).expect("valid date")
}

fn small_aap() -> aap::Utbetaling {
    aap::Utbetaling {
        dryrun: false,
        sak_id: String::from("S1"),
        behandling_id: String::from("B1"),
        ident: String::from("12345678901"),
        utbetalinger: vec![aap::Utbetalingsdag {
            meldeperiode: String::from("M1"),
            dato: date(2021, 1, 1),
            sats: 700,
            utbetalt_belop: 700,
        }],
        vedtakstidspunktet: String::from("2021-01-01T10:00:00Z"),
        saksbehandler: Some(String::from("A123456")),
        beslutter: None,
    }
}

#[test]
fn aap_payload_is_exact() {
    let expected = "{\"dryrun\":false,\"sakId\":\"S1\",\"behandlingId\":\"B1\",\"ident\":\"12345678901\",\"utbetalinger\":[{\"meldeperiode\":\"M1\",\"dato\":\"2021-01-01\",\"sats\":700,\"utbetaltBeløp\":700}],\"vedtakstidspunktet\":\"2021-01-01T10:00:00Z\",\"saksbehandler\":\"A123456\",\"beslutter\":null}";
    assert_eq!(small_aap().to_json(), expected);
}

#[test]
fn aap_payload_with_empty_day_list() {
    let mut u = small_aap();
    u.utbetalinger = Vec::new();
    assert!(u.to_json().contains("\"utbetalinger\":[],"));
}

#[test]
fn string_escaping_follows_json() {
    let mut u = small_aap();
    u.sak_id = String::from("a\"b\\c\nd");
    let got = u.to_json();
    assert!(got.contains("\"sakId\":\"a\\\"b\\\\c\\u000ad\""));
}

#[test]
fn dp_payload_encodes_enums() {
    let u = dp::Utbetaling {
        dryrun: true,
        sak_id: String::from("S2"),
        behandling_id: String::from("B2"),
        ident: String::from("10987654321"),
        utbetalinger: vec![dp::Utbetalingsdag {
            meldeperiode: String::from("M2"),
            dato: date(2024, 2, 29),
            sats: 1000,
            utbetalt_belop: 900,
            rettighetstype: dp::Rettighetstype::EOS,
            utbetalingstype: dp::Utbetalingstype::Dagpenger,
        }],
        vedtakstidspunktet: String::from("2024-02-29T00:00:00Z"),
        saksbehandler: None,
        beslutter: None,
    };
    let got = u.to_json();
    assert!(got.starts_with("{\"dryrun\":true,"));
    assert!(got.contains("\"dato\":\"2024-02-29\""));
    assert!(got.contains("\"rettighetstype\":\"EØS\",\"utbetalingstype\":\"Dagpenger\""));
    assert!(got.ends_with("\"saksbehandler\":null,\"beslutter\":null}"));
}

#[test]
fn ts_payload_embeds_the_correlation_id() {
    let u = ts::Utbetaling {
        dryrun: false,
        id: Uid::new(0xa1a2a3a4_b1b2_c1c2_d1d2_d3d4d5d6d7d8_u128),
        sak_id: String::from("S3"),
        behandling_id: String::from("B3"),
        personident: String::from("11111111111"),
        stonad: ts::Stonadtype::TILSYN_BARN_AAP,
        vedtakstidspunkt: String::from("2023-06-01T12:00:00Z"),
        periodetype: ts::Periodetype::EnGang,
        perioder: vec![ts::Periode { fom: date(2023, 6, 1), tom: date(2023, 6, 30), belop: 1234 }],
        bruk_fagomrade_tillst: true,
        saksbehandler: None,
        beslutter: None,
    };
    let got = u.to_json();
    assert!(got.contains("\"id\":\"a1a2a3a4-b1b2-c1c2-d1d2-d3d4d5d6d7d8\""));
    assert!(got.contains("\"stønad\":\"TILSYN_BARN_AAP\""));
    assert!(got.contains("\"periodetype\":\"EN_GANG\""));
    assert!(got.contains(
        "\"perioder\":[{\"fom\":\"2023-06-01\",\"tom\":\"2023-06-30\",\"beløp\":1234}]"
    ));
    assert!(got.contains("\"brukFagområdeTillst\":true"));
}

#[test]
fn tp_payload_is_exact() {
    let u = tp::Utbetaling {
        dryrun: false,
        sak_id: String::from("S4"),
        behandling_id: String::from("B4"),
        personident: String::from("22222222222"),
        stonad: tp::Stonadtype::JOBBKLUBB,
        vedtakstidspunkt: String::from("2022-12-24T08:30:00Z"),
        perioder: vec![tp::Periode {
            meldeperiode: String::from("M4"),
            fom: date(2022, 12, 1),
            tom: date(2022, 12, 24),
            belop: 50,
        }],
        saksbehandler: None,
        beslutter: Some(String::from("B234567")),
    };
    let expected = "{\"dryrun\":false,\"sakId\":\"S4\",\"behandlingId\":\"B4\",\"personident\":\"22222222222\",\"stønad\":\"JOBBKLUBB\",\"vedtakstidspunkt\":\"2022-12-24T08:30:00Z\",\"perioder\":[{\"meldeperiode\":\"M4\",\"fom\":\"2022-12-01\",\"tom\":\"2022-12-24\",\"beløp\":50}],\"saksbehandler\":null,\"beslutter\":\"B234567\"}";
    assert_eq!(u.to_json(), expected);
}

#[test]
fn plan_routes_by_benefit_type_and_keys_by_id() {
    let uid = Uid::new(0xa1a2a3a4_b1b2_c1c2_d1d2_d3d4d5d6d7d8_u128);
    let cmd = Utbetaling::Aap(small_aap());
    let plan = plan_utbetaling(uid, &cmd);
    assert_eq!(plan.topic, "helved.utbetalinger-aap.v1");
    assert_eq!(plan.key, "a1a2a3a4-b1b2-c1c2-d1d2-d3d4d5d6d7d8");
    assert!(0 <= plan.partition && plan.partition < 3);
    assert_eq!(plan.payload, cmd.to_json());
}
