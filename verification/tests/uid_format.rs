use abetal::uid::{ensure_uid, parse_uid, Uid};

#[test]
fn hyphenated_form_of_known_value() {
    let u = Uid::new(0xa1a2a3a4_b1b2_c1c2_d1d2_d3d4d5d6d7d8_u128);
    assert_eq!(u.to_hyphenated(), "a1a2a3a4-b1b2-c1c2-d1d2-d3d4d5d6d7d8");
}

#[test]
fn zero_pads_every_group() {
    let u = Uid::new(1);
    assert_eq!(u.to_hyphenated(), "00000000-0000-0000-0000-000000000001");
}

#[test]
fn parse_inverts_format() {
    let values = [
        0u128,
        1,
        0xa1a2a3a4_b1b2_c1c2_d1d2_d3d4d5d6d7d8,
        u128::MAX,
        0x00000000_ffff_0000_ffff_000000000001,
    ];
    for v in values {
        let s = Uid::new(v).to_hyphenated();
        let back = parse_uid(&s).expect("canonical form must parse");
        assert_eq!(back.value, v);
    }
}

#[test]
fn parse_accepts_uppercase_hex() {
    let got = parse_uid("A1A2A3A4-B1B2-C1C2-D1D2-D3D4D5D6D7D8").unwrap();
    assert_eq!(got.value, 0xa1a2a3a4_b1b2_c1c2_d1d2_d3d4d5d6d7d8_u128);
}

#[test]
fn parse_accepts_the_other_uuid_forms() {
    // the same forms uuid::Uuid::parse_str takes: simple, braced, and URN
    let expected = 0xa1a2a3a4_b1b2_c1c2_d1d2_d3d4d5d6d7d8_u128;
    let simple = parse_uid("a1a2a3a4b1b2c1c2d1d2d3d4d5d6d7d8").unwrap();
    assert_eq!(simple.value, expected);
    let braced = parse_uid("{a1a2a3a4-b1b2-c1c2-d1d2-d3d4d5d6d7d8}").unwrap();
    assert_eq!(braced.value, expected);
    let urn = parse_uid("urn:uuid:a1a2a3a4-b1b2-c1c2-d1d2-d3d4d5d6d7d8").unwrap();
    assert_eq!(urn.value, expected);
    let urn_upper = parse_uid("URN:UUID:a1a2a3a4-b1b2-c1c2-d1d2-d3d4d5d6d7d8").unwrap();
    assert_eq!(urn_upper.value, expected);
}

#[test]
fn parse_rejects_malformed_keys() {
    assert!(parse_uid("").is_none());
    assert!(parse_uid("not-a-uuid").is_none());
    assert!(parse_uid("a1a2a3a4-b1b2-c1c2-d1d2-d3d4d5d6d7d").is_none());
    assert!(parse_uid("a1a2a3a4-b1b2-c1c2-d1d2-d3d4d5d6d7d8x").is_none());
    assert!(parse_uid("a1a2a3a4_b1b2_c1c2_d1d2_d3d4d5d6d7d8----").is_none());
    assert!(parse_uid("g1a2a3a4-b1b2-c1c2-d1d2-d3d4d5d6d7d8").is_none());
    assert!(parse_uid("g1a2a3a4b1b2c1c2d1d2d3d4d5d6d7d8").is_none());
    assert!(parse_uid("{a1a2a3a4-b1b2-c1c2-d1d2-d3d4d5d6d7d8)").is_none());
    assert!(parse_uid("urn:guid:a1a2a3a4-b1b2-c1c2-d1d2-d3d4d5d6d7d8").is_none());
}

#[test]
fn ensure_uid_keeps_a_supplied_id() {
    let supplied = Uid::new(77);
    assert_eq!(ensure_uid(Some(supplied)), supplied);
    // a generated id is fresh; two draws are distinct with overwhelming
    // probability
    let a = ensure_uid(None);
    let b = ensure_uid(None);
    assert_ne!(a.value, b.value);
}
