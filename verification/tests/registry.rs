use aipn::AIPN;

#[test]
fn spot_checks() {
    assert_eq!(AIPN::from_u8(6), AIPN::TCP);
    assert_eq!(AIPN::from_u8(17), AIPN::UDP);
    assert_eq!(AIPN::from_u8(1), AIPN::ICMP);
    assert_eq!(AIPN::from_u8(41), AIPN::IPv6);
    assert_eq!(AIPN::from_u8(0), AIPN::HOPOPT);
    assert_eq!(AIPN::from_u8(200), AIPN::Unknown);
}

#[test]
fn code_accessor_spot_checks() {
    assert_eq!(AIPN::TCP.code(), 6);
    assert_eq!(AIPN::UDP.code(), 17);
    assert_eq!(AIPN::ICMP.code(), 1);
    assert_eq!(AIPN::HOPOPT.code(), 0);
    assert_eq!(AIPN::NSH.code(), 145);
    assert_eq!(AIPN::Unknown.code(), 255);
}

#[test]
fn sentinel_reserved_code() {
    assert_eq!(AIPN::from_u8(255), AIPN::Unknown);
}

#[test]
fn unassigned_codes_map_to_unknown() {
    // In the mirrored registry revision the named assignments are dense in
    // 0..=145; everything above is unassigned and must hit the sentinel.
    for code in 146u16..=255u16 {
        let c: u8 = code as u8;
        assert_eq!(AIPN::from_u8(c), AIPN::Unknown);
    }
}

#[test]
fn assigned_codes_map_to_named_variants() {
    for code in 0u16..=145u16 {
        let c: u8 = code as u8;
        let v: AIPN = AIPN::from_u8(c);
        assert_ne!(v, AIPN::Unknown);
        assert_eq!(v.code(), c);
    }
}

#[test]
fn round_trip_all_codes() {
    for code in 0u16..=255u16 {
        let c: u8 = code as u8;
        let v: AIPN = AIPN::from_u8(c);
        assert_eq!(AIPN::from_u8(v.code()), v);
    }
}

#[test]
fn repeated_calls_agree() {
    for code in 0u16..=255u16 {
        let c: u8 = code as u8;
        assert_eq!(AIPN::from_u8(c), AIPN::from_u8(c));
    }
}

#[test]
fn no_two_named_variants_share_a_code() {
    // Each assigned code yields a distinct variant, so canonical codes are
    // unique: collect the code of every variant reached from an assigned
    // code and check for duplicates.
    let mut seen: Vec<u8> = Vec::new();
    for code in 0u16..=145u16 {
        let c: u8 = code as u8;
        let v: AIPN = AIPN::from_u8(c);
        let vc: u8 = v.code();
        assert!(!seen.contains(&vc));
        seen.push(vc);
    }
}
