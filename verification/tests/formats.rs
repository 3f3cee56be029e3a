use ai_content_service::clock;
use ai_content_service::identity;
use ai_content_service::orchestrator::generate_content;

#[test]
fn fresh_identifiers_are_well_formed() {
    for _ in 0..200 {
        let body = generate_content(Ok("x".to_string())).expect("the provider succeeded");
        assert!(identity::is_well_formed(body.id()), "{}", body.id());
    }
}

#[test]
fn fresh_timestamps_are_well_formed() {
    for _ in 0..200 {
        let body = generate_content(Ok("x".to_string())).expect("the provider succeeded");
        assert!(clock::is_well_formed(body.created_at()), "{}", body.created_at());
    }
}

#[test]
fn identifier_form_is_checked_exactly() {
    assert!(identity::is_well_formed("3f2b8c1e-5d4a-4f6b-9a7c-0123456789ab"));
    assert!(identity::is_well_formed("00000000-0000-4000-8000-000000000000"));
    assert!(identity::is_well_formed("ffffffff-ffff-4fff-bfff-ffffffffffff"));
    // wrong version digit
    assert!(!identity::is_well_formed("3f2b8c1e-5d4a-1f6b-9a7c-0123456789ab"));
    // wrong variant digit
    assert!(!identity::is_well_formed("3f2b8c1e-5d4a-4f6b-7a7c-0123456789ab"));
    assert!(!identity::is_well_formed("3f2b8c1e-5d4a-4f6b-ca7c-0123456789ab"));
    // upper case
    assert!(!identity::is_well_formed("3F2B8C1E-5D4A-4F6B-9A7C-0123456789AB"));
    // no hyphens, braces, wrong length
    assert!(!identity::is_well_formed("3f2b8c1e5d4a4f6b9a7c0123456789ab"));
    assert!(!identity::is_well_formed("{3f2b8c1e-5d4a-4f6b-9a7c-0123456789ab}"));
    assert!(!identity::is_well_formed("3f2b8c1e-5d4a-4f6b-9a7c-0123456789a"));
    assert!(!identity::is_well_formed(""));
    // a hyphen where a digit belongs, a digit where a hyphen belongs
    assert!(!identity::is_well_formed("3f2b8c1-e5d4a-4f6b-9a7c-0123456789ab"));
    assert!(!identity::is_well_formed("3f2b8c1e-5d4a-4f6b-9a7c00123456789ab"));
    // not a hexadecimal digit, and a character outside ASCII
    assert!(!identity::is_well_formed("3f2b8c1g-5d4a-4f6b-9a7c-0123456789ab"));
    assert!(!identity::is_well_formed("3f2b8c1é-5d4a-4f6b-9a7c-0123456789ab"));
}

#[test]
fn identifiers_made_elsewhere_are_recognised() {
    let id = uuid::Uuid::from_u128(0x3f2b8c1e_5d4a_4f6b_9a7c_0123456789ab);
    assert!(identity::is_well_formed(&id.to_string()));
    let nil = uuid::Uuid::nil();
    assert!(!identity::is_well_formed(&nil.to_string()));
}

#[test]
fn timestamp_form_is_checked_exactly() {
    assert!(clock::is_well_formed("2024-05-17T09:30:00+00:00"));
    assert!(clock::is_well_formed("2024-05-17T09:30:00.125+00:00"));
    assert!(clock::is_well_formed("2024-05-17T09:30:00.125000+00:00"));
    assert!(clock::is_well_formed("2024-05-17T09:30:00.125000001+00:00"));
    assert!(clock::is_well_formed("1970-01-01T00:00:00+00:00"));
    assert!(clock::is_well_formed("+10000-01-01T00:00:00+00:00"));
    assert!(clock::is_well_formed("+262142-12-31T23:59:59.999999999+00:00"));
    // no offset, or another way to write it
    assert!(!clock::is_well_formed("2024-05-17T09:30:00"));
    assert!(!clock::is_well_formed("2024-05-17T09:30:00Z"));
    assert!(!clock::is_well_formed("2024-05-17T09:30:00+0000"));
    assert!(!clock::is_well_formed("2024-05-17T09:30:00+01:00"));
    assert!(!clock::is_well_formed("2024-05-17T09:30:00-00:00"));
    // a space for the T, a fraction of another length, a missing field
    assert!(!clock::is_well_formed("2024-05-17 09:30:00+00:00"));
    assert!(!clock::is_well_formed("2024-05-17T09:30:00.1+00:00"));
    assert!(!clock::is_well_formed("2024-05-17T09:30:00.1250+00:00"));
    assert!(!clock::is_well_formed("2024-05-17T09:30:00.+00:00"));
    assert!(!clock::is_well_formed("2024-05-17T09:30+00:00"));
    assert!(!clock::is_well_formed("24-05-17T09:30:00+00:00"));
    assert!(!clock::is_well_formed("12024-05-17T09:30:00+00:00"));
    assert!(!clock::is_well_formed("+2024-05-17T09:30:00+00:00"));
    assert!(!clock::is_well_formed("-0001-05-17T09:30:00+00:00"));
    assert!(!clock::is_well_formed("2024-05-17T09:3o:00+00:00"));
    assert!(!clock::is_well_formed("+00:00"));
    assert!(!clock::is_well_formed(""));
}

#[test]
fn timestamps_made_elsewhere_are_recognised() {
    let cases: [(i64, u32, &str); 6] = [
        (0, 0, "1970-01-01T00:00:00+00:00"),
        (1_715_938_200, 0, "2024-05-17T09:30:00+00:00"),
        (1_715_938_200, 125_000_000, "2024-05-17T09:30:00.125+00:00"),
        (1_715_938_200, 125_000, "2024-05-17T09:30:00.000125+00:00"),
        (1_715_938_200, 125, "2024-05-17T09:30:00.000000125+00:00"),
        (253_402_300_800, 0, "+10000-01-01T00:00:00+00:00"),
    ];
    for (secs, nanos, expected) in cases {
        let instant = chrono::DateTime::from_timestamp(secs, nanos).expect("in range");
        let text = instant.to_rfc3339();
        assert_eq!(text, expected);
        assert!(clock::is_well_formed(&text), "{text}");
    }
}
