use settings_sync::config::{parse_size_limit, parse_usize, DEFAULT_SIZE_LIMIT_BYTES};
use settings_sync::decimal::{i64_to_dec, u64_to_dec};
use settings_sync::keying::derive_key;
use settings_sync::protocol::{
    check_put, decide_get, decide_head, get_settings_response, head_settings_response,
    put_settings_response, put_settings_response_at, required_content_type_str, GetOutcome,
    HeadOutcome, PutOutcome, PutRejection,
};
use settings_sync::store::SettingsStore;

const OCTET: &str = "application/octet-stream";

#[test]
fn derive_key_is_deterministic() {
    let k1 = derive_key("alice");
    let k2 = derive_key("alice");
    assert_eq!(k1, k2);
}

#[test]
fn derive_key_matches_checksum_of_bytes() {
    let expected = format!("settings:{}", crc32fast::hash("user-123".as_bytes()));
    assert_eq!(derive_key("user-123"), expected);
}

#[test]
fn derive_key_known_value() {
    // CRC-32 of "hello" is 0x3610a686 = 907060870.
    assert_eq!(derive_key("hello"), "settings:907060870");
}

#[test]
fn derive_key_distinct_identifiers_differ_here() {
    // Not guaranteed in general (checksum collisions exist), but holds for
    // these two values and guards against a constant-result implementation.
    assert_ne!(derive_key("alice"), derive_key("bob"));
}

#[test]
fn decimal_rendering_of_u64() {
    assert_eq!(u64_to_dec(0), "0");
    assert_eq!(u64_to_dec(907060870), "907060870");
    assert_eq!(u64_to_dec(u64::MAX), "18446744073709551615");
}

#[test]
fn decimal_rendering_of_i64() {
    assert_eq!(i64_to_dec(0), "0");
    assert_eq!(i64_to_dec(-42), "-42");
    assert_eq!(i64_to_dec(1699999999999), "1699999999999");
    assert_eq!(i64_to_dec(i64::MAX), "9223372036854775807");
    assert_eq!(i64_to_dec(i64::MIN), "-9223372036854775808");
    assert_eq!(i64_to_dec(7), 7i64.to_string());
}

#[test]
fn round_trip_save_then_get() {
    let mut st = SettingsStore::new();
    let t = st.save_user_settings_at("alice", vec![1, 2, 3], 1000);
    assert_eq!(t, 1000);
    let (payload, token) = st.get_user_settings("alice").expect("record must exist");
    assert_eq!(payload, vec![1, 2, 3]);
    assert_eq!(token, "1000");
}

#[test]
fn round_trip_with_wall_clock() {
    let mut st = SettingsStore::new();
    let t = st.save_user_settings("alice", vec![9, 9]);
    let (payload, token) = st.get_user_settings("alice").expect("record must exist");
    assert_eq!(payload, vec![9, 9]);
    assert_eq!(token, t.to_string());
}

#[test]
fn metadata_reports_version_token() {
    let mut st = SettingsStore::new();
    assert!(st.get_settings_metadata("alice").is_none());
    st.save_user_settings_at("alice", vec![5], 77);
    assert_eq!(st.get_settings_metadata("alice").as_deref(), Some("77"));
}

#[test]
fn delete_when_absent_is_idempotent() {
    let mut st = SettingsStore::new();
    st.delete_user_settings("alice");
    assert!(st.get_user_settings("alice").is_none());
    assert!(st.get_settings_metadata("alice").is_none());
}

#[test]
fn delete_after_save_removes_record() {
    let mut st = SettingsStore::new();
    st.save_user_settings_at("alice", vec![1], 1);
    st.delete_user_settings("alice");
    assert!(st.get_user_settings("alice").is_none());
}

#[test]
fn delete_leaves_other_keys_alone() {
    let mut st = SettingsStore::new();
    st.save_user_settings_at("alice", vec![1], 1);
    st.save_user_settings_at("bob", vec![2], 2);
    st.delete_user_settings("alice");
    assert!(st.get_user_settings("alice").is_none());
    let (payload, token) = st.get_user_settings("bob").expect("record must exist");
    assert_eq!(payload, vec![2]);
    assert_eq!(token, "2");
}

#[test]
fn overwrite_leaves_only_second_payload() {
    let mut st = SettingsStore::new();
    let t1 = st.save_user_settings_at("alice", vec![1], 1);
    let t2 = st.save_user_settings_at("alice", vec![2, 2], 2);
    assert!(t2 > t1);
    let (payload, token) = st.get_user_settings("alice").expect("record must exist");
    assert_eq!(payload, vec![2, 2]);
    assert_eq!(token, "2");
}

#[test]
fn conditional_read_matching_token_is_not_modified() {
    let mut st = SettingsStore::new();
    st.save_user_settings_at("alice", vec![1, 2], 5);
    let token = String::from("5");
    let r = get_settings_response(&st, "alice", Some(&token));
    assert!(matches!(r, GetOutcome::NotModified));
}

#[test]
fn conditional_read_other_token_returns_payload() {
    let mut st = SettingsStore::new();
    st.save_user_settings_at("alice", vec![1, 2], 5);
    let stale = String::from("4");
    match get_settings_response(&st, "alice", Some(&stale)) {
        GetOutcome::Payload { body, etag } => {
            assert_eq!(body, vec![1, 2]);
            assert_eq!(etag, "5");
        }
        _ => panic!("expected payload"),
    }
    match get_settings_response(&st, "alice", None) {
        GetOutcome::Payload { body, etag } => {
            assert_eq!(body, vec![1, 2]);
            assert_eq!(etag, "5");
        }
        _ => panic!("expected payload"),
    }
}

#[test]
fn conditional_read_absent_is_not_found() {
    let st = SettingsStore::new();
    let r = get_settings_response(&st, "alice", None);
    assert!(matches!(r, GetOutcome::NotFound));
}

#[test]
fn head_reports_token_or_absence() {
    let mut st = SettingsStore::new();
    assert!(matches!(
        head_settings_response(&st, "alice"),
        HeadOutcome::NotFound
    ));
    st.save_user_settings_at("alice", vec![1], 12);
    match head_settings_response(&st, "alice") {
        HeadOutcome::Found { etag } => assert_eq!(etag, "12"),
        HeadOutcome::NotFound => panic!("expected a record"),
    }
}

#[test]
fn decide_get_works_on_plain_lookup_results() {
    let record = Some((vec![7u8], String::from("9")));
    let seen = String::from("9");
    assert!(matches!(
        decide_get(record.clone(), Some(&seen)),
        GetOutcome::NotModified
    ));
    let other = String::from("8");
    assert!(matches!(
        decide_get(record, Some(&other)),
        GetOutcome::Payload { .. }
    ));
    assert!(matches!(decide_get(None, None), GetOutcome::NotFound));
}

#[test]
fn decide_head_works_on_plain_lookup_results() {
    match decide_head(Some(String::from("3"))) {
        HeadOutcome::Found { etag } => assert_eq!(etag, "3"),
        HeadOutcome::NotFound => panic!("expected a token"),
    }
    assert!(matches!(decide_head(None), HeadOutcome::NotFound));
}

#[test]
fn put_at_limit_succeeds_one_over_is_rejected() {
    let mut st = SettingsStore::new();
    let ct = String::from(OCTET);
    let limit = 4usize;
    let r = put_settings_response_at(&mut st, "alice", Some(&ct), vec![0; 4], limit, 50);
    assert!(matches!(r, PutOutcome::Written { timestamp: 50 }));
    let r = put_settings_response_at(&mut st, "alice", Some(&ct), vec![1; 5], limit, 60);
    assert!(matches!(r, PutOutcome::PayloadTooLarge));
    // The rejected write left the prior record untouched.
    let (payload, token) = st.get_user_settings("alice").expect("record must exist");
    assert_eq!(payload, vec![0; 4]);
    assert_eq!(token, "50");
}

#[test]
fn put_at_default_limit_boundary() {
    let limit = parse_size_limit(None);
    assert_eq!(limit, DEFAULT_SIZE_LIMIT_BYTES);
    let mut st = SettingsStore::new();
    let ct = String::from(OCTET);
    let r = put_settings_response_at(&mut st, "alice", Some(&ct), vec![0; limit], limit, 1);
    assert!(matches!(r, PutOutcome::Written { timestamp: 1 }));
    let r = put_settings_response_at(&mut st, "alice", Some(&ct), vec![0; limit + 1], limit, 2);
    assert!(matches!(r, PutOutcome::PayloadTooLarge));
}

#[test]
fn put_with_wrong_content_kind_is_rejected_and_stores_nothing() {
    let mut st = SettingsStore::new();
    let wrong = String::from("text/plain");
    let r = put_settings_response_at(&mut st, "alice", Some(&wrong), vec![1], 100, 5);
    assert!(matches!(r, PutOutcome::UnsupportedMediaType));
    assert!(st.get_user_settings("alice").is_none());
    let r = put_settings_response_at(&mut st, "alice", None, vec![1], 100, 5);
    assert!(matches!(r, PutOutcome::UnsupportedMediaType));
    assert!(st.get_user_settings("alice").is_none());
}

#[test]
fn put_with_wrong_content_kind_keeps_prior_record() {
    let mut st = SettingsStore::new();
    let ct = String::from(OCTET);
    put_settings_response_at(&mut st, "alice", Some(&ct), vec![3, 3], 100, 7);
    let wrong = String::from("application/json");
    let r = put_settings_response_at(&mut st, "alice", Some(&wrong), vec![4], 100, 8);
    assert!(matches!(r, PutOutcome::UnsupportedMediaType));
    let (payload, token) = st.get_user_settings("alice").expect("record must exist");
    assert_eq!(payload, vec![3, 3]);
    assert_eq!(token, "7");
}

#[test]
fn put_with_wall_clock_reports_its_own_timestamp() {
    let mut st = SettingsStore::new();
    let ct = String::from(OCTET);
    match put_settings_response(&mut st, "alice", Some(&ct), vec![1], 100) {
        PutOutcome::Written { timestamp } => {
            let (_, token) = st.get_user_settings("alice").expect("record must exist");
            assert_eq!(token, timestamp.to_string());
        }
        _ => panic!("expected a written outcome"),
    }
}

#[test]
fn check_put_validates_marker_then_size() {
    let ct = String::from(OCTET);
    let wrong = String::from("text/plain");
    assert!(check_put(Some(&ct), 10, 10).is_none());
    assert!(matches!(
        check_put(Some(&ct), 11, 10),
        Some(PutRejection::PayloadTooLarge)
    ));
    assert!(matches!(
        check_put(Some(&wrong), 1, 10),
        Some(PutRejection::UnsupportedMediaType)
    ));
    // The marker is checked first: an oversize body with the wrong marker
    // reports the marker problem.
    assert!(matches!(
        check_put(Some(&wrong), 11, 10),
        Some(PutRejection::UnsupportedMediaType)
    ));
    assert!(matches!(
        check_put(None, 1, 10),
        Some(PutRejection::UnsupportedMediaType)
    ));
    assert_eq!(required_content_type_str(), OCTET);
}

#[test]
fn parse_usize_accepts_what_std_accepts() {
    assert_eq!(parse_usize("0"), Some(0));
    assert_eq!(parse_usize("123"), Some(123));
    assert_eq!(parse_usize("+42"), Some(42));
    assert_eq!(parse_usize("62914560"), Some(62914560));
    assert_eq!(parse_usize(""), None);
    assert_eq!(parse_usize("+"), None);
    assert_eq!(parse_usize("12a"), None);
    assert_eq!(parse_usize("-5"), None);
    assert_eq!(parse_usize(" 7"), None);
    assert_eq!(parse_usize("99999999999999999999999999"), None);
    assert_eq!(parse_usize(&usize::MAX.to_string()), Some(usize::MAX));
}

#[test]
fn parse_usize_agrees_with_std_on_samples() {
    for s in [
        "0",
        "1",
        "007",
        "+0",
        "18446744073709551615",
        "18446744073709551616",
        "abc",
        "1 2",
        "+",
        "++1",
    ] {
        assert_eq!(parse_usize(s), s.parse::<usize>().ok(), "input {:?}", s);
    }
}

#[test]
fn size_limit_falls_back_to_default() {
    assert_eq!(parse_size_limit(None), 62914560);
    let bad = String::from("not-a-number");
    assert_eq!(parse_size_limit(Some(&bad)), 62914560);
    let good = String::from("1024");
    assert_eq!(parse_size_limit(Some(&good)), 1024);
}
