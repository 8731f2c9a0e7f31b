use picoo_desktop::receiver_runtime::{
    distinguishable_candidate_prefix, distinguishable_fingerprint_prefix, format_last_connected_ms,
    format_last_connected_relative_ms, str_lt, trusted_device_summaries, TrustedDeviceRecord,
    TrustedDeviceSummary, TrustedIdentityCandidate, DAY_MS,
};

fn summary(device_id: &str, name: &str, fingerprint: &str, platform: &'static str) -> TrustedDeviceSummary {
    TrustedDeviceSummary {
        device_id: device_id.into(),
        device_name: name.into(),
        certificate_fingerprint: fingerprint.into(),
        identity_prefix: String::new(),
        last_connected_at_ms: 0,
        platform,
    }
}

fn check_date_or_dash() {
    assert_eq!(format_last_connected_ms(0), "—");
    assert_eq!(format_last_connected_ms(1_577_836_800_000), "2020-01-01");
}

fn check_relative_age() {
    const DAY_MS: u64 = 86_400_000;
    let now = 2_000_000_000_000;
    assert_eq!(format_last_connected_relative_ms(0, now), "时间未知");
    assert_eq!(format_last_connected_relative_ms(now, now), "今天");
    assert_eq!(format_last_connected_relative_ms(now - DAY_MS, now), "昨天");
    assert_eq!(
        format_last_connected_relative_ms(now - 12 * DAY_MS, now),
        "12 天前"
    );
    assert_eq!(format_last_connected_relative_ms(now + DAY_MS, now), "今天");
}

fn check_fingerprint_prefix() {
    let devices = vec![
        summary("a", "Pixel", "12345678aaaabbbb", "Android"),
        summary("b", "Pixel", "12345678ccccdddd", "Android"),
    ];
    assert_eq!(
        distinguishable_fingerprint_prefix(&devices[0], &devices),
        "12345678aaaa"
    );
    let unique = summary("c", "iPhone", "abcdef0123456789", "iOS");
    assert_eq!(
        distinguishable_fingerprint_prefix(&unique, &devices),
        "abcdef01"
    );
}

#[test]
fn receiver_runtime_format_last_connected_utc_date_or_dash() {
    check_date_or_dash();
}

#[test]
fn receiver_runtime_tests_format_last_connected_utc_date_or_dash() {
    check_date_or_dash();
}

#[test]
fn receiver_runtime_format_last_connected_relative_age_is_compact_and_clock_skew_safe() {
    check_relative_age();
}

#[test]
fn receiver_runtime_tests_format_last_connected_relative_age_is_compact_and_clock_skew_safe() {
    check_relative_age();
}

#[test]
fn receiver_runtime_fingerprint_prefix_is_eight_hex_and_expands_on_collision() {
    check_fingerprint_prefix();
}

#[test]
fn receiver_runtime_tests_fingerprint_prefix_is_eight_hex_and_expands_on_collision() {
    check_fingerprint_prefix();
}

#[test]
fn cleanup_dialog_fingerprint_prefix_expands_past_collision() {
    let candidate = |device_id: &str, fingerprint: &str| TrustedIdentityCandidate {
        device_id: device_id.into(),
        certificate_fingerprint: fingerprint.into(),
        last_connected_at_ms: None,
    };
    let candidates = vec![
        candidate("a", "12345678aaaabbbb"),
        candidate("b", "12345678ccccdddd"),
    ];
    assert_eq!(
        distinguishable_candidate_prefix(&candidates[0], &candidates),
        "12345678aaaa"
    );
}

#[test]
fn fingerprint_prefix_ignores_the_devices_own_entry_and_short_fingerprints() {
    let devices = vec![summary("a", "Pixel", "12345678aaaabbbb", "Android")];
    assert_eq!(distinguishable_fingerprint_prefix(&devices[0], &devices), "12345678");
    let short = summary("s", "Tiny", "abc", "Android");
    assert_eq!(distinguishable_fingerprint_prefix(&short, &devices), "abc");
    let same = vec![
        summary("a", "Pixel", "1234567890", "Android"),
        summary("b", "Pixel", "1234567890", "Android"),
    ];
    assert_eq!(distinguishable_fingerprint_prefix(&same[0], &same), "1234567890");
}

#[test]
fn last_connected_dates_cover_leap_days_and_late_years() {
    assert_eq!(format_last_connected_ms(951_782_400_000), "2000-02-29");
    assert_eq!(format_last_connected_ms(1), "1970-01-01");
    assert_eq!(format_last_connected_ms(253_402_300_799_000), "9999-12-31");
    assert_eq!(format_last_connected_relative_ms(2 * DAY_MS, 2 * DAY_MS + DAY_MS - 1), "今天");
}

#[test]
fn strings_sort_by_code_point() {
    assert!(str_lt("Pixel", "Pixel 9"));
    assert!(!str_lt("Pixel", "Pixel"));
    assert!(str_lt("Z", "a"));
    assert!(str_lt("é", "中"));
    assert_eq!(str_lt("b", "a"), "b" < "a");
}

#[test]
fn paired_devices_list_most_recent_first_then_by_name_and_id() {
    let record = |id: &str, name: &str, fp: &str, last: Option<u64>| TrustedDeviceRecord {
        device_id: id.into(),
        device_name: name.into(),
        certificate_fingerprint: fp.into(),
        last_connected_at_ms: last,
    };
    let rows = trusted_device_summaries(&[
        record("b", "Pixel", "12345678ccccdddd", Some(5)),
        record("c", "Galaxy", "ffff0000", None),
        record("a", "Pixel", "12345678aaaabbbb", Some(5)),
        record("d", "Alpha", "0000ffff", Some(9)),
    ]);
    let order: Vec<&str> = rows.iter().map(|r| r.device_id.as_str()).collect();
    assert_eq!(order, vec!["d", "a", "b", "c"]);
    assert_eq!(rows[1].identity_prefix, "12345678aaaa");
    assert_eq!(rows[0].identity_prefix, "0000ffff");
    assert_eq!(rows[3].last_connected_at_ms, 0);
    assert!(rows.iter().all(|r| r.platform == "Android"));
    assert!(trusted_device_summaries(&[]).is_empty());
}
