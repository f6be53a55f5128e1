use hackline_gateway::api::devices::{device_health, device_health_entry, online_from_last_seen, ONLINE_STALE_SECS};
use hackline_gateway::db::devices::Device;

#[test]
fn online_true_within_window() {
    let now = 1_000_000;
    assert!(online_from_last_seen(Some(now - 30), now));
    assert!(online_from_last_seen(Some(now - ONLINE_STALE_SECS), now));
}

#[test]
fn online_false_outside_window() {
    let now = 1_000_000;
    assert!(!online_from_last_seen(Some(now - ONLINE_STALE_SECS - 1), now));
}

#[test]
fn online_false_when_never_seen() {
    assert!(!online_from_last_seen(None, 1_000_000));
}

#[test]
fn online_false_when_clock_skew_makes_seen_in_future() {
    let now = 1_000_000;
    assert!(online_from_last_seen(Some(now + 5), now));
}

#[test]
fn online_survives_extreme_timestamps() {
    assert!(!online_from_last_seen(Some(i64::MIN), i64::MAX));
    assert!(online_from_last_seen(Some(i64::MAX), i64::MIN));
}

fn device(last_seen_at: Option<i64>) -> Device {
    Device {
        id: 9,
        org_id: 1,
        zid: "abcd".into(),
        label: "edge".into(),
        customer_id: None,
        created_at: 0,
        last_seen_at,
    }
}

#[test]
fn health_reports_window_and_probe() {
    let h = device_health(&device(Some(990)), 1000, Some(12));
    assert!(h.online);
    assert_eq!(h.last_seen_at, Some(990));
    assert_eq!(h.rtt_ms, Some(12));
    let e = device_health_entry(&device(Some(900)), 1000, None);
    assert_eq!(e.device_id, 9);
    assert!(!e.online);
    assert_eq!(e.rtt_ms, None);
}
