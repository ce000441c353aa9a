use komodo_core::auth::{jwt_secret, jwt_ttl_ms};
use komodo_core::paging::historical_stats_timestamps;

#[test]
fn jwt_ttl_from_config() {
    assert_eq!(jwt_ttl_ms("1-hr"), 3_600_000);
    assert_eq!(jwt_ttl_ms("15-sec"), 15_000);
    assert_eq!(jwt_ttl_ms("1-wk"), 7 * 86_400_000);
}

#[test]
fn jwt_ttl_defaults_to_one_day() {
    assert_eq!(jwt_ttl_ms("1-day"), 86_400_000);
    assert_eq!(jwt_ttl_ms("forever"), 86_400_000);
    assert_eq!(jwt_ttl_ms(""), 86_400_000);
}

#[test]
fn jwt_secret_configured_or_random() {
    assert_eq!(jwt_secret("", "random"), "random");
    assert_eq!(jwt_secret("mine", "random"), "mine");
}

#[test]
fn stats_timestamps_by_granularity() {
    let now = 1_000_007_500;
    let ts = historical_stats_timestamps("15-sec", now, 0).unwrap();
    assert_eq!(ts.len(), 200);
    assert_eq!(ts[0], 1_000_005_000);
    assert_eq!(ts[1], 1_000_005_000 - 15_000);
    let page1 = historical_stats_timestamps("15-sec", now, 1).unwrap();
    assert_eq!(page1[0], 1_000_005_000 - 15_000 * 200);
    let minutes = historical_stats_timestamps("1-min", now, 0).unwrap();
    assert_eq!(minutes[0], 999_960_000);
}

#[test]
fn stats_timestamps_unknown_granularity() {
    assert!(historical_stats_timestamps("7-sec", 1_000, 0).is_none());
}

#[test]
fn stats_timestamps_page_too_far_back() {
    assert!(historical_stats_timestamps("30-day", 1_000, u32::MAX).is_none());
}
