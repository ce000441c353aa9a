use komodo_core::alerts::SwarmState;
use komodo_core::image_digest::{ImageDigest, ImageDigestCache, DIGEST_VALID_MS};
use komodo_core::monitor::{
    append_checked_line, deployment_auto_update_checked, keep_disk, refresh_allowed, reported_disks,
    server_list_info, server_poll_state, stack_auto_update_checked, swarm_health, swarm_poll_state, NodeState,
    PeripheryInfo, ServerState, SwarmPollError,
};

#[test]
fn refresh_throttled_within_a_second() {
    let mut last = 0i64;
    assert!(refresh_allowed(false, false, &mut last, 5_000));
    assert_eq!(last, 5_000);
    // Less than a second later: skipped, the time is kept.
    assert!(!refresh_allowed(false, false, &mut last, 5_999));
    assert_eq!(last, 5_000);
    // A second later: runs.
    assert!(refresh_allowed(false, false, &mut last, 6_000));
    assert_eq!(last, 6_000);
    // Forced: runs at once, even while another refresh holds the lock.
    assert!(refresh_allowed(true, true, &mut last, 6_001));
    assert_eq!(last, 6_001);
    // Unforced while the lock is held: skipped.
    assert!(!refresh_allowed(false, true, &mut last, 100_000));
    assert_eq!(last, 6_001);
}

#[test]
fn swarm_health_needs_every_node_ready() {
    assert!(swarm_health(&vec![]));
    assert!(swarm_health(&vec![Some(NodeState::Ready), Some(NodeState::Ready)]));
    assert!(!swarm_health(&vec![Some(NodeState::Ready), Some(NodeState::Down)]));
    assert!(!swarm_health(&vec![None]));
}

#[test]
fn swarm_poll_state_cases() {
    assert_eq!(swarm_poll_state(false, None), (SwarmState::Unknown, Some(SwarmPollError::NoManagers)));
    assert_eq!(swarm_poll_state(true, None), (SwarmState::Unknown, Some(SwarmPollError::PollFailed)));
    let ready = vec![Some(NodeState::Ready)];
    assert_eq!(swarm_poll_state(true, Some(&ready)), (SwarmState::Healthy, None));
    let down = vec![Some(NodeState::Ready), Some(NodeState::Disconnected)];
    assert_eq!(swarm_poll_state(true, Some(&down)), (SwarmState::Unhealthy, None));
}

#[test]
fn disks_reported() {
    let ignore = vec!["/mnt/backup".to_string()];
    assert!(keep_disk("/", &ignore));
    assert!(!keep_disk("/var/lib/docker/volumes/abc", &ignore));
    assert!(!keep_disk("/mnt/backup/2024", &ignore));
    assert!(keep_disk("/mnt/data", &ignore));
    let mounts = vec!["/".to_string(), "/mnt/backup".to_string(), "/var/lib/docker/volumes".to_string()];
    assert_eq!(reported_disks(&mounts, &ignore), vec![true, false, false]);
}

#[test]
fn server_poll_state_cases() {
    assert_eq!(server_poll_state(false, true, true), ServerState::Disabled);
    assert_eq!(server_poll_state(true, true, true), ServerState::Online);
    assert_eq!(server_poll_state(true, false, true), ServerState::NotOk);
    assert_eq!(server_poll_state(true, true, false), ServerState::NotOk);
}

#[test]
fn auto_update_eligibility() {
    assert!(stack_auto_update_checked(Some(true), true, true));
    assert!(!stack_auto_update_checked(Some(false), true, true));
    assert!(!stack_auto_update_checked(None, true, true));
    assert!(!stack_auto_update_checked(Some(true), false, true));
    assert!(!stack_auto_update_checked(Some(true), true, false));
    assert!(deployment_auto_update_checked(Some(true), true));
    assert!(!deployment_auto_update_checked(Some(true), false));
    assert!(!deployment_auto_update_checked(None, true));
}

#[test]
fn auto_update_log_lines() {
    let mut log = String::new();
    append_checked_line(&mut log, "Stack", "web");
    assert_eq!(log, "Checked Stack web ✅");
    append_checked_line(&mut log, "Deployment", "api");
    assert_eq!(log, "Checked Stack web ✅\nChecked Deployment api ✅");
}

#[test]
fn server_listing() {
    let info = server_list_info(None, None, String::new(), "ext".to_string(), String::new());
    assert_eq!(info.state, ServerState::NotOk);
    assert_eq!(info.address, None);
    assert_eq!(info.external_address.as_deref(), Some("ext"));
    assert_eq!(info.attempted_public_key, None);
    assert_eq!(info.version, None);
    assert!(info.terminals_disabled && info.container_terminals_disabled);
    let p = PeripheryInfo {
        version: "2.0.0".to_string(),
        public_key: "pk".to_string(),
        public_ip: Some("1.2.3.4".to_string()),
        terminals_disabled: false,
        container_terminals_disabled: true,
    };
    let info = server_list_info(Some(ServerState::Online), Some(p), "addr".to_string(), String::new(), "old".to_string());
    assert_eq!(info.state, ServerState::Online);
    assert_eq!(info.address.as_deref(), Some("addr"));
    assert_eq!(info.version.as_deref(), Some("2.0.0"));
    assert_eq!(info.public_key.as_deref(), Some("pk"));
    assert_eq!(info.public_ip.as_deref(), Some("1.2.3.4"));
    assert_eq!(info.attempted_public_key.as_deref(), Some("old"));
    assert!(!info.terminals_disabled);
    assert!(info.container_terminals_disabled);
}

#[test]
fn digest_update_available() {
    let latest = ImageDigest::new("nginx", "sha256:b");
    let current = vec![ImageDigest::new("nginx", "sha256:a")];
    assert!(latest.update_available(&current));
    let same = vec![ImageDigest::new("nginx", "sha256:a"), ImageDigest::new("nginx", "sha256:b")];
    assert!(!latest.update_available(&same));
    assert!(latest.update_available(&vec![]));
    let copy = latest.duplicate();
    assert_eq!(copy.image, "nginx");
    assert_eq!(copy.digest, "sha256:b");
}

#[test]
fn digest_reused_for_ten_minutes() {
    assert_eq!(DIGEST_VALID_MS, 600_000);
    let mut cache = ImageDigestCache::new();
    assert!(cache.get("nginx", 0).is_none());
    cache.insert("nginx".to_string(), ImageDigest::new("nginx", "d1"), 1_000);
    assert_eq!(cache.get("nginx", 1_000).unwrap().digest, "d1");
    assert_eq!(cache.get("nginx", 600_999).unwrap().digest, "d1");
    assert!(cache.get("nginx", 601_000).is_none());
    assert!(cache.get("redis", 1_000).is_none());
    // A new digest replaces the old one.
    cache.insert("nginx".to_string(), ImageDigest::new("nginx", "d2"), 2_000);
    assert_eq!(cache.get("nginx", 2_000).unwrap().digest, "d2");
}

#[test]
fn retain_valid_drops_expired() {
    let mut cache = ImageDigestCache::new();
    cache.insert("a".to_string(), ImageDigest::new("a", "da"), 0);
    cache.insert("b".to_string(), ImageDigest::new("b", "db"), 500_000);
    cache.retain_valid(700_000);
    assert!(cache.get("a", 0).is_none());
    assert_eq!(cache.get("b", 700_000).unwrap().digest, "db");
}
