use komodo_core::key_rotation::{
    core_key_rotation_step, core_rotated_line, core_rotation_blocker, server_key_rotation_step, server_rotated_line,
    skip_log_line, RotationStep,
};
use komodo_core::monitor::ServerState;
use komodo_core::paging::{
    next_alerts_page, next_page_when_full, page_skip, stats_page_timestamps, update_username, ALERTS_PER_PAGE,
    STATS_PER_PAGE, UPDATES_PER_PAGE,
};

#[test]
fn server_rotation_steps() {
    assert_eq!(server_key_rotation_step(false, Some(ServerState::Online)), RotationStep::SkipRotationDisabled);
    assert_eq!(server_key_rotation_step(true, None), RotationStep::SkipNoStatus);
    assert_eq!(server_key_rotation_step(true, Some(ServerState::Disabled)), RotationStep::SkipDisabled);
    assert_eq!(server_key_rotation_step(true, Some(ServerState::NotOk)), RotationStep::SkipNotOk);
    assert_eq!(server_key_rotation_step(true, Some(ServerState::Online)), RotationStep::Rotate);
}

#[test]
fn core_rotation_steps_and_blocker() {
    assert_eq!(core_key_rotation_step(ServerState::Disabled), RotationStep::SkipDisabled);
    assert_eq!(core_key_rotation_step(ServerState::NotOk), RotationStep::SkipNotOk);
    assert_eq!(core_key_rotation_step(ServerState::Online), RotationStep::Rotate);
    let states = vec![ServerState::Online, ServerState::Disabled, ServerState::NotOk, ServerState::NotOk];
    assert_eq!(core_rotation_blocker(false, &states), Some(2));
    assert_eq!(core_rotation_blocker(true, &states), None);
    assert_eq!(core_rotation_blocker(false, &vec![ServerState::Online, ServerState::Disabled]), None);
}

#[test]
fn rotation_log_lines() {
    assert_eq!(skip_log_line(RotationStep::Rotate, "a"), "");
    assert_eq!(skip_log_line(RotationStep::SkipRotationDisabled, "a"), "\nSkipping a: Key Rotation Disabled ⚙️");
    assert_eq!(skip_log_line(RotationStep::SkipNoStatus, "a"), "\nSkipping a: No Status ⚠️");
    assert_eq!(skip_log_line(RotationStep::SkipDisabled, "a"), "\nSkipping a: Server Disabled ⚙️");
    assert_eq!(skip_log_line(RotationStep::SkipNotOk, "a"), "\nSkipping a: Server Not Ok ⚠️");
    assert_eq!(server_rotated_line("b"), "\nRotated keys for b ✅");
    assert_eq!(core_rotated_line("b"), "\nRotated key for b ✅");
}

#[test]
fn paging_rules() {
    assert_eq!(UPDATES_PER_PAGE, 100);
    assert_eq!(ALERTS_PER_PAGE, 100);
    assert_eq!(STATS_PER_PAGE, 200);
    assert_eq!(page_skip(3, UPDATES_PER_PAGE), 300);
    assert_eq!(page_skip(0, STATS_PER_PAGE), 0);
    assert_eq!(next_page_when_full(2, 100, UPDATES_PER_PAGE), Some(3));
    assert_eq!(next_page_when_full(2, 99, UPDATES_PER_PAGE), None);
    assert_eq!(next_alerts_page(0, 99), None);
    assert_eq!(next_alerts_page(0, 100), Some(1));
}

#[test]
fn update_usernames() {
    assert_eq!(update_username("Procedure", true, None), "Procedure");
    assert_eq!(update_username("u1", false, Some("alice".to_string())), "alice");
    assert_eq!(update_username("u1", false, None), "unknown");
}

#[test]
fn stats_timestamps_count_back_from_interval_start() {
    let ts = stats_page_timestamps(10_500, 1_000, 0);
    assert_eq!(ts.len(), 200);
    assert_eq!(ts[0], 10_000);
    assert_eq!(ts[1], 9_000);
    assert_eq!(ts[199], 10_000 - 199_000);
    let page1 = stats_page_timestamps(10_500, 1_000, 1);
    assert_eq!(page1[0], 10_000 - 200_000);
}
