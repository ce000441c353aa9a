use komodo_core::alerts::{AlertData, SeverityLevel};
use komodo_core::deploy::Version;
use komodo_core::deployment::{
    clean_extra_args, deployment_list_info, empty_or_only_spaces, needs_removal_on_delete, BuildRef, DeploymentImage, DeploymentState, DeploymentStatus,
};
use komodo_core::deployment_update::{
    image_update_alert, str_has_char, update_check_outcome, update_check_start, AlertRecordChange,
    DeploymentPlacement, UpdateCheckAction, UpdateCheckStart,
};
use komodo_core::deployment_exec::{
    check_container_action, rename_reaches_container, termination_settings, ContainerAction, Placement, RenameError,
};
use komodo_core::image_digest::ImageDigest;
use komodo_core::swarm_request::{
    swarm_request_failure, swarm_request_step, ManagerAttempt, SwarmRequestError, SwarmRequestState, SwarmRequestStep,
};
use komodo_core::target::ResourceTarget;
use komodo_core::terminal::{
    default_container_terminal_name, relabel_terminal, server_terminal_name, servers_to_query, ContainerTerminalMode,
    InitTerminal, Terminal, TerminalTarget,
};

fn s(x: &str) -> String {
    x.to_string()
}

fn status(state: DeploymentState, digests: Option<Vec<ImageDigest>>) -> DeploymentStatus {
    DeploymentStatus {
        state,
        service_image: None,
        container_image: Some(Some(s("nginx:1.25"))),
        container_status: Some(s("Up 2 hours")),
        image_digests: digests,
    }
}

#[test]
fn list_info_for_image_deployment() {
    let latest = ImageDigest::new("nginx", "new");
    let info = deployment_list_info(
        false,
        Some(status(DeploymentState::Running, Some(vec![ImageDigest::new("nginx", "old")]))),
        DeploymentImage::Image { image: s("nginx") },
        None,
        &latest,
    );
    assert_eq!(info.state, DeploymentState::Running);
    assert_eq!(info.status.as_deref(), Some("Up 2 hours"));
    assert_eq!(info.image, "nginx:1.25");
    assert!(info.update_available);
    assert_eq!(info.build_id, None);
    let deploying = deployment_list_info(true, None, DeploymentImage::Image { image: s("nginx") }, None, &latest);
    assert_eq!(deploying.state, DeploymentState::Deploying);
    assert_eq!(deploying.image, "nginx");
    assert!(!deploying.update_available);
}

#[test]
fn list_info_for_build_deployment() {
    let latest = ImageDigest::new("x", "d");
    let unset = Version { major: 0, minor: 0, patch: 0 };
    let info = deployment_list_info(
        false,
        None,
        DeploymentImage::Build { build_id: s("b1"), version: unset },
        Some(BuildRef { name: s("api"), id: s("b1"), version: Version { major: 1, minor: 2, patch: 3 } }),
        &latest,
    );
    assert_eq!(info.state, DeploymentState::Unknown);
    assert_eq!(info.image, "api:1.2.3");
    assert_eq!(info.build_id.as_deref(), Some("b1"));
    let pinned = deployment_list_info(
        false,
        None,
        DeploymentImage::Build { build_id: s("b1"), version: Version { major: 0, minor: 9, patch: 0 } },
        None,
        &latest,
    );
    assert_eq!(pinned.image, "unknown:0.9.0");
    assert_eq!(pinned.build_id.as_deref(), Some(""));
}

#[test]
fn removal_on_delete() {
    assert!(needs_removal_on_delete("", "srv", DeploymentState::Running));
    assert!(needs_removal_on_delete("sw", "", DeploymentState::Exited));
    assert!(!needs_removal_on_delete("", "", DeploymentState::Running));
    assert!(!needs_removal_on_delete("", "srv", DeploymentState::NotDeployed));
    assert!(!needs_removal_on_delete("", "srv", DeploymentState::Unknown));
}

#[test]
fn update_check_start_cases() {
    assert!(str_has_char("nginx@sha256:abc", '@'));
    assert!(!str_has_char("nginx:1", '@'));
    assert_eq!(
        update_check_start(&DeploymentImage::Build { build_id: s("b"), version: Version { major: 0, minor: 0, patch: 0 } }),
        UpdateCheckStart::NoUpdate { forget_alert: true }
    );
    assert_eq!(
        update_check_start(&DeploymentImage::Image { image: s("nginx@sha256:abc") }),
        UpdateCheckStart::NoUpdate { forget_alert: false }
    );
    assert_eq!(update_check_start(&DeploymentImage::Image { image: s("nginx") }), UpdateCheckStart::AskRegistry);
}

#[test]
fn update_check_outcomes() {
    let latest = ImageDigest::new("nginx", "new");
    let old = vec![ImageDigest::new("nginx", "old")];
    let same = vec![ImageDigest::new("nginx", "new")];
    let o = update_check_outcome(Some(DeploymentState::Running), Some(&old), &latest, false, true, false);
    assert_eq!(o.action, UpdateCheckAction::AutoUpdate);
    assert_eq!(o.alert_record, AlertRecordChange::Forget);
    let o = update_check_outcome(Some(DeploymentState::Running), Some(&old), &latest, false, false, false);
    assert_eq!(o.action, UpdateCheckAction::SendAlert);
    assert_eq!(o.alert_record, AlertRecordChange::Remember);
    assert!(o.update_available);
    // The alert is sent once.
    let o = update_check_outcome(Some(DeploymentState::Running), Some(&old), &latest, false, false, true);
    assert_eq!(o.action, UpdateCheckAction::Nothing);
    assert_eq!(o.alert_record, AlertRecordChange::Keep);
    assert!(o.update_available);
    // Skipped auto update still alerts.
    let o = update_check_outcome(Some(DeploymentState::Running), Some(&old), &latest, true, true, false);
    assert_eq!(o.action, UpdateCheckAction::SendAlert);
    assert!(!o.update_available);
    // The same skipped check again gives the same answer.
    let o = update_check_outcome(Some(DeploymentState::Running), Some(&old), &latest, true, true, true);
    assert_eq!(o.action, UpdateCheckAction::Nothing);
    assert_eq!(o.alert_record, AlertRecordChange::Keep);
    assert!(!o.update_available);
    // No update.
    let o = update_check_outcome(Some(DeploymentState::Running), Some(&same), &latest, false, true, false);
    assert_eq!(o.action, UpdateCheckAction::Nothing);
    assert_eq!(o.alert_record, AlertRecordChange::Forget);
    let o = update_check_outcome(Some(DeploymentState::Exited), Some(&old), &latest, false, true, false);
    assert_eq!(o.action, UpdateCheckAction::Nothing);
    let o = update_check_outcome(None, Some(&old), &latest, false, true, false);
    assert!(!o.update_available);
}

#[test]
fn image_update_alerts() {
    let placement = DeploymentPlacement { swarm_id: None, swarm_name: None, server_id: Some(s("srv")), server_name: Some(s("a")) };
    let a = image_update_alert(9, false, s("d1"), s("web"), placement, s("nginx"));
    assert!(a.resolved);
    assert_eq!(a.resolved_ts, Some(9));
    assert_eq!(a.level, SeverityLevel::Normal);
    assert!(matches!(a.target, ResourceTarget::Deployment(ref id) if id == "d1"));
    assert!(matches!(a.data, AlertData::DeploymentImageUpdateAvailable { ref image, .. } if image == "nginx"));
    let placement = DeploymentPlacement { swarm_id: None, swarm_name: None, server_id: None, server_name: None };
    let b = image_update_alert(9, true, s("d1"), s("web"), placement, s("nginx"));
    assert!(matches!(b.data, AlertData::DeploymentAutoUpdated { .. }));
}

#[test]
fn swarm_request_attempts() {
    let mut state = SwarmRequestState { last_error: None };
    assert!(matches!(swarm_request_step::<u8>(&mut state, ManagerAttempt::ClientUnavailable), SwarmRequestStep::Continue));
    assert!(state.last_error.is_none());
    assert!(matches!(swarm_request_step::<u8>(&mut state, ManagerAttempt::NotConnected), SwarmRequestStep::Continue));
    assert!(matches!(state.last_error, Some(SwarmRequestError::NoManagersConnected)));
    assert!(matches!(
        swarm_request_step::<u8>(&mut state, ManagerAttempt::RequestFailed(s("boom"))),
        SwarmRequestStep::Continue
    ));
    assert!(matches!(state.last_error, Some(SwarmRequestError::Failed(ref e)) if e == "boom"));
    assert!(matches!(swarm_request_step(&mut state, ManagerAttempt::Answered(7u8)), SwarmRequestStep::Done(7)));
    assert!(matches!(swarm_request_failure(state), SwarmRequestError::Failed(ref e) if e == "boom"));
    assert!(matches!(swarm_request_failure(SwarmRequestState { last_error: None }), SwarmRequestError::Unknown));
}

#[test]
fn terminal_names() {
    assert_eq!(server_terminal_name(Some(s("t")), &None), "t");
    assert_eq!(server_terminal_name(None, &Some(InitTerminal { command: Some(s("bash")), mode: None })), "bash");
    assert_eq!(server_terminal_name(None, &None), "term");
    assert_eq!(default_container_terminal_name(None, "web", &None), "web");
    assert_eq!(
        default_container_terminal_name(None, "web", &Some(InitTerminal { command: None, mode: Some(ContainerTerminalMode::Attach) })),
        "attach"
    );
    assert_eq!(default_container_terminal_name(None, "web", &Some(InitTerminal { command: None, mode: None })), "exec");
    assert_eq!(ContainerTerminalMode::Exec.name(), "exec");
}

#[test]
fn terminals_relabeled_for_user() {
    let t = Terminal { name: s("t"), target: TerminalTarget::Server { server: None }, command: s("sh") };
    let listed = relabel_terminal(t, &s("id1"), &s("srv"), true, &vec![], &vec![], true).unwrap();
    assert!(matches!(listed.target, TerminalTarget::Server { server: Some(ref n) } if n == "srv"));
    let t = Terminal { name: s("t"), target: TerminalTarget::Server { server: None }, command: s("sh") };
    assert!(relabel_terminal(t, &s("id1"), &s("srv"), false, &vec![], &vec![], true).is_none());
    let stacks = vec![(s("st1"), s("stack-one"))];
    let t = Terminal { name: s("t"), target: TerminalTarget::Stack { stack: s("st1"), service: None }, command: s("sh") };
    let listed = relabel_terminal(t, &s("id1"), &s("srv"), false, &stacks, &vec![], true).unwrap();
    assert!(matches!(listed.target, TerminalTarget::Stack { ref stack, .. } if stack == "stack-one"));
    let t = Terminal { name: s("t"), target: TerminalTarget::Deployment { deployment: s("d9") }, command: s("sh") };
    assert!(relabel_terminal(t, &s("id1"), &s("srv"), true, &stacks, &vec![], false).is_none());
}

#[test]
fn servers_queried_for_terminals() {
    let servers = servers_to_query(
        &vec![s("a"), s("b")],
        &vec![s("b"), s(""), s("c")],
        &vec![s("c"), s("d"), s("a")],
    );
    assert_eq!(servers, vec![s("a"), s("b"), s("c"), s("d")]);
}

#[test]
fn container_actions_need_a_server() {
    assert_eq!(check_container_action(ContainerAction::Stop, Placement::Server), Ok(()));
    assert_eq!(
        check_container_action(ContainerAction::Stop, Placement::Swarm),
        Err(s("StopDeployment should not be called for Deployment in Swarm Mode"))
    );
    assert_eq!(
        check_container_action(ContainerAction::Pull, Placement::NoTarget),
        Err(s("PullDeployment should not be called for Deployment in Swarm Mode"))
    );
}

#[test]
fn termination_defaults() {
    assert_eq!(termination_settings(Some("SIGINT"), None, "SIGTERM", 10), ("SIGINT", 10));
    assert_eq!(termination_settings(None, Some(30), "SIGTERM", 10), ("SIGTERM", 30));
}

#[test]
fn rename_rules() {
    assert_eq!(rename_reaches_container(DeploymentState::Unknown), Err(RenameError::StateUnknown));
    assert_eq!(rename_reaches_container(DeploymentState::NotDeployed), Ok(false));
    assert_eq!(rename_reaches_container(DeploymentState::Running), Ok(true));
    assert_eq!(RenameError::StateUnknown.message(), "Cannot rename Deployment when container status is unknown");
}

#[test]
fn blank_extra_args_dropped() {
    let mut args = vec![s("--init"), s(""), s("   "), s("--rm"), s(" x ")];
    clean_extra_args(&mut args);
    assert_eq!(args, vec![s("--init"), s("--rm"), s(" x ")]);
    assert!(empty_or_only_spaces(""));
    assert!(empty_or_only_spaces("  "));
    assert!(!empty_or_only_spaces(" a"));
}
