use komodo_core::alerts::StackState;
use komodo_core::deployment::DeploymentState;
use komodo_core::monitor::ServerState;
use komodo_core::summary::{
    containers_summary, deployments_summary, repos_summary, servers_summary, stacks_summary, ContainerState,
    ContainersSummary, DeploymentsSummary, RepoEntry, RepoState, ReposSummary, ServersSummary, StacksSummary,
};

#[test]
fn deployments_summary_counts() {
    let s = deployments_summary(&vec![
        (DeploymentState::Running, false),
        (DeploymentState::Exited, false),
        (DeploymentState::Paused, false),
        (DeploymentState::NotDeployed, false),
        (DeploymentState::Unknown, false),
        (DeploymentState::Unknown, true),
        (DeploymentState::Restarting, false),
    ]);
    assert_eq!(
        s,
        DeploymentsSummary { total: 7, running: 1, stopped: 2, not_deployed: 1, unhealthy: 1, unknown: 1 }
    );
    // Every deployment but an unknown template is counted once.
    assert_eq!(s.running + s.stopped + s.not_deployed + s.unhealthy + s.unknown + 1, s.total);
    assert_eq!(
        deployments_summary(&vec![]),
        DeploymentsSummary { total: 0, running: 0, stopped: 0, not_deployed: 0, unhealthy: 0, unknown: 0 }
    );
}

#[test]
fn stacks_summary_counts() {
    let s = stacks_summary(&vec![
        (StackState::Running, false),
        (StackState::Stopped, false),
        (StackState::Paused, true),
        (StackState::Down, false),
        (StackState::Unknown, true),
        (StackState::Unhealthy, false),
        (StackState::Deploying, false),
    ]);
    assert_eq!(s, StacksSummary { total: 7, running: 1, stopped: 2, down: 1, unhealthy: 2, unknown: 0 });
}

#[test]
fn servers_summary_counts() {
    let s = servers_summary(
        &vec![
            (ServerState::Online, Some("2.0.0".to_string()), false),
            (ServerState::Online, Some("1.9.0".to_string()), false),
            (ServerState::Online, None, false),
            (ServerState::NotOk, None, false),
            (ServerState::Disabled, None, false),
            (ServerState::Disabled, None, true),
        ],
        "2.0.0",
    );
    assert_eq!(s, ServersSummary { total: 6, healthy: 2, warning: 1, unhealthy: 1, disabled: 1 });
}

#[test]
fn containers_summary_counts() {
    let s = containers_summary(&vec![
        ContainerState::Running,
        ContainerState::Created,
        ContainerState::Exited,
        ContainerState::Paused,
        ContainerState::Dead,
        ContainerState::Restarting,
        ContainerState::Empty,
    ]);
    assert_eq!(s, ContainersSummary { total: 7, running: 1, stopped: 3, unhealthy: 2, unknown: 1 });
    // Every container is counted once.
    assert_eq!(s.running + s.stopped + s.unhealthy + s.unknown, s.total);
}

fn repo(state: RepoState, cloning: bool, pulling: bool, building: bool, template: bool) -> RepoEntry {
    RepoEntry { state, cloning, pulling, building, template }
}

#[test]
fn repos_summary_counts() {
    let s = repos_summary(&vec![
        repo(RepoState::Cloning, true, true, false, false),
        repo(RepoState::Pulling, false, true, true, false),
        repo(RepoState::Building, false, false, true, false),
        repo(RepoState::Succeeded, false, false, false, false),
        repo(RepoState::Failed, false, false, false, false),
        repo(RepoState::Unknown, false, false, false, false),
        repo(RepoState::Unknown, false, false, false, true),
    ]);
    assert_eq!(
        s,
        ReposSummary { total: 7, ok: 1, cloning: 1, pulling: 1, building: 1, failed: 1, unknown: 1 }
    );
}
