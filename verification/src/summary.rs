//! The summaries shown on the dashboard: how many resources of a kind
//! are in each state.
use crate::alerts::StackState;
use crate::deployment::DeploymentState;
use crate::monitor::ServerState;
use vstd::prelude::*;

verus! {

/// How many items of `s` satisfy `p`.
pub open spec fn count_where<A>(s: Seq<A>, p: spec_fn(A) -> bool) -> nat
    decreases s.len(),
{
    if s.len() == 0 {
        0
    } else {
        count_where(s.drop_last(), p) + if p(s.last()) {
            1nat
        } else {
            0nat
        }
    }
}

/// The count of a prefix grows by one exactly when the next item counts.
pub proof fn lemma_count_step<A>(s: Seq<A>, p: spec_fn(A) -> bool, i: int)
    requires
        0 <= i < s.len(),
    ensures
        count_where(s.take(i + 1), p) == count_where(s.take(i), p) + if p(s[i]) {
            1nat
        } else {
            0nat
        },
{
    assert(s.take(i + 1).drop_last() =~= s.take(i));
}

/// A count is at most the length.
pub proof fn lemma_count_bounded<A>(s: Seq<A>, p: spec_fn(A) -> bool)
    ensures
        count_where(s, p) <= s.len(),
    decreases s.len(),
{
    if s.len() > 0 {
        lemma_count_bounded(s.drop_last(), p);
    }
}

// ---------------------------------------------------------------------
// Deployments
// ---------------------------------------------------------------------

/// How many deployments are in each state.
#[derive(Clone, Copy, Debug, PartialEq, Eq, Structural)]
pub struct DeploymentsSummary {
    pub total: u32,
    pub running: u32,
    pub stopped: u32,
    pub not_deployed: u32,
    pub unhealthy: u32,
    pub unknown: u32,
}

/// A running deployment.
pub open spec fn dep_running(e: (DeploymentState, bool)) -> bool {
    e.0 == DeploymentState::Running
}

/// A stopped (exited or paused) deployment.
pub open spec fn dep_stopped(e: (DeploymentState, bool)) -> bool {
    e.0 == DeploymentState::Exited || e.0 == DeploymentState::Paused
}

/// A deployment not deployed.
pub open spec fn dep_not_deployed(e: (DeploymentState, bool)) -> bool {
    e.0 == DeploymentState::NotDeployed
}

/// A deployment in an unknown state that is not a template.
pub open spec fn dep_unknown(e: (DeploymentState, bool)) -> bool {
    e.0 == DeploymentState::Unknown && !e.1
}

/// A deployment in any other state.
pub open spec fn dep_unhealthy(e: (DeploymentState, bool)) -> bool {
    !(e.0 == DeploymentState::Running || e.0 == DeploymentState::Exited || e.0 == DeploymentState::Paused || e.0
        == DeploymentState::NotDeployed || e.0 == DeploymentState::Unknown)
}

/// The summary of deployments, each given by its cached state
/// (`Unknown` without one) and whether it is a template; templates in
/// an unknown state are not counted as unknown.
pub fn deployments_summary(deployments: &Vec<(DeploymentState, bool)>) -> (res: DeploymentsSummary)
    requires
        deployments@.len() <= u32::MAX,
    ensures
        res.total == deployments@.len(),
        res.running == count_where(deployments@, |e: (DeploymentState, bool)| dep_running(e)),
        res.stopped == count_where(deployments@, |e: (DeploymentState, bool)| dep_stopped(e)),
        res.not_deployed == count_where(deployments@, |e: (DeploymentState, bool)| dep_not_deployed(e)),
        res.unhealthy == count_where(deployments@, |e: (DeploymentState, bool)| dep_unhealthy(e)),
        res.unknown == count_where(deployments@, |e: (DeploymentState, bool)| dep_unknown(e)),
{
    let ghost s = deployments@;
    let mut res = DeploymentsSummary { total: 0, running: 0, stopped: 0, not_deployed: 0, unhealthy: 0, unknown: 0 };
    let mut i: usize = 0;
    while i < deployments.len()
        invariant
            i <= deployments.len(),
            s == deployments@,
            s.len() <= u32::MAX,
            res.total == i,
            res.running == count_where(s.take(i as int), |e: (DeploymentState, bool)| dep_running(e)),
            res.stopped == count_where(s.take(i as int), |e: (DeploymentState, bool)| dep_stopped(e)),
            res.not_deployed == count_where(s.take(i as int), |e: (DeploymentState, bool)| dep_not_deployed(e)),
            res.unhealthy == count_where(s.take(i as int), |e: (DeploymentState, bool)| dep_unhealthy(e)),
            res.unknown == count_where(s.take(i as int), |e: (DeploymentState, bool)| dep_unknown(e)),
        decreases deployments.len() - i,
    {
        proof {
            lemma_count_step(s, |e: (DeploymentState, bool)| dep_running(e), i as int);
            lemma_count_step(s, |e: (DeploymentState, bool)| dep_stopped(e), i as int);
            lemma_count_step(s, |e: (DeploymentState, bool)| dep_not_deployed(e), i as int);
            lemma_count_step(s, |e: (DeploymentState, bool)| dep_unhealthy(e), i as int);
            lemma_count_step(s, |e: (DeploymentState, bool)| dep_unknown(e), i as int);
            lemma_count_bounded(s.take(i as int), |e: (DeploymentState, bool)| dep_running(e));
            lemma_count_bounded(s.take(i as int), |e: (DeploymentState, bool)| dep_stopped(e));
            lemma_count_bounded(s.take(i as int), |e: (DeploymentState, bool)| dep_not_deployed(e));
            lemma_count_bounded(s.take(i as int), |e: (DeploymentState, bool)| dep_unhealthy(e));
            lemma_count_bounded(s.take(i as int), |e: (DeploymentState, bool)| dep_unknown(e));
        }
        let (state, template) = deployments[i];
        res.total = res.total + 1;
        match state {
            DeploymentState::Running => {
                res.running = res.running + 1;
            },
            DeploymentState::Exited | DeploymentState::Paused => {
                res.stopped = res.stopped + 1;
            },
            DeploymentState::NotDeployed => {
                res.not_deployed = res.not_deployed + 1;
            },
            DeploymentState::Unknown => {
                if !template {
                    res.unknown = res.unknown + 1;
                }
            },
            _ => {
                res.unhealthy = res.unhealthy + 1;
            },
        }
        i = i + 1;
    }
    assert(s.take(i as int) =~= s);
    res
}

// ---------------------------------------------------------------------
// Stacks
// ---------------------------------------------------------------------

/// How many stacks are in each state.
#[derive(Clone, Copy, Debug, PartialEq, Eq, Structural)]
pub struct StacksSummary {
    pub total: u32,
    pub running: u32,
    pub stopped: u32,
    pub down: u32,
    pub unhealthy: u32,
    pub unknown: u32,
}

/// A running stack.
pub open spec fn stack_running(e: (StackState, bool)) -> bool {
    e.0 == StackState::Running
}

/// A stopped (or paused) stack.
pub open spec fn stack_stopped(e: (StackState, bool)) -> bool {
    e.0 == StackState::Stopped || e.0 == StackState::Paused
}

/// A stack that is down.
pub open spec fn stack_down(e: (StackState, bool)) -> bool {
    e.0 == StackState::Down
}

/// A stack in an unknown state that is not a template.
pub open spec fn stack_unknown(e: (StackState, bool)) -> bool {
    e.0 == StackState::Unknown && !e.1
}

/// A stack in any other state.
pub open spec fn stack_unhealthy(e: (StackState, bool)) -> bool {
    !(e.0 == StackState::Running || e.0 == StackState::Stopped || e.0 == StackState::Paused || e.0 == StackState::Down
        || e.0 == StackState::Unknown)
}

/// The summary of stacks, each given by its cached state (`Unknown`
/// without one) and whether it is a template.
pub fn stacks_summary(stacks: &Vec<(StackState, bool)>) -> (res: StacksSummary)
    requires
        stacks@.len() <= u32::MAX,
    ensures
        res.total == stacks@.len(),
        res.running == count_where(stacks@, |e: (StackState, bool)| stack_running(e)),
        res.stopped == count_where(stacks@, |e: (StackState, bool)| stack_stopped(e)),
        res.down == count_where(stacks@, |e: (StackState, bool)| stack_down(e)),
        res.unhealthy == count_where(stacks@, |e: (StackState, bool)| stack_unhealthy(e)),
        res.unknown == count_where(stacks@, |e: (StackState, bool)| stack_unknown(e)),
{
    let ghost s = stacks@;
    let mut res = StacksSummary { total: 0, running: 0, stopped: 0, down: 0, unhealthy: 0, unknown: 0 };
    let mut i: usize = 0;
    while i < stacks.len()
        invariant
            i <= stacks.len(),
            s == stacks@,
            s.len() <= u32::MAX,
            res.total == i,
            res.running == count_where(s.take(i as int), |e: (StackState, bool)| stack_running(e)),
            res.stopped == count_where(s.take(i as int), |e: (StackState, bool)| stack_stopped(e)),
            res.down == count_where(s.take(i as int), |e: (StackState, bool)| stack_down(e)),
            res.unhealthy == count_where(s.take(i as int), |e: (StackState, bool)| stack_unhealthy(e)),
            res.unknown == count_where(s.take(i as int), |e: (StackState, bool)| stack_unknown(e)),
        decreases stacks.len() - i,
    {
        proof {
            lemma_count_step(s, |e: (StackState, bool)| stack_running(e), i as int);
            lemma_count_step(s, |e: (StackState, bool)| stack_stopped(e), i as int);
            lemma_count_step(s, |e: (StackState, bool)| stack_down(e), i as int);
            lemma_count_step(s, |e: (StackState, bool)| stack_unhealthy(e), i as int);
            lemma_count_step(s, |e: (StackState, bool)| stack_unknown(e), i as int);
            lemma_count_bounded(s.take(i as int), |e: (StackState, bool)| stack_running(e));
            lemma_count_bounded(s.take(i as int), |e: (StackState, bool)| stack_stopped(e));
            lemma_count_bounded(s.take(i as int), |e: (StackState, bool)| stack_down(e));
            lemma_count_bounded(s.take(i as int), |e: (StackState, bool)| stack_unhealthy(e));
            lemma_count_bounded(s.take(i as int), |e: (StackState, bool)| stack_unknown(e));
        }
        let (state, template) = stacks[i];
        res.total = res.total + 1;
        match state {
            StackState::Running => {
                res.running = res.running + 1;
            },
            StackState::Stopped | StackState::Paused => {
                res.stopped = res.stopped + 1;
            },
            StackState::Down => {
                res.down = res.down + 1;
            },
            StackState::Unknown => {
                if !template {
                    res.unknown = res.unknown + 1;
                }
            },
            _ => {
                res.unhealthy = res.unhealthy + 1;
            },
        }
        i = i + 1;
    }
    assert(s.take(i as int) =~= s);
    res
}

// ---------------------------------------------------------------------
// Servers
// ---------------------------------------------------------------------

/// How many servers are in each state.
#[derive(Clone, Copy, Debug, PartialEq, Eq, Structural)]
pub struct ServersSummary {
    pub total: u32,
    pub healthy: u32,
    pub warning: u32,
    pub unhealthy: u32,
    pub disabled: u32,
}

/// A server online whose Periphery reports a version other than Core's.
pub open spec fn server_warning(e: (ServerState, Option<Seq<char>>, bool), core_version: Seq<char>) -> bool {
    e.0 == ServerState::Online && (e.1 matches Some(v) && v != core_version)
}

/// A server online at Core's version, or not reporting one.
pub open spec fn server_healthy(e: (ServerState, Option<Seq<char>>, bool), core_version: Seq<char>) -> bool {
    e.0 == ServerState::Online && !(e.1 matches Some(v) && v != core_version)
}

/// The summary of servers, each given by its recorded state, the
/// Periphery version it reports, and whether it is a template: online
/// servers at another version than Core's count as warnings; disabled
/// templates are not counted as disabled.
pub fn servers_summary(servers: &Vec<(ServerState, Option<String>, bool)>, core_version: &str) -> (res: ServersSummary)
    requires
        servers@.len() <= u32::MAX,
    ensures
        res.total == servers@.len(),
        res.healthy == count_where(
            servers_view(servers@),
            |e: (ServerState, Option<Seq<char>>, bool)| server_healthy(e, core_version@),
        ),
        res.warning == count_where(
            servers_view(servers@),
            |e: (ServerState, Option<Seq<char>>, bool)| server_warning(e, core_version@),
        ),
        res.unhealthy == count_where(
            servers_view(servers@),
            |e: (ServerState, Option<Seq<char>>, bool)| e.0 == ServerState::NotOk,
        ),
        res.disabled == count_where(
            servers_view(servers@),
            |e: (ServerState, Option<Seq<char>>, bool)| e.0 == ServerState::Disabled && !e.2,
        ),
{
    let ghost s = servers_view(servers@);
    let ghost cv = core_version@;
    let ghost p_healthy = |e: (ServerState, Option<Seq<char>>, bool)| server_healthy(e, cv);
    let ghost p_warning = |e: (ServerState, Option<Seq<char>>, bool)| server_warning(e, cv);
    let ghost p_unhealthy = |e: (ServerState, Option<Seq<char>>, bool)| e.0 == ServerState::NotOk;
    let ghost p_disabled = |e: (ServerState, Option<Seq<char>>, bool)| e.0 == ServerState::Disabled && !e.2;
    let mut res = ServersSummary { total: 0, healthy: 0, warning: 0, unhealthy: 0, disabled: 0 };
    let mut i: usize = 0;
    while i < servers.len()
        invariant
            i <= servers.len(),
            s == servers_view(servers@),
            s.len() == servers@.len(),
            s.len() <= u32::MAX,
            cv == core_version@,
            p_healthy == (|e: (ServerState, Option<Seq<char>>, bool)| server_healthy(e, cv)),
            p_warning == (|e: (ServerState, Option<Seq<char>>, bool)| server_warning(e, cv)),
            p_unhealthy == (|e: (ServerState, Option<Seq<char>>, bool)| e.0 == ServerState::NotOk),
            p_disabled == (|e: (ServerState, Option<Seq<char>>, bool)| e.0 == ServerState::Disabled && !e.2),
            res.total == i,
            res.healthy == count_where(s.take(i as int), p_healthy),
            res.warning == count_where(s.take(i as int), p_warning),
            res.unhealthy == count_where(s.take(i as int), p_unhealthy),
            res.disabled == count_where(s.take(i as int), p_disabled),
        decreases servers.len() - i,
    {
        proof {
            lemma_count_step(s, p_healthy, i as int);
            lemma_count_step(s, p_warning, i as int);
            lemma_count_step(s, p_unhealthy, i as int);
            lemma_count_step(s, p_disabled, i as int);
            lemma_count_bounded(s.take(i as int), p_healthy);
            lemma_count_bounded(s.take(i as int), p_warning);
            lemma_count_bounded(s.take(i as int), p_unhealthy);
            lemma_count_bounded(s.take(i as int), p_disabled);
        }
        let (state, version, template) = &servers[i];
        res.total = res.total + 1;
        match state {
            ServerState::Online => {
                let mismatch = match version {
                    Some(v) => !crate::connection::str_eq(v.as_str(), core_version),
                    None => false,
                };
                if mismatch {
                    res.warning = res.warning + 1;
                } else {
                    res.healthy = res.healthy + 1;
                }
            },
            ServerState::NotOk => {
                res.unhealthy = res.unhealthy + 1;
            },
            ServerState::Disabled => {
                if !*template {
                    res.disabled = res.disabled + 1;
                }
            },
        }
        i = i + 1;
    }
    assert(s.take(i as int) =~= s);
    res
}

/// The values of a list of server entries.
pub open spec fn servers_view(s: Seq<(ServerState, Option<String>, bool)>) -> Seq<(ServerState, Option<Seq<char>>, bool)> {
    s.map_values(
        |e: (ServerState, Option<String>, bool)|
            (
                e.0,
                match e.1 {
                    Some(v) => Some(v@),
                    None => None,
                },
                e.2,
            ),
    )
}

// ---------------------------------------------------------------------
// Containers
// ---------------------------------------------------------------------

/// The state of a docker container.
#[derive(Clone, Copy, Debug, PartialEq, Eq, Hash, Structural)]
pub enum ContainerState {
    Empty,
    Created,
    Running,
    Paused,
    Restarting,
    Removing,
    Exited,
    Dead,
}

/// How many containers are in each state.
#[derive(Clone, Copy, Debug, PartialEq, Eq, Structural)]
pub struct ContainersSummary {
    pub total: u32,
    pub running: u32,
    pub stopped: u32,
    pub unhealthy: u32,
    pub unknown: u32,
}

/// A stopped container: created, paused or exited.
pub open spec fn container_stopped(c: ContainerState) -> bool {
    c == ContainerState::Created || c == ContainerState::Paused || c == ContainerState::Exited
}

/// A container in any state other than running, stopped or unknown.
pub open spec fn container_unhealthy(c: ContainerState) -> bool {
    !(container_stopped(c) || c == ContainerState::Running || c == ContainerState::Empty)
}

/// The summary of the containers on the servers a user may see.
pub fn containers_summary(containers: &Vec<ContainerState>) -> (res: ContainersSummary)
    requires
        containers@.len() <= u32::MAX,
    ensures
        res.total == containers@.len(),
        res.running == count_where(containers@, |c: ContainerState| c == ContainerState::Running),
        res.stopped == count_where(containers@, |c: ContainerState| container_stopped(c)),
        res.unhealthy == count_where(containers@, |c: ContainerState| container_unhealthy(c)),
        res.unknown == count_where(containers@, |c: ContainerState| c == ContainerState::Empty),
{
    let ghost s = containers@;
    let mut res = ContainersSummary { total: 0, running: 0, stopped: 0, unhealthy: 0, unknown: 0 };
    let mut i: usize = 0;
    while i < containers.len()
        invariant
            i <= containers.len(),
            s == containers@,
            s.len() <= u32::MAX,
            res.total == i,
            res.running == count_where(s.take(i as int), |c: ContainerState| c == ContainerState::Running),
            res.stopped == count_where(s.take(i as int), |c: ContainerState| container_stopped(c)),
            res.unhealthy == count_where(s.take(i as int), |c: ContainerState| container_unhealthy(c)),
            res.unknown == count_where(s.take(i as int), |c: ContainerState| c == ContainerState::Empty),
        decreases containers.len() - i,
    {
        proof {
            lemma_count_step(s, |c: ContainerState| c == ContainerState::Running, i as int);
            lemma_count_step(s, |c: ContainerState| container_stopped(c), i as int);
            lemma_count_step(s, |c: ContainerState| container_unhealthy(c), i as int);
            lemma_count_step(s, |c: ContainerState| c == ContainerState::Empty, i as int);
            lemma_count_bounded(s.take(i as int), |c: ContainerState| c == ContainerState::Running);
            lemma_count_bounded(s.take(i as int), |c: ContainerState| container_stopped(c));
            lemma_count_bounded(s.take(i as int), |c: ContainerState| container_unhealthy(c));
            lemma_count_bounded(s.take(i as int), |c: ContainerState| c == ContainerState::Empty);
        }
        res.total = res.total + 1;
        match containers[i] {
            ContainerState::Created | ContainerState::Paused | ContainerState::Exited => {
                res.stopped = res.stopped + 1;
            },
            ContainerState::Running => {
                res.running = res.running + 1;
            },
            ContainerState::Empty => {
                res.unknown = res.unknown + 1;
            },
            _ => {
                res.unhealthy = res.unhealthy + 1;
            },
        }
        i = i + 1;
    }
    assert(s.take(i as int) =~= s);
    res
}

// ---------------------------------------------------------------------
// Repos
// ---------------------------------------------------------------------

/// The state of a repo as the cache records it.
#[derive(Clone, Copy, Debug, PartialEq, Eq, Hash, Structural)]
pub enum RepoState {
    Unknown,
    Succeeded,
    Failed,
    Cloning,
    Pulling,
    Building,
}

/// What the summary reads of one repo: its cached state, the busy flags
/// of its action state, and whether it is a template.
#[derive(Clone, Copy, Debug, PartialEq, Eq, Structural)]
pub struct RepoEntry {
    pub state: RepoState,
    pub cloning: bool,
    pub pulling: bool,
    pub building: bool,
    pub template: bool,
}

/// How many repos are in each state.
#[derive(Clone, Copy, Debug, PartialEq, Eq, Structural)]
pub struct ReposSummary {
    pub total: u32,
    pub ok: u32,
    pub cloning: u32,
    pub pulling: u32,
    pub building: u32,
    pub failed: u32,
    pub unknown: u32,
}

/// A repo being cloned.
pub open spec fn repo_cloning(e: RepoEntry) -> bool {
    e.cloning
}

/// A repo being pulled (and not cloned).
pub open spec fn repo_pulling(e: RepoEntry) -> bool {
    !e.cloning && e.pulling
}

/// A repo being built (and not cloned or pulled).
pub open spec fn repo_building(e: RepoEntry) -> bool {
    !e.cloning && !e.pulling && e.building
}

/// A repo with no action running.
pub open spec fn repo_idle(e: RepoEntry) -> bool {
    !e.cloning && !e.pulling && !e.building
}

/// An idle repo whose last action succeeded.
pub open spec fn repo_ok(e: RepoEntry) -> bool {
    repo_idle(e) && e.state == RepoState::Succeeded
}

/// An idle repo whose last action failed.
pub open spec fn repo_failed(e: RepoEntry) -> bool {
    repo_idle(e) && e.state == RepoState::Failed
}

/// An idle repo in an unknown state that is not a template.
pub open spec fn repo_unknown(e: RepoEntry) -> bool {
    repo_idle(e) && e.state == RepoState::Unknown && !e.template
}

/// The cache never holds a busy state for a repo whose action state is
/// idle: busy states come from the action state alone.
pub open spec fn repo_entry_consistent(e: RepoEntry) -> bool {
    repo_idle(e) ==> (e.state == RepoState::Succeeded || e.state == RepoState::Failed || e.state == RepoState::Unknown)
}

/// The summary of repos: a running clone, pull or build counts first,
/// in that order; otherwise the cached state counts.
pub fn repos_summary(repos: &Vec<RepoEntry>) -> (res: ReposSummary)
    requires
        repos@.len() <= u32::MAX,
        forall|i: int| 0 <= i < repos@.len() ==> repo_entry_consistent(#[trigger] repos@[i]),
    ensures
        res.total == repos@.len(),
        res.cloning == count_where(repos@, |e: RepoEntry| repo_cloning(e)),
        res.pulling == count_where(repos@, |e: RepoEntry| repo_pulling(e)),
        res.building == count_where(repos@, |e: RepoEntry| repo_building(e)),
        res.ok == count_where(repos@, |e: RepoEntry| repo_ok(e)),
        res.failed == count_where(repos@, |e: RepoEntry| repo_failed(e)),
        res.unknown == count_where(repos@, |e: RepoEntry| repo_unknown(e)),
{
    let ghost s = repos@;
    let mut res = ReposSummary { total: 0, ok: 0, cloning: 0, pulling: 0, building: 0, failed: 0, unknown: 0 };
    let mut i: usize = 0;
    while i < repos.len()
        invariant
            i <= repos.len(),
            s == repos@,
            s.len() <= u32::MAX,
            forall|j: int| 0 <= j < s.len() ==> repo_entry_consistent(#[trigger] s[j]),
            res.total == i,
            res.cloning == count_where(s.take(i as int), |e: RepoEntry| repo_cloning(e)),
            res.pulling == count_where(s.take(i as int), |e: RepoEntry| repo_pulling(e)),
            res.building == count_where(s.take(i as int), |e: RepoEntry| repo_building(e)),
            res.ok == count_where(s.take(i as int), |e: RepoEntry| repo_ok(e)),
            res.failed == count_where(s.take(i as int), |e: RepoEntry| repo_failed(e)),
            res.unknown == count_where(s.take(i as int), |e: RepoEntry| repo_unknown(e)),
        decreases repos.len() - i,
    {
        proof {
            lemma_count_step(s, |e: RepoEntry| repo_cloning(e), i as int);
            lemma_count_step(s, |e: RepoEntry| repo_pulling(e), i as int);
            lemma_count_step(s, |e: RepoEntry| repo_building(e), i as int);
            lemma_count_step(s, |e: RepoEntry| repo_ok(e), i as int);
            lemma_count_step(s, |e: RepoEntry| repo_failed(e), i as int);
            lemma_count_step(s, |e: RepoEntry| repo_unknown(e), i as int);
            lemma_count_bounded(s.take(i as int), |e: RepoEntry| repo_cloning(e));
            lemma_count_bounded(s.take(i as int), |e: RepoEntry| repo_pulling(e));
            lemma_count_bounded(s.take(i as int), |e: RepoEntry| repo_building(e));
            lemma_count_bounded(s.take(i as int), |e: RepoEntry| repo_ok(e));
            lemma_count_bounded(s.take(i as int), |e: RepoEntry| repo_failed(e));
            lemma_count_bounded(s.take(i as int), |e: RepoEntry| repo_unknown(e));
        }
        let e = repos[i];
        assert(repo_entry_consistent(s[i as int]));
        res.total = res.total + 1;
        if e.cloning {
            res.cloning = res.cloning + 1;
        } else if e.pulling {
            res.pulling = res.pulling + 1;
        } else if e.building {
            res.building = res.building + 1;
        } else {
            match e.state {
                RepoState::Succeeded => {
                    res.ok = res.ok + 1;
                },
                RepoState::Failed => {
                    res.failed = res.failed + 1;
                },
                RepoState::Unknown => {
                    if !e.template {
                        res.unknown = res.unknown + 1;
                    }
                },
                _ => {},
            }
        }
        i = i + 1;
    }
    assert(s.take(i as int) =~= s);
    res
}

// ---------------------------------------------------------------------
// Laws
// ---------------------------------------------------------------------

/// Counts over the same list with exclusive predicates add up to the
/// count of their union.
pub proof fn lemma_count_split<A>(s: Seq<A>, p: spec_fn(A) -> bool, q: spec_fn(A) -> bool, r: spec_fn(A) -> bool)
    requires
        forall|x: A| #[trigger] r(x) <==> (p(x) || q(x)),
        forall|x: A| !(#[trigger] p(x) && q(x)),
    ensures
        count_where(s, r) == count_where(s, p) + count_where(s, q),
    decreases s.len(),
{
    if s.len() > 0 {
        lemma_count_split(s.drop_last(), p, q, r);
        assert(r(s.last()) <==> (p(s.last()) || q(s.last())));
        assert(!(p(s.last()) && q(s.last())));
    }
}

/// Every item counts.
pub proof fn lemma_count_all<A>(s: Seq<A>, p: spec_fn(A) -> bool)
    requires
        forall|x: A| #[trigger] p(x),
    ensures
        count_where(s, p) == s.len(),
    decreases s.len(),
{
    if s.len() > 0 {
        lemma_count_all(s.drop_last(), p);
    }
}

/// Every container is counted exactly once: the four counts add up to
/// the total.
pub proof fn law_containers_partition(s: Seq<ContainerState>)
    ensures
        count_where(s, |c: ContainerState| c == ContainerState::Running) + count_where(
            s,
            |c: ContainerState| container_stopped(c),
        ) + count_where(s, |c: ContainerState| container_unhealthy(c)) + count_where(
            s,
            |c: ContainerState| c == ContainerState::Empty,
        ) == s.len(),
{
    let running = |c: ContainerState| c == ContainerState::Running;
    let stopped = |c: ContainerState| container_stopped(c);
    let unhealthy = |c: ContainerState| container_unhealthy(c);
    let unknown = |c: ContainerState| c == ContainerState::Empty;
    let a = |c: ContainerState| running(c) || stopped(c);
    let b = |c: ContainerState| a(c) || unhealthy(c);
    let all = |c: ContainerState| b(c) || unknown(c);
    lemma_count_split(s, running, stopped, a);
    lemma_count_split(s, a, unhealthy, b);
    lemma_count_split(s, b, unknown, all);
    lemma_count_all(s, all);
}

/// Every deployment that is not an unknown template is counted exactly
/// once.
pub proof fn law_deployments_partition(s: Seq<(DeploymentState, bool)>)
    ensures
        count_where(s, |e: (DeploymentState, bool)| dep_running(e)) + count_where(
            s,
            |e: (DeploymentState, bool)| dep_stopped(e),
        ) + count_where(s, |e: (DeploymentState, bool)| dep_not_deployed(e)) + count_where(
            s,
            |e: (DeploymentState, bool)| dep_unhealthy(e),
        ) + count_where(s, |e: (DeploymentState, bool)| dep_unknown(e)) + count_where(
            s,
            |e: (DeploymentState, bool)| e.0 == DeploymentState::Unknown && e.1,
        ) == s.len(),
{
    let p1 = |e: (DeploymentState, bool)| dep_running(e);
    let p2 = |e: (DeploymentState, bool)| dep_stopped(e);
    let p3 = |e: (DeploymentState, bool)| dep_not_deployed(e);
    let p4 = |e: (DeploymentState, bool)| dep_unhealthy(e);
    let p5 = |e: (DeploymentState, bool)| dep_unknown(e);
    let p6 = |e: (DeploymentState, bool)| e.0 == DeploymentState::Unknown && e.1;
    let a = |e: (DeploymentState, bool)| p1(e) || p2(e);
    let b = |e: (DeploymentState, bool)| a(e) || p3(e);
    let c = |e: (DeploymentState, bool)| b(e) || p4(e);
    let d = |e: (DeploymentState, bool)| c(e) || p5(e);
    let all = |e: (DeploymentState, bool)| d(e) || p6(e);
    lemma_count_split(s, p1, p2, a);
    lemma_count_split(s, a, p3, b);
    lemma_count_split(s, b, p4, c);
    lemma_count_split(s, c, p5, d);
    lemma_count_split(s, d, p6, all);
    lemma_count_all(s, all);
}

/// Counts under two predicates that agree on every item are equal.
pub proof fn lemma_count_same<A>(s: Seq<A>, p: spec_fn(A) -> bool, q: spec_fn(A) -> bool)
    requires
        forall|x: A| #[trigger] p(x) <==> q(x),
    ensures
        count_where(s, p) == count_where(s, q),
    decreases s.len(),
{
    if s.len() > 0 {
        lemma_count_same(s.drop_last(), p, q);
        assert(p(s.last()) <==> q(s.last()));
    }
}

/// 1 for true, 0 for false.
pub open spec fn one_if(b: bool) -> int {
    if b {
        1
    } else {
        0
    }
}

/// Each stack counts in exactly one category, but a template with an
/// unknown state, which counts in none: a running stack as running, a
/// stopped or paused one as stopped, a down one as down, one whose
/// state is unknown as unknown (never as unhealthy), and one in any
/// other state as unhealthy.
pub proof fn law_stack_counted_once(e: (StackState, bool))
    ensures
        !(e.0 == StackState::Unknown && e.1) ==> one_if(stack_running(e)) + one_if(stack_stopped(e)) + one_if(
            stack_down(e),
        ) + one_if(stack_unhealthy(e)) + one_if(stack_unknown(e)) == 1,
        e.0 == StackState::Unknown && e.1 ==> !stack_running(e) && !stack_stopped(e) && !stack_down(e)
            && !stack_unhealthy(e) && !stack_unknown(e),
        e.0 == StackState::Running ==> stack_running(e),
        e.0 == StackState::Stopped || e.0 == StackState::Paused ==> stack_stopped(e),
        e.0 == StackState::Down ==> stack_down(e),
        e.0 == StackState::Unknown ==> !stack_unhealthy(e),
        e.0 == StackState::Unknown && !e.1 ==> stack_unknown(e),
        e.0 == StackState::Deploying || e.0 == StackState::Created || e.0 == StackState::Restarting || e.0
            == StackState::Dead || e.0 == StackState::Removing || e.0 == StackState::Unhealthy ==> stack_unhealthy(e),
{
}

/// Every stack but an unknown template is counted exactly once, and the
/// unknown count is the number of stacks that are no template and whose
/// state is unknown.
pub proof fn law_stacks_partition(s: Seq<(StackState, bool)>)
    ensures
        count_where(s, |e: (StackState, bool)| stack_running(e)) + count_where(
            s,
            |e: (StackState, bool)| stack_stopped(e),
        ) + count_where(s, |e: (StackState, bool)| stack_down(e)) + count_where(
            s,
            |e: (StackState, bool)| stack_unhealthy(e),
        ) + count_where(s, |e: (StackState, bool)| stack_unknown(e)) + count_where(
            s,
            |e: (StackState, bool)| e.0 == StackState::Unknown && e.1,
        ) == s.len(),
        count_where(s, |e: (StackState, bool)| stack_unknown(e)) == count_where(
            s,
            |e: (StackState, bool)| e.0 == StackState::Unknown && !e.1,
        ),
{
    let p1 = |e: (StackState, bool)| stack_running(e);
    let p2 = |e: (StackState, bool)| stack_stopped(e);
    let p3 = |e: (StackState, bool)| stack_down(e);
    let p4 = |e: (StackState, bool)| stack_unhealthy(e);
    let p5 = |e: (StackState, bool)| stack_unknown(e);
    let p6 = |e: (StackState, bool)| e.0 == StackState::Unknown && e.1;
    let a = |e: (StackState, bool)| p1(e) || p2(e);
    let b = |e: (StackState, bool)| a(e) || p3(e);
    let c = |e: (StackState, bool)| b(e) || p4(e);
    let d = |e: (StackState, bool)| c(e) || p5(e);
    let all = |e: (StackState, bool)| d(e) || p6(e);
    lemma_count_split(s, p1, p2, a);
    lemma_count_split(s, a, p3, b);
    lemma_count_split(s, b, p4, c);
    lemma_count_split(s, c, p5, d);
    lemma_count_split(s, d, p6, all);
    lemma_count_all(s, all);
    lemma_count_same(s, p5, |e: (StackState, bool)| e.0 == StackState::Unknown && !e.1);
}

/// Each deployment counts in exactly one category, but a template with an
/// unknown state, which counts in none: running, stopped (exited or
/// paused), not deployed, unknown (never unhealthy), or unhealthy for
/// any other state.
pub proof fn law_deployment_counted_once(e: (DeploymentState, bool))
    ensures
        !(e.0 == DeploymentState::Unknown && e.1) ==> one_if(dep_running(e)) + one_if(dep_stopped(e)) + one_if(
            dep_not_deployed(e),
        ) + one_if(dep_unhealthy(e)) + one_if(dep_unknown(e)) == 1,
        e.0 == DeploymentState::Running ==> dep_running(e),
        e.0 == DeploymentState::Exited || e.0 == DeploymentState::Paused ==> dep_stopped(e),
        e.0 == DeploymentState::NotDeployed ==> dep_not_deployed(e),
        e.0 == DeploymentState::Unknown ==> !dep_unhealthy(e),
        e.0 == DeploymentState::Unknown && !e.1 ==> dep_unknown(e),
        e.0 == DeploymentState::Unknown && e.1 ==> !dep_unknown(e),
        e.0 == DeploymentState::Created || e.0 == DeploymentState::Restarting || e.0 == DeploymentState::Removing
            || e.0 == DeploymentState::Dead || e.0 == DeploymentState::Deploying ==> dep_unhealthy(e),
{
}

/// Each container counts in exactly one category: running, stopped
/// (created, paused or exited), unknown (no state), or unhealthy
/// (restarting, removing or dead).
pub proof fn law_container_counted_once(c: ContainerState)
    ensures
        one_if(c == ContainerState::Running) + one_if(container_stopped(c)) + one_if(container_unhealthy(c))
            + one_if(c == ContainerState::Empty) == 1,
        c == ContainerState::Created || c == ContainerState::Paused || c == ContainerState::Exited
            ==> container_stopped(c),
        c == ContainerState::Restarting || c == ContainerState::Removing || c == ContainerState::Dead
            ==> container_unhealthy(c),
{
}

/// Each online server counts as healthy or as a warning, never both: a
/// warning exactly when it reports a version other than Core's.
pub proof fn law_online_server_healthy_or_warning(e: (ServerState, Option<Seq<char>>, bool), core_version: Seq<char>)
    ensures
        e.0 == ServerState::Online ==> one_if(server_healthy(e, core_version)) + one_if(
            server_warning(e, core_version),
        ) == 1,
        e.0 == ServerState::Online && e.1 == Some(core_version) ==> server_healthy(e, core_version),
        e.0 == ServerState::Online && e.1 is None ==> server_healthy(e, core_version),
        e.0 == ServerState::Online && (e.1 matches Some(v) && v != core_version) ==> server_warning(e, core_version),
        e.0 != ServerState::Online ==> !server_healthy(e, core_version) && !server_warning(e, core_version),
{
}

/// Each consistent repo counts in exactly one category, but a template
/// in an unknown state: a running clone first, then a pull, then a
/// build; an idle repo by its last outcome.
pub proof fn law_repo_counted_once(e: RepoEntry)
    requires
        repo_entry_consistent(e),
    ensures
        !(repo_idle(e) && e.state == RepoState::Unknown && e.template) ==> one_if(repo_cloning(e)) + one_if(
            repo_pulling(e),
        ) + one_if(repo_building(e)) + one_if(repo_ok(e)) + one_if(repo_failed(e)) + one_if(repo_unknown(e)) == 1,
        e.cloning ==> repo_cloning(e),
        !e.cloning && e.pulling ==> repo_pulling(e),
        !e.cloning && !e.pulling && e.building ==> repo_building(e),
        !e.cloning && !e.pulling && !e.building && e.state == RepoState::Failed ==> repo_failed(e),
        !e.cloning && !e.pulling && !e.building && e.state == RepoState::Succeeded ==> repo_ok(e),
        !e.cloning && !e.pulling && !e.building && e.state == RepoState::Unknown && !e.template ==> repo_unknown(e),
{
}

} // verus!
