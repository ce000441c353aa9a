//! Rules of the monitoring loops: how often a server or swarm is
//! polled, how a swarm's health follows from its nodes, and which
//! disks are reported.
use vstd::prelude::*;

verus! {

/// How long after a refresh another unforced refresh is skipped, in
/// milliseconds.
pub const REFRESH_MIN_INTERVAL_MS: i64 = 1000;

/// Whether a refresh runs, given whether it is forced, whether another
/// refresh holds the lock, and when the last one ran.
pub open spec fn refresh_runs(force: bool, lock_busy: bool, last_refresh: i64, now: i64) -> bool {
    (force || !lock_busy) && (force || last_refresh <= now - REFRESH_MIN_INTERVAL_MS)
}

/// Whether a cache refresh of a server or swarm runs now.
///
/// A refresh already running blocks an unforced one (a forced one waits
/// for it); an unforced refresh is also skipped when the last one ran
/// less than a second ago. When the refresh runs, `now` is recorded as
/// its time.
pub fn refresh_allowed(force: bool, lock_busy: bool, last_refresh: &mut i64, now: i64) -> (run: bool)
    requires
        now >= i64::MIN + REFRESH_MIN_INTERVAL_MS,
    ensures
        run == refresh_runs(force, lock_busy, *old(last_refresh), now),
        run ==> *final(last_refresh) == now,
        !run ==> *final(last_refresh) == *old(last_refresh),
{
    if lock_busy && !force {
        return false;
    }
    if !force && *last_refresh > now - REFRESH_MIN_INTERVAL_MS {
        return false;
    }
    *last_refresh = now;
    true
}

/// The availability of a swarm node.
#[derive(Clone, Copy, Debug, PartialEq, Eq, Hash, Structural)]
pub enum NodeState {
    Unknown,
    Down,
    Ready,
    Disconnected,
}

/// Whether a swarm is healthy: every node reports itself ready.
pub open spec fn all_nodes_ready(nodes: Seq<Option<NodeState>>) -> bool {
    forall|i: int| 0 <= i < nodes.len() ==> #[trigger] nodes[i] == Some(NodeState::Ready)
}

/// The health of a polled swarm from the states of its nodes: healthy
/// when every node is ready, else unhealthy.
pub fn swarm_health(nodes: &Vec<Option<NodeState>>) -> (healthy: bool)
    ensures
        healthy == all_nodes_ready(nodes@),
{
    let mut healthy = true;
    let mut i: usize = 0;
    while i < nodes.len()
        invariant
            i <= nodes.len(),
            healthy == (forall|j: int| 0 <= j < i ==> #[trigger] nodes@[j] == Some(NodeState::Ready)),
        decreases nodes.len() - i,
    {
        match nodes[i] {
            Some(NodeState::Ready) => {},
            _ => {
                healthy = false;
            },
        }
        i = i + 1;
    }
    healthy
}

/// `str::starts_with`: whether `s` begins with `prefix`.
#[verifier::external_body]
pub(crate) fn str_starts_with(s: &str, prefix: &str) -> (r: bool)
    ensures
        r == (prefix@.len() <= s@.len() && s@.take(prefix@.len() as int) == prefix@),
{
    s.starts_with(prefix)
}

/// Whether `s` begins with `prefix`.
pub open spec fn has_prefix(s: Seq<char>, prefix: Seq<char>) -> bool {
    prefix.len() <= s.len() && s.take(prefix.len() as int) == prefix
}

/// Where docker keeps volumes; such mounts are never reported as disks.
pub open spec fn docker_volumes_root() -> Seq<char> {
    "/var/lib/docker/volumes"@
}

/// Whether a disk mounted at `mount` is reported: not a docker volume,
/// and not under any mount the server is configured to ignore.
pub open spec fn disk_reported(mount: Seq<char>, ignore_mounts: Seq<String>) -> bool {
    &&& !has_prefix(mount, docker_volumes_root())
    &&& forall|j: int| 0 <= j < ignore_mounts.len() ==> !has_prefix(mount, #[trigger] ignore_mounts[j]@)
}

/// Whether the disk mounted at `mount` is reported.
pub fn keep_disk(mount: &str, ignore_mounts: &Vec<String>) -> (keep: bool)
    ensures
        keep == disk_reported(mount@, ignore_mounts@),
{
    if str_starts_with(mount, "/var/lib/docker/volumes") {
        return false;
    }
    let mut i: usize = 0;
    while i < ignore_mounts.len()
        invariant
            i <= ignore_mounts.len(),
            forall|j: int| 0 <= j < i ==> !has_prefix(mount@, #[trigger] ignore_mounts@[j]@),
        decreases ignore_mounts.len() - i,
    {
        if str_starts_with(mount, ignore_mounts[i].as_str()) {
            return false;
        }
        i = i + 1;
    }
    true
}

/// For each disk, by mount point, whether it is reported.
pub fn reported_disks(mounts: &Vec<String>, ignore_mounts: &Vec<String>) -> (keep: Vec<bool>)
    ensures
        keep@.len() == mounts@.len(),
        forall|i: int| 0 <= i < mounts@.len() ==> keep@[i] == disk_reported(#[trigger] mounts@[i]@, ignore_mounts@),
{
    let mut keep: Vec<bool> = Vec::new();
    let mut i: usize = 0;
    while i < mounts.len()
        invariant
            i <= mounts.len(),
            keep@.len() == i,
            forall|j: int| 0 <= j < i ==> keep@[j] == disk_reported(#[trigger] mounts@[j]@, ignore_mounts@),
        decreases mounts.len() - i,
    {
        keep.push(keep_disk(mounts[i].as_str(), ignore_mounts));
        i = i + 1;
    }
    keep
}

/// The state of a server as the monitoring loop records it.
#[derive(Clone, Copy, Debug, PartialEq, Eq, Hash, Structural)]
pub enum ServerState {
    /// Reachable and answering (`Ok`).
    Online,
    /// Enabled but not reachable or not answering.
    NotOk,
    /// Disabled in its configuration.
    Disabled,
}

/// The state a server refresh records: disabled servers are not
/// polled; otherwise the server is online only when a client to it
/// could be had and it answered the poll.
pub fn server_poll_state(enabled: bool, client_available: bool, poll_answered: bool) -> (state: ServerState)
    ensures
        state == if !enabled {
            ServerState::Disabled
        } else if client_available && poll_answered {
            ServerState::Online
        } else {
            ServerState::NotOk
        },
{
    if !enabled {
        ServerState::Disabled
    } else if client_available && poll_answered {
        ServerState::Online
    } else {
        ServerState::NotOk
    }
}

/// Why a swarm's state is unknown.
#[derive(Clone, Copy, Debug, PartialEq, Eq, Structural)]
pub enum SwarmPollError {
    /// No servers are configured as manager nodes.
    NoManagers,
    /// No manager answered the poll.
    PollFailed,
}

/// The state a swarm refresh records: unknown without managers or
/// without an answer, else healthy exactly when every node is ready.
pub fn swarm_poll_state(has_managers: bool, nodes: Option<&Vec<Option<NodeState>>>) -> (r: (
    crate::alerts::SwarmState,
    Option<SwarmPollError>,
))
    ensures
        !has_managers ==> r == (crate::alerts::SwarmState::Unknown, Some(SwarmPollError::NoManagers)),
        has_managers && nodes is None ==> r == (crate::alerts::SwarmState::Unknown, Some(SwarmPollError::PollFailed)),
        has_managers ==> (nodes matches Some(n) ==> r == (
            if all_nodes_ready(n@) {
                crate::alerts::SwarmState::Healthy
            } else {
                crate::alerts::SwarmState::Unhealthy
            },
            None::<SwarmPollError>,
        )),
{
    if !has_managers {
        return (crate::alerts::SwarmState::Unknown, Some(SwarmPollError::NoManagers));
    }
    match nodes {
        None => (crate::alerts::SwarmState::Unknown, Some(SwarmPollError::PollFailed)),
        Some(n) => {
            if swarm_health(n) {
                (crate::alerts::SwarmState::Healthy, None)
            } else {
                (crate::alerts::SwarmState::Unhealthy, None)
            }
        },
    }
}

/// Whether the global auto update checks a stack: it has a cached
/// status and is running, it is placed on a swarm or a server, and its
/// configured server is found and online.
pub fn stack_auto_update_checked(running: Option<bool>, placed: bool, server_online: bool) -> (r: bool)
    ensures
        r == (running == Some(true) && placed && server_online),
{
    match running {
        Some(true) => placed && server_online,
        _ => false,
    }
}

/// Whether the global auto update checks a deployment: it has a cached
/// status and is running, and it is placed on a swarm or a server.
pub fn deployment_auto_update_checked(running: Option<bool>, placed: bool) -> (r: bool)
    ensures
        r == (running == Some(true) && placed),
{
    match running {
        Some(true) => placed,
        _ => false,
    }
}

/// The log of the global auto update after checking a resource: a line
/// `Checked {kind} {name} ✅`, on a new line unless the log is empty.
pub fn append_checked_line(log: &mut String, kind: &str, name: &str)
    ensures
        final(log)@ == (if old(log)@.len() == 0 {
            old(log)@
        } else {
            old(log)@ + "\n"@
        }) + "Checked "@ + kind@ + " "@ + name@ + " ✅"@,
{
    if log.as_str().unicode_len() != 0 {
        log.append("\n");
    }
    log.append("Checked ");
    log.append(kind);
    log.append(" ");
    log.append(name);
    log.append(" ✅");
}

/// What Periphery reports of itself when polled.
#[derive(Debug)]
pub struct PeripheryInfo {
    pub version: String,
    pub public_key: String,
    pub public_ip: Option<String>,
    pub terminals_disabled: bool,
    pub container_terminals_disabled: bool,
}

/// How a server is listed, beside its configuration.
#[derive(Debug)]
pub struct ServerListInfo {
    pub state: ServerState,
    pub address: Option<String>,
    pub external_address: Option<String>,
    pub version: Option<String>,
    pub public_key: Option<String>,
    pub attempted_public_key: Option<String>,
    pub public_ip: Option<String>,
    pub terminals_disabled: bool,
    pub container_terminals_disabled: bool,
}

/// How a server is listed: its recorded state (not ok without a
/// status), its addresses and the key it last attempted to connect with
/// (empty ones unset), and what Periphery last reported of itself; with
/// no report, version, key and address are unknown and terminals count
/// as disabled.
pub fn server_list_info(
    state: Option<ServerState>,
    periphery: Option<PeripheryInfo>,
    address: String,
    external_address: String,
    attempted_public_key: String,
) -> (info: ServerListInfo)
    ensures
        info.state == match state {
            Some(s) => s,
            None => ServerState::NotOk,
        },
        address@.len() == 0 ==> info.address is None,
        address@.len() != 0 ==> (info.address matches Some(a) && a@ == address@),
        external_address@.len() == 0 ==> info.external_address is None,
        external_address@.len() != 0 ==> (info.external_address matches Some(a) && a@ == external_address@),
        attempted_public_key@.len() == 0 ==> info.attempted_public_key is None,
        attempted_public_key@.len() != 0 ==> (info.attempted_public_key matches Some(k) && k@
            == attempted_public_key@),
        periphery is None ==> info.version is None && info.public_key is None && info.public_ip is None
            && info.terminals_disabled && info.container_terminals_disabled,
        periphery matches Some(p) ==> info.version == Some(p.version) && info.public_key == Some(p.public_key)
            && info.public_ip == p.public_ip && info.terminals_disabled == p.terminals_disabled
            && info.container_terminals_disabled == p.container_terminals_disabled,
{
    let state = match state {
        Some(s) => s,
        None => ServerState::NotOk,
    };
    let (version, public_key, public_ip, terminals_disabled, container_terminals_disabled) = match periphery {
        Some(p) => (Some(p.version), Some(p.public_key), p.public_ip, p.terminals_disabled, p.container_terminals_disabled),
        None => (None, None, None, true, true),
    };
    ServerListInfo {
        state,
        address: crate::alerts::optional_string(address),
        external_address: crate::alerts::optional_string(external_address),
        version,
        public_key,
        attempted_public_key: crate::alerts::optional_string(attempted_public_key),
        public_ip,
        terminals_disabled,
        container_terminals_disabled,
    }
}

// ---------------------------------------------------------------------
// Laws
// ---------------------------------------------------------------------

/// Refreshes are throttled: a forced refresh always runs; an unforced
/// one is skipped while another refresh holds the lock, and for a second
/// after the last refresh ran.
pub proof fn law_refresh_throttle(lock_busy: bool, last_refresh: i64, now: i64, later: i64)
    ensures
        refresh_runs(true, lock_busy, last_refresh, now),
        lock_busy ==> !refresh_runs(false, lock_busy, last_refresh, now),
        later < now + REFRESH_MIN_INTERVAL_MS ==> !refresh_runs(false, lock_busy, now, later),
        !lock_busy && last_refresh <= now - REFRESH_MIN_INTERVAL_MS ==> refresh_runs(false, lock_busy, last_refresh, now),
{
}

/// A swarm with a node that is not ready (down, disconnected, unknown,
/// or reporting nothing) is unhealthy; one whose nodes are all ready is
/// healthy.
pub proof fn law_swarm_unhealthy_with_unready_node(nodes: Seq<Option<NodeState>>, i: int)
    requires
        0 <= i < nodes.len(),
    ensures
        nodes[i] != Some(NodeState::Ready) ==> !all_nodes_ready(nodes),
        (forall|j: int| 0 <= j < nodes.len() ==> nodes[j] == Some(NodeState::Ready)) ==> all_nodes_ready(nodes),
{
}

/// A disk mounted under docker's volumes, or under a mount the server
/// ignores, is never reported; any other disk is.
pub proof fn law_disks_reported_unless_ignored(mount: Seq<char>, ignore_mounts: Seq<String>, i: int)
    requires
        0 <= i < ignore_mounts.len(),
    ensures
        has_prefix(mount, "/var/lib/docker/volumes"@) ==> !disk_reported(mount, ignore_mounts),
        has_prefix(mount, ignore_mounts[i]@) ==> !disk_reported(mount, ignore_mounts),
        !has_prefix(mount, "/var/lib/docker/volumes"@) && (forall|j: int|
            0 <= j < ignore_mounts.len() ==> !has_prefix(mount, #[trigger] ignore_mounts[j]@)) ==> disk_reported(
            mount,
            ignore_mounts,
        ),
{
}

} // verus!
