//! A deployment configuration read off an existing container: the
//! image, command, environment, labels, volumes, network, ports and
//! restart policy the container runs with.
use crate::deployment::DeploymentImage;
use crate::monitor::ServerState;
use crate::text::{join_strings, joined, replaced, string_views};
use vstd::prelude::*;

verus! {

/// A container's restart policy, as Docker names it.
#[derive(Clone, Copy, Debug, PartialEq, Eq, Structural)]
pub enum RestartPolicyName {
    Empty,
    No,
    Always,
    UnlessStopped,
    OnFailure,
}

/// The restart mode of a deployment.
#[derive(Clone, Copy, Debug, PartialEq, Eq, Structural)]
pub enum RestartMode {
    NoRestart,
    OnFailure,
    Always,
    UnlessStopped,
}

/// The restart mode of a deployment for a container's restart policy.
pub open spec fn restart_mode_spec(p: RestartPolicyName) -> RestartMode {
    match p {
        RestartPolicyName::Always => RestartMode::Always,
        RestartPolicyName::No | RestartPolicyName::Empty => RestartMode::NoRestart,
        RestartPolicyName::UnlessStopped => RestartMode::UnlessStopped,
        RestartPolicyName::OnFailure => RestartMode::OnFailure,
    }
}

/// The restart mode of a deployment for a container's restart policy.
pub fn restart_mode(p: RestartPolicyName) -> (m: RestartMode)
    ensures
        m == restart_mode_spec(p),
{
    match p {
        RestartPolicyName::Always => RestartMode::Always,
        RestartPolicyName::No | RestartPolicyName::Empty => RestartMode::NoRestart,
        RestartPolicyName::UnlessStopped => RestartMode::UnlessStopped,
        RestartPolicyName::OnFailure => RestartMode::OnFailure,
    }
}

/// The name of a server state as errors show it.
pub open spec fn server_state_name_spec(state: ServerState) -> Seq<char> {
    match state {
        ServerState::Online => "Ok"@,
        ServerState::NotOk => "NotOk"@,
        ServerState::Disabled => "Disabled"@,
    }
}

/// The name of a server state as errors show it.
pub fn server_state_name(state: ServerState) -> (s: &'static str)
    ensures
        s@ == server_state_name_spec(state),
{
    match state {
        ServerState::Online => "Ok",
        ServerState::NotOk => "NotOk",
        ServerState::Disabled => "Disabled",
    }
}

/// A container can only be inspected on a server that is online; the
/// error names the server's state otherwise.
pub fn check_server_inspectable(state: ServerState) -> (r: Result<(), String>)
    ensures
        state == ServerState::Online ==> r is Ok,
        state != ServerState::Online ==> (r matches Err(e) && e@ == "Cannot inspect container: server is "@
            + server_state_name_spec(state)),
{
    if state == ServerState::Online {
        Ok(())
    } else {
        Err("Cannot inspect container: server is ".to_owned().concat(server_state_name(state)))
    }
}

/// Each item on a line of its own, indented by two spaces.
pub open spec fn indented_lines(items: Seq<Seq<char>>) -> Seq<char> {
    joined(items.map_values(|e: Seq<char>| "  "@ + e), "\n"@)
}

/// Each item on a line of its own, indented by two spaces.
pub fn indent_lines(items: &Vec<String>) -> (r: String)
    ensures
        r@ == indented_lines(string_views(items@)),
{
    let mut lines: Vec<String> = Vec::new();
    let mut i: usize = 0;
    while i < items.len()
        invariant
            i <= items.len(),
            lines@.len() == i,
            forall|j: int| 0 <= j < i ==> #[trigger] lines@[j]@ == "  "@ + items@[j]@,
        decreases items.len() - i,
    {
        lines.push("  ".to_owned().concat(items[i].as_str()));
        i = i + 1;
    }
    let r = join_strings(&lines, "\n");
    assert(string_views(lines@) =~= string_views(items@).map_values(|e: Seq<char>| "  "@ + e));
    r
}

/// The label lines of a deployment: `  key: value` for each label.
pub open spec fn label_lines(labels: Seq<(String, String)>) -> Seq<char> {
    joined(labels.map_values(|l: (String, String)| "  "@ + l.0@ + ": "@ + l.1@), "\n"@)
}

/// The label lines of a deployment: `  key: value` for each label.
pub fn label_text(labels: &Vec<(String, String)>) -> (r: String)
    ensures
        r@ == label_lines(labels@),
{
    let mut lines: Vec<String> = Vec::new();
    let mut i: usize = 0;
    while i < labels.len()
        invariant
            i <= labels.len(),
            lines@.len() == i,
            forall|j: int|
                0 <= j < i ==> #[trigger] lines@[j]@ == "  "@ + labels@[j].0@ + ": "@ + labels@[j].1@,
        decreases labels.len() - i,
    {
        let (key, value) = &labels[i];
        lines.push("  ".to_owned().concat(key.as_str()).concat(": ").concat(value.as_str()));
        i = i + 1;
    }
    let r = join_strings(&lines, "\n");
    assert(string_views(lines@) =~= labels@.map_values(|l: (String, String)| "  "@ + l.0@ + ": "@ + l.1@));
    r
}

/// `str::replace`: `s` with every match of `from` replaced by `to`,
/// matches found from the left without overlapping (see [replaced]).
#[verifier::external_body]
fn replace_all(s: &str, from: &str, to: &str) -> (r: String)
    ensures
        r@ == replaced(s@, from@, to@),
{
    s.replace(from, to)
}

/// A published container port: the container's port (such as
/// `80/tcp`) and the host port of each of its bindings, if set.
#[derive(Debug)]
pub struct PortBinding {
    pub container_port: String,
    pub host_ports: Vec<Option<String>>,
}

/// The port line of a published port, when its last binding names a
/// host port: `  {host}:{container port without /tcp}`.
pub open spec fn port_line(b: PortBinding) -> Option<Seq<char>> {
    if b.host_ports@.len() > 0 && b.host_ports@.last() is Some {
        Some("  "@ + b.host_ports@.last()->0@ + ":"@ + replaced(b.container_port@, "/tcp"@, ""@))
    } else {
        None
    }
}

/// The port lines of the published ports, in order, leaving out those
/// without a host port.
pub open spec fn port_lines(bs: Seq<PortBinding>) -> Seq<Seq<char>>
    decreases bs.len(),
{
    if bs.len() == 0 {
        Seq::empty()
    } else {
        match port_line(bs.last()) {
            Some(l) => port_lines(bs.drop_last()).push(l),
            None => port_lines(bs.drop_last()),
        }
    }
}

/// The port text of a deployment: one line per published port that
/// has a host port.
pub fn port_text(bindings: &Vec<PortBinding>) -> (r: String)
    ensures
        r@ == joined(port_lines(bindings@), "\n"@),
{
    let mut lines: Vec<String> = Vec::new();
    let mut i: usize = 0;
    while i < bindings.len()
        invariant
            i <= bindings.len(),
            string_views(lines@) == port_lines(bindings@.take(i as int)),
        decreases bindings.len() - i,
    {
        assert(bindings@.take(i + 1).drop_last() =~= bindings@.take(i as int));
        let b = &bindings[i];
        let n = b.host_ports.len();
        if n > 0 {
            match &b.host_ports[n - 1] {
                Some(host) => {
                    let port = replace_all(b.container_port.as_str(), "/tcp", "");
                    lines.push("  ".to_owned().concat(host.as_str()).concat(":").concat(port.as_str()));
                    assert(string_views(lines@) =~= port_lines(bindings@.take(i as int)).push(lines@.last()@));
                },
                None => {},
            }
        }
        i = i + 1;
    }
    assert(bindings@.take(bindings.len() as int) =~= bindings@);
    join_strings(&lines, "\n")
}

/// What a container's configuration says of how it runs.
#[derive(Debug)]
pub struct ContainerConfig {
    pub image: Option<String>,
    pub cmd: Vec<String>,
    pub env: Vec<String>,
    pub labels: Vec<(String, String)>,
}

/// What a container's host configuration says of how it runs.
#[derive(Debug)]
pub struct HostConfig {
    pub binds: Vec<String>,
    pub network_mode: Option<String>,
    pub port_bindings: Vec<PortBinding>,
    pub restart_policy: Option<RestartPolicyName>,
}

/// The deployment configuration read off a container; a field is `None`
/// where the container says nothing of it.
#[derive(Debug)]
pub struct ImportedDeploymentConfig {
    pub server_id: String,
    pub image: Option<DeploymentImage>,
    pub command: Option<String>,
    pub environment: Option<String>,
    pub labels: Option<String>,
    pub volumes: Option<String>,
    pub network: Option<String>,
    pub ports: Option<String>,
    pub restart: Option<RestartMode>,
}

/// The deployment configuration for a container on the server
/// `server_id`: from its configuration the image, the command (its
/// words joined by spaces), the environment and the labels; from its
/// host configuration the volumes, the network, the ports and the
/// restart mode.
pub fn import_container_config(
    server_id: String,
    config: Option<ContainerConfig>,
    host_config: Option<HostConfig>,
) -> (r: ImportedDeploymentConfig)
    ensures
        r.server_id@ == server_id@,
        config is None ==> r.image is None && r.command is None && r.environment is None && r.labels is None,
        config matches Some(c) ==> {
            &&& (c.image matches Some(i) ==> (r.image matches Some(DeploymentImage::Image { image }) && image@
                == i@))
            &&& (c.image is None ==> r.image is None)
            &&& (r.command matches Some(cmd) && cmd@ == joined(string_views(c.cmd@), " "@))
            &&& (r.environment matches Some(env) && env@ == indented_lines(string_views(c.env@)))
            &&& (r.labels matches Some(l) && l@ == label_lines(c.labels@))
        },
        host_config is None ==> r.volumes is None && r.network is None && r.ports is None && r.restart is None,
        host_config matches Some(h) ==> {
            &&& (r.volumes matches Some(v) && v@ == indented_lines(string_views(h.binds@)))
            &&& (r.network matches Some(n) ==> (h.network_mode matches Some(m) && n@ == m@))
            &&& (h.network_mode is None ==> r.network is None)
            &&& (h.network_mode is Some ==> r.network is Some)
            &&& (r.ports matches Some(p) && p@ == joined(port_lines(h.port_bindings@), "\n"@))
            &&& r.restart == match h.restart_policy {
                Some(p) => Some(restart_mode_spec(p)),
                None => None,
            }
        },
{
    let mut r = ImportedDeploymentConfig {
        server_id,
        image: None,
        command: None,
        environment: None,
        labels: None,
        volumes: None,
        network: None,
        ports: None,
        restart: None,
    };
    if let Some(c) = config {
        r.image = match c.image {
            Some(image) => Some(DeploymentImage::Image { image }),
            None => None,
        };
        r.command = Some(join_strings(&c.cmd, " "));
        r.environment = Some(indent_lines(&c.env));
        r.labels = Some(label_text(&c.labels));
    }
    if let Some(h) = host_config {
        r.volumes = Some(indent_lines(&h.binds));
        r.network = h.network_mode;
        r.ports = Some(port_text(&h.port_bindings));
        r.restart = match h.restart_policy {
            Some(p) => Some(restart_mode(p)),
            None => None,
        };
    }
    r
}

} // verus!
