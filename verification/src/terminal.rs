//! Terminals: their default names, and how the terminals found on
//! servers are listed for a user.
use crate::alerts::{name_of, lookup_name};
use crate::connection::str_eq;
use vstd::prelude::*;

verus! {

/// How a terminal in a container runs.
#[derive(Clone, Copy, Debug, PartialEq, Eq, Hash, Structural)]
pub enum ContainerTerminalMode {
    /// A new process in the container.
    Exec,
    /// Attached to the container's main process.
    Attach,
}

impl ContainerTerminalMode {
    /// The name of the mode.
    pub open spec fn spec_name(self) -> Seq<char> {
        match self {
            ContainerTerminalMode::Exec => "exec"@,
            ContainerTerminalMode::Attach => "attach"@,
        }
    }

    /// The name of the mode.
    pub fn name(&self) -> (s: String)
        ensures
            s@ == self.spec_name(),
    {
        match self {
            ContainerTerminalMode::Exec => {
                "exec".to_owned()
            },
            ContainerTerminalMode::Attach => {
                "attach".to_owned()
            },
        }
    }
}

/// How a new terminal is created.
#[derive(Debug)]
pub struct InitTerminal {
    pub command: Option<String>,
    pub mode: Option<ContainerTerminalMode>,
}

/// The name of a server terminal: the given one, else the initial
/// command, else `term`.
pub open spec fn server_terminal_name_spec(terminal: Option<String>, init: Option<InitTerminal>) -> Seq<char> {
    match terminal {
        Some(t) => t@,
        None => match init {
            Some(InitTerminal { command: Some(c), .. }) => c@,
            _ => "term"@,
        },
    }
}

/// The name of a server terminal.
pub fn server_terminal_name(terminal: Option<String>, init: &Option<InitTerminal>) -> (name: String)
    ensures
        name@ == server_terminal_name_spec(terminal, *init),
{
    match terminal {
        Some(t) => t,
        None => match init {
            Some(InitTerminal { command: Some(c), .. }) => c.clone(),
            _ => {
                "term".to_owned()
            },
        },
    }
}

/// The name of a container terminal: the given one; else, with
/// initial settings, the initial command or else the mode's name
/// (`exec` by default); else the container's name.
pub open spec fn container_terminal_name_spec(
    terminal: Option<String>,
    container: Seq<char>,
    init: Option<InitTerminal>,
) -> Seq<char> {
    match terminal {
        Some(t) => t@,
        None => match init {
            Some(init) => match init.command {
                Some(c) => c@,
                None => match init.mode {
                    Some(m) => m.spec_name(),
                    None => ContainerTerminalMode::Exec.spec_name(),
                },
            },
            None => container,
        },
    }
}

/// The name of a container terminal.
pub fn default_container_terminal_name(terminal: Option<String>, container: &str, init: &Option<InitTerminal>) -> (name:
    String)
    ensures
        name@ == container_terminal_name_spec(terminal, container@, *init),
{
    match terminal {
        Some(t) => t,
        None => match init {
            Some(init) => match &init.command {
                Some(c) => c.clone(),
                None => match init.mode {
                    Some(m) => m.name(),
                    None => ContainerTerminalMode::Exec.name(),
                },
            },
            None => container.to_owned(),
        },
    }
}

/// What a terminal runs in.
#[allow(inconsistent_fields)]
#[derive(Debug)]
pub enum TerminalTarget {
    Server { server: Option<String> },
    Container { server: String, container: String },
    Stack { stack: String, service: Option<String> },
    Deployment { deployment: String },
}

/// A terminal found on a server.
#[derive(Debug)]
pub struct Terminal {
    pub name: String,
    pub target: TerminalTarget,
    pub command: String,
}

/// A terminal as listed for a user, or `None` when the user may not
/// see it. Server and container terminals need permission on the
/// server; stack and deployment terminals need the stack or deployment
/// among those the user may see. Targets are named by name or by id.
pub open spec fn relabeled_terminal(
    terminal: Terminal,
    server_id: String,
    server_name: String,
    server_permission: bool,
    stacks: Seq<(String, String)>,
    deployments: Seq<(String, String)>,
    use_names: bool,
) -> Option<Terminal> {
    let label = if use_names {
        server_name
    } else {
        server_id
    };
    match terminal.target {
        TerminalTarget::Server { .. } => if server_permission {
            Some(Terminal { target: TerminalTarget::Server { server: Some(label) }, ..terminal })
        } else {
            None
        },
        TerminalTarget::Container { container, .. } => if server_permission {
            Some(Terminal { target: TerminalTarget::Container { server: label, container }, ..terminal })
        } else {
            None
        },
        TerminalTarget::Stack { stack, service } => match name_of(stacks, stack@) {
            Some(name) => Some(
                Terminal {
                    target: TerminalTarget::Stack {
                        stack: if use_names {
                            name
                        } else {
                            stack
                        },
                        service,
                    },
                    ..terminal
                },
            ),
            None => None,
        },
        TerminalTarget::Deployment { deployment } => match name_of(deployments, deployment@) {
            Some(name) => Some(
                Terminal {
                    target: TerminalTarget::Deployment {
                        deployment: if use_names {
                            name
                        } else {
                            deployment
                        },
                    },
                    ..terminal
                },
            ),
            None => None,
        },
    }
}

/// A terminal as listed for a user (see [relabeled_terminal]).
pub fn relabel_terminal(
    terminal: Terminal,
    server_id: &String,
    server_name: &String,
    server_permission: bool,
    stacks: &Vec<(String, String)>,
    deployments: &Vec<(String, String)>,
    use_names: bool,
) -> (listed: Option<Terminal>)
    ensures
        listed == relabeled_terminal(
            terminal,
            *server_id,
            *server_name,
            server_permission,
            stacks@,
            deployments@,
            use_names,
        ),
{
    let label = if use_names {
        server_name.clone()
    } else {
        server_id.clone()
    };
    match terminal.target {
        TerminalTarget::Server { .. } => {
            if server_permission {
                Some(
                    Terminal {
                        name: terminal.name,
                        target: TerminalTarget::Server { server: Some(label) },
                        command: terminal.command,
                    },
                )
            } else {
                None
            }
        },
        TerminalTarget::Container { container, .. } => {
            if server_permission {
                Some(
                    Terminal {
                        name: terminal.name,
                        target: TerminalTarget::Container { server: label, container },
                        command: terminal.command,
                    },
                )
            } else {
                None
            }
        },
        TerminalTarget::Stack { stack, service } => match lookup_name(stacks, stack.as_str()) {
            Some(name) => {
                let stack = if use_names {
                    name
                } else {
                    stack
                };
                Some(
                    Terminal {
                        name: terminal.name,
                        target: TerminalTarget::Stack { stack, service },
                        command: terminal.command,
                    },
                )
            },
            None => None,
        },
        TerminalTarget::Deployment { deployment } => match lookup_name(deployments, deployment.as_str()) {
            Some(name) => {
                let deployment = if use_names {
                    name
                } else {
                    deployment
                };
                Some(
                    Terminal {
                        name: terminal.name,
                        target: TerminalTarget::Deployment { deployment },
                        command: terminal.command,
                    },
                )
            },
            None => None,
        },
    }
}

/// The server ids after adding, in order, each non-empty id of `ids`
/// that is not yet present.
pub open spec fn add_missing(known: Seq<Seq<char>>, ids: Seq<String>) -> Seq<Seq<char>>
    decreases ids.len(),
{
    if ids.len() == 0 {
        known
    } else {
        let before = add_missing(known, ids.drop_last());
        let id = ids.last()@;
        if id.len() == 0 || before.contains(id) {
            before
        } else {
            before.push(id)
        }
    }
}

/// The values of a list of strings.
pub open spec fn strings_view(s: Seq<String>) -> Seq<Seq<char>> {
    s.map_values(|x: String| x@)
}

/// Whether `id` is in `list`.
fn contains_id(list: &Vec<String>, id: &str) -> (found: bool)
    ensures
        found == strings_view(list@).contains(id@),
{
    let mut i: usize = 0;
    while i < list.len()
        invariant
            i <= list.len(),
            forall|j: int| 0 <= j < i ==> list@[j]@ != id@,
        decreases list.len() - i,
    {
        if str_eq(list[i].as_str(), id) {
            proof {
                assert(strings_view(list@)[i as int] == id@);
            }
            return true;
        }
        i = i + 1;
    }
    proof {
        if strings_view(list@).contains(id@) {
            let j = choose|j: int| 0 <= j < strings_view(list@).len() && strings_view(list@)[j] == id@;
            assert(list@[j]@ == id@);
        }
    }
    false
}

/// Adds to `servers` each server of `ids` that is not yet listed.
fn add_missing_servers(servers: &mut Vec<String>, ids: &Vec<String>)
    ensures
        strings_view(final(servers)@) == add_missing(strings_view(old(servers)@), ids@),
{
    let ghost start = strings_view(servers@);
    let mut i: usize = 0;
    while i < ids.len()
        invariant
            i <= ids.len(),
            strings_view(servers@) == add_missing(start, ids@.take(i as int)),
        decreases ids.len() - i,
    {
        assert(ids@.take(i + 1).drop_last() =~= ids@.take(i as int));
        assert(ids@.take(i + 1).last() == ids@[i as int]);
        let id = &ids[i];
        if id.as_str().unicode_len() != 0 && !contains_id(servers, id.as_str()) {
            let ghost before = strings_view(servers@);
            servers.push(id.clone());
            assert(strings_view(servers@) =~= before.push(id@));
        }
        i = i + 1;
    }
    assert(ids@.take(ids.len() as int) =~= ids@);
}

/// The servers whose terminals are listed: those the user has
/// permission on, then, in order, the servers of the user's stacks and
/// then deployments that are not among them (without permission on
/// the server itself). Returns all server ids, known ones first.
pub fn servers_to_query(
    permitted: &Vec<String>,
    stack_servers: &Vec<String>,
    deployment_servers: &Vec<String>,
) -> (servers: Vec<String>)
    ensures
        strings_view(servers@) == add_missing(
            add_missing(strings_view(permitted@), stack_servers@),
            deployment_servers@,
        ),
{
    let mut servers: Vec<String> = Vec::new();
    let mut i: usize = 0;
    while i < permitted.len()
        invariant
            i <= permitted.len(),
            strings_view(servers@) == strings_view(permitted@).take(i as int),
        decreases permitted.len() - i,
    {
        let ghost before = strings_view(servers@);
        let id = permitted[i].clone();
        assert(id@ == strings_view(permitted@)[i as int]);
        servers.push(id);
        assert(strings_view(servers@) =~= before.push(id@));
        assert(strings_view(permitted@).take(i + 1) =~= strings_view(permitted@).take(i as int).push(
            strings_view(permitted@)[i as int],
        ));
        assert(strings_view(servers@) =~= strings_view(permitted@).take(i + 1));
        i = i + 1;
    }
    assert(strings_view(permitted@).take(permitted.len() as int) =~= strings_view(permitted@));
    add_missing_servers(&mut servers, stack_servers);
    add_missing_servers(&mut servers, deployment_servers);
    servers
}

} // verus!
