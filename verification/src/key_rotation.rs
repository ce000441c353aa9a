//! Key rotation across servers: which servers are rotated, which are
//! skipped and why, and what the rotation log says of each.
use crate::monitor::ServerState;
use vstd::prelude::*;

verus! {

/// What a key rotation does with one server.
#[derive(Clone, Copy, Debug, PartialEq, Eq, Structural)]
pub enum RotationStep {
    /// The server's keys are rotated.
    Rotate,
    /// The server's configuration turns key rotation off.
    SkipRotationDisabled,
    /// Nothing is known of the server's state.
    SkipNoStatus,
    /// The server is disabled.
    SkipDisabled,
    /// The server cannot be reached.
    SkipNotOk,
}

/// What a rotation of server keys does with a server, given whether its
/// configuration allows rotation and its recorded state, if any.
pub open spec fn server_step_spec(auto_rotate_keys: bool, state: Option<ServerState>) -> RotationStep {
    if !auto_rotate_keys {
        RotationStep::SkipRotationDisabled
    } else {
        match state {
            None => RotationStep::SkipNoStatus,
            Some(ServerState::Disabled) => RotationStep::SkipDisabled,
            Some(ServerState::NotOk) => RotationStep::SkipNotOk,
            Some(ServerState::Online) => RotationStep::Rotate,
        }
    }
}

/// What a rotation of server keys does with a server.
pub fn server_key_rotation_step(auto_rotate_keys: bool, state: Option<ServerState>) -> (step: RotationStep)
    ensures
        step == server_step_spec(auto_rotate_keys, state),
{
    if !auto_rotate_keys {
        return RotationStep::SkipRotationDisabled;
    }
    match state {
        None => RotationStep::SkipNoStatus,
        Some(ServerState::Disabled) => RotationStep::SkipDisabled,
        Some(ServerState::NotOk) => RotationStep::SkipNotOk,
        Some(ServerState::Online) => RotationStep::Rotate,
    }
}

/// What a rotation of Core's key does with a server in this state
/// (a server without a recorded state counts as not ok).
pub open spec fn core_step_spec(state: ServerState) -> RotationStep {
    match state {
        ServerState::Disabled => RotationStep::SkipDisabled,
        ServerState::NotOk => RotationStep::SkipNotOk,
        ServerState::Online => RotationStep::Rotate,
    }
}

/// What a rotation of Core's key does with a server in this state.
pub fn core_key_rotation_step(state: ServerState) -> (step: RotationStep)
    ensures
        step == core_step_spec(state),
{
    match state {
        ServerState::Disabled => RotationStep::SkipDisabled,
        ServerState::NotOk => RotationStep::SkipNotOk,
        ServerState::Online => RotationStep::Rotate,
    }
}

/// The server that stops a rotation of Core's key: unless forced, the
/// first one that is not ok. The rotation does not start while there is
/// one.
pub fn core_rotation_blocker(force: bool, states: &Vec<ServerState>) -> (blocker: Option<usize>)
    ensures
        force ==> blocker is None,
        !force ==> match blocker {
            Some(i) => i < states@.len() && states@[i as int] == ServerState::NotOk && forall|j: int|
                0 <= j < i ==> #[trigger] states@[j] != ServerState::NotOk,
            None => forall|j: int| 0 <= j < states@.len() ==> #[trigger] states@[j] != ServerState::NotOk,
        },
{
    if force {
        return None;
    }
    let mut i: usize = 0;
    while i < states.len()
        invariant
            !force,
            i <= states.len(),
            forall|j: int| 0 <= j < i ==> #[trigger] states@[j] != ServerState::NotOk,
        decreases states.len() - i,
    {
        if states[i] == ServerState::NotOk {
            return Some(i);
        }
        i = i + 1;
    }
    None
}

/// The refusal of a rotation of Core's key stopped by the server `name`.
pub open spec fn core_rotation_blocked_spec(name: Seq<char>) -> Seq<char> {
    "Server "@ + name + " is NotOk, stopping key rotation. Pass `force: true` to continue anyways."@
}

/// The refusal of a rotation of Core's key stopped by the server `name`.
pub fn core_rotation_blocked_message(name: &str) -> (m: String)
    ensures
        m@ == core_rotation_blocked_spec(name@),
{
    "Server ".to_owned().concat(name).concat(" is NotOk, stopping key rotation. Pass `force: true` to continue anyways.")
}

/// Why a rotation of Core's key does not start: unless forced, the
/// refusal naming the first server that is not ok (`names[i]` naming the
/// server in state `states[i]`); `None` when the rotation goes ahead.
pub fn core_rotation_refusal(force: bool, states: &Vec<ServerState>, names: &Vec<String>) -> (refusal: Option<String>)
    requires
        names@.len() == states@.len(),
    ensures
        force ==> refusal is None,
        !force ==> match refusal {
            Some(m) => exists|i: int|
                0 <= i < states@.len() && states@[i] == ServerState::NotOk && (forall|j: int|
                    0 <= j < i ==> #[trigger] states@[j] != ServerState::NotOk) && m@ == core_rotation_blocked_spec(
                    #[trigger] names@[i]@,
                ),
            None => forall|j: int| 0 <= j < states@.len() ==> #[trigger] states@[j] != ServerState::NotOk,
        },
{
    match core_rotation_blocker(force, states) {
        Some(i) => {
            let m = core_rotation_blocked_message(names[i].as_str());
            assert(names@[i as int]@ == names[i as int]@);
            Some(m)
        },
        None => None,
    }
}

/// The refusal of a rotation of Core's key whose private key is not
/// kept in a file.
pub fn core_key_not_rotatable_message() -> (m: String)
    ensures
        m@ == "Core `private_key` must be pointing to file, for example 'file:/config/keys/core.key'"@,
{
    "Core `private_key` must be pointing to file, for example 'file:/config/keys/core.key'".to_owned()
}

/// The line a skipped server adds to the rotation log, `name` being the
/// server's name as the log shows it; empty for a rotated server.
pub open spec fn skip_line_spec(step: RotationStep, name: Seq<char>) -> Seq<char> {
    match step {
        RotationStep::Rotate => Seq::empty(),
        RotationStep::SkipRotationDisabled => "\nSkipping "@ + name + ": Key Rotation Disabled ⚙️"@,
        RotationStep::SkipNoStatus => "\nSkipping "@ + name + ": No Status ⚠️"@,
        RotationStep::SkipDisabled => "\nSkipping "@ + name + ": Server Disabled ⚙️"@,
        RotationStep::SkipNotOk => "\nSkipping "@ + name + ": Server Not Ok ⚠️"@,
    }
}

/// The line a skipped server adds to the rotation log.
pub fn skip_log_line(step: RotationStep, name: &str) -> (line: String)
    ensures
        line@ == skip_line_spec(step, name@),
{
    match step {
        RotationStep::Rotate => String::new(),
        RotationStep::SkipRotationDisabled => "\nSkipping ".to_owned().concat(name).concat(
            ": Key Rotation Disabled ⚙️",
        ),
        RotationStep::SkipNoStatus => "\nSkipping ".to_owned().concat(name).concat(": No Status ⚠️"),
        RotationStep::SkipDisabled => "\nSkipping ".to_owned().concat(name).concat(": Server Disabled ⚙️"),
        RotationStep::SkipNotOk => "\nSkipping ".to_owned().concat(name).concat(": Server Not Ok ⚠️"),
    }
}

/// The line a server whose keys were rotated adds to the log of a
/// rotation of server keys.
pub fn server_rotated_line(name: &str) -> (line: String)
    ensures
        line@ == "\nRotated keys for "@ + name@ + " ✅"@,
{
    "\nRotated keys for ".to_owned().concat(name).concat(" ✅")
}

/// The line a server that took Core's new key adds to the log of a
/// rotation of Core's key.
pub fn core_rotated_line(name: &str) -> (line: String)
    ensures
        line@ == "\nRotated key for "@ + name@ + " ✅"@,
{
    "\nRotated key for ".to_owned().concat(name).concat(" ✅")
}

// ---------------------------------------------------------------------
// Laws
// ---------------------------------------------------------------------

/// Only a server that allows rotation and is known to be online has its
/// keys rotated.
pub proof fn law_rotate_only_online(auto_rotate_keys: bool, state: Option<ServerState>)
    ensures
        server_step_spec(auto_rotate_keys, state) == RotationStep::Rotate <==> (auto_rotate_keys && state
            == Some(ServerState::Online)),
{
}

/// Unless forced, Core's key is rotated only when no server is not ok,
/// so the rotation then reaches every server that is not disabled.
pub proof fn law_unforced_core_rotation_reaches_all(states: Seq<ServerState>, i: int)
    requires
        forall|j: int| 0 <= j < states.len() ==> #[trigger] states[j] != ServerState::NotOk,
        0 <= i < states.len(),
        states[i] != ServerState::Disabled,
    ensures
        core_step_spec(states[i]) == RotationStep::Rotate,
{
}

/// Rotating Core's key reaches exactly the servers that are online; a
/// disabled server is skipped as disabled and one that is not ok as not
/// ok.
pub proof fn law_core_rotation_reaches_online(state: ServerState)
    ensures
        core_step_spec(state) == RotationStep::Rotate <==> state == ServerState::Online,
        state == ServerState::Disabled ==> core_step_spec(state) == RotationStep::SkipDisabled,
        state == ServerState::NotOk ==> core_step_spec(state) == RotationStep::SkipNotOk,
{
}

/// A server whose configuration turns rotation off is skipped for that
/// reason whatever its state; otherwise a server without a recorded
/// state is skipped for that, and the skip names the state.
pub proof fn law_server_rotation_skip_reasons(auto_rotate_keys: bool, state: Option<ServerState>)
    ensures
        !auto_rotate_keys ==> server_step_spec(auto_rotate_keys, state) == RotationStep::SkipRotationDisabled,
        auto_rotate_keys && state is None ==> server_step_spec(auto_rotate_keys, state) == RotationStep::SkipNoStatus,
        auto_rotate_keys && state == Some(ServerState::Disabled) ==> server_step_spec(auto_rotate_keys, state)
            == RotationStep::SkipDisabled,
        auto_rotate_keys && state == Some(ServerState::NotOk) ==> server_step_spec(auto_rotate_keys, state)
            == RotationStep::SkipNotOk,
{
}

} // verus!
