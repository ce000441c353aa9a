use komodo_core::connection::{PeripheryConnectionArgs, ServerConnectionConfig};
use komodo_core::key_rotation::{core_key_not_rotatable_message, core_rotation_blocked_message, core_rotation_refusal};
use komodo_core::monitor::ServerState;
use komodo_core::swarm_request::{swarm_request_failure, SwarmRequestError, SwarmRequestState};

fn s(x: &str) -> String {
    x.to_string()
}

#[test]
fn swarm_request_failure_messages() {
    let unknown = swarm_request_failure(SwarmRequestState { last_error: None });
    assert_eq!(unknown.message(), "Failed to request from Swarm: Unknown error");
    assert_eq!(
        SwarmRequestError::NoManagersConnected.message(),
        "Failed to request from Swarm: No managers connected"
    );
    assert_eq!(SwarmRequestError::Failed(s("timeout")).message(), "Failed to request from Swarm: timeout");
}

#[test]
fn core_rotation_refusals() {
    let states = vec![ServerState::Online, ServerState::NotOk, ServerState::NotOk];
    let names = vec![s("a"), s("b"), s("c")];
    assert_eq!(
        core_rotation_refusal(false, &states, &names),
        Some(s("Server b is NotOk, stopping key rotation. Pass `force: true` to continue anyways."))
    );
    assert_eq!(core_rotation_refusal(true, &states, &names), None);
    assert_eq!(core_rotation_refusal(false, &vec![ServerState::Online], &vec![s("a")]), None);
    assert_eq!(
        core_rotation_blocked_message("x"),
        "Server x is NotOk, stopping key rotation. Pass `force: true` to continue anyways."
    );
    assert_eq!(
        core_key_not_rotatable_message(),
        "Core `private_key` must be pointing to file, for example 'file:/config/keys/core.key'"
    );
}

#[test]
fn connection_args_accessors() {
    let config = ServerConnectionConfig { id: s("srv"), address: s("https://p:8120"), public_key: s(""), passkey: s("") };
    let args = PeripheryConnectionArgs::from_server(&config);
    assert_eq!(args.id(), "srv");
    assert_eq!(args.address(), Some("https://p:8120"));
}
