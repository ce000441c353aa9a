//! Rules of the executions on a deployment: which run only on a
//! server's container, how a stop or destroy is parameterised, and
//! when a rename reaches the container.
use crate::deployment::DeploymentState;
use vstd::prelude::*;

verus! {

/// Where a deployment runs.
#[derive(Clone, Copy, Debug, PartialEq, Eq, Structural)]
pub enum Placement {
    /// Neither a swarm nor a server is configured.
    NoTarget,
    /// As a service of a swarm.
    Swarm,
    /// As a container on a server.
    Server,
}

/// The executions that act on a deployment's container.
#[derive(Clone, Copy, Debug, PartialEq, Eq, Structural)]
pub enum ContainerAction {
    Pull,
    Start,
    Restart,
    Pause,
    Unpause,
    Stop,
}

impl ContainerAction {
    /// The name of the request.
    pub open spec fn spec_request_name(self) -> Seq<char> {
        match self {
            ContainerAction::Pull => "PullDeployment"@,
            ContainerAction::Start => "StartDeployment"@,
            ContainerAction::Restart => "RestartDeployment"@,
            ContainerAction::Pause => "PauseDeployment"@,
            ContainerAction::Unpause => "UnpauseDeployment"@,
            ContainerAction::Stop => "StopDeployment"@,
        }
    }

    /// The name of the request.
    pub fn request_name(&self) -> (s: &'static str)
        ensures
            s@ == self.spec_request_name(),
    {
        match self {
            ContainerAction::Pull => "PullDeployment",
            ContainerAction::Start => "StartDeployment",
            ContainerAction::Restart => "RestartDeployment",
            ContainerAction::Pause => "PauseDeployment",
            ContainerAction::Unpause => "UnpauseDeployment",
            ContainerAction::Stop => "StopDeployment",
        }
    }
}

/// A container action runs only on a deployment placed on a server;
/// otherwise it is refused as a request not meant for swarm mode.
pub fn check_container_action(action: ContainerAction, placement: Placement) -> (r: Result<(), String>)
    ensures
        placement == Placement::Server ==> r is Ok,
        placement != Placement::Server ==> (r matches Err(e) && e@ == action.spec_request_name()
            + " should not be called for Deployment in Swarm Mode"@),
{
    if placement == Placement::Server {
        Ok(())
    } else {
        Err(action.request_name().to_owned().concat(" should not be called for Deployment in Swarm Mode"))
    }
}

/// The signal and grace time of a stop or destroy: those the request
/// gives, else the deployment's configured ones.
pub fn termination_settings<S: Copy>(
    requested_signal: Option<S>,
    requested_time: Option<i32>,
    configured_signal: S,
    configured_time: i32,
) -> (r: (S, i32))
    ensures
        r.0 == match requested_signal {
            Some(s) => s,
            None => configured_signal,
        },
        r.1 == match requested_time {
            Some(t) => t,
            None => configured_time,
        },
{
    let signal = match requested_signal {
        Some(s) => s,
        None => configured_signal,
    };
    let time = match requested_time {
        Some(t) => t,
        None => configured_time,
    };
    (signal, time)
}

/// Why a deployment cannot be renamed.
#[derive(Clone, Copy, Debug, PartialEq, Eq, Structural)]
pub enum RenameError {
    /// The container's state is unknown.
    StateUnknown,
}

impl RenameError {
    /// The message of the refusal.
    pub fn message(&self) -> (m: &'static str)
        ensures
            m@ == "Cannot rename Deployment when container status is unknown"@,
    {
        "Cannot rename Deployment when container status is unknown"
    }
}

/// Whether renaming a deployment also renames its container: refused
/// while the container's state is unknown, and the container is renamed
/// unless nothing is deployed.
pub fn rename_reaches_container(state: DeploymentState) -> (r: Result<bool, RenameError>)
    ensures
        state == DeploymentState::Unknown ==> r == Err::<bool, RenameError>(RenameError::StateUnknown),
        state != DeploymentState::Unknown ==> r == Ok::<bool, RenameError>(state != DeploymentState::NotDeployed),
{
    if state == DeploymentState::Unknown {
        Err(RenameError::StateUnknown)
    } else {
        Ok(state != DeploymentState::NotDeployed)
    }
}

} // verus!
