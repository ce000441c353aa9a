//! The command line's handling of an execution: which API call it
//! becomes, and where the resulting update is shown.
use crate::procedure::ExecutionKind;
use vstd::prelude::*;

verus! {

/// How the command line runs an execution.
#[derive(Clone, Copy, Debug, PartialEq, Eq, Structural)]
pub enum CliRoute {
    /// The empty execution: nothing is run.
    DoNothing,
    /// A pause of the given length; nothing is sent.
    Sleep,
    /// Sent as a write request (committing a sync).
    Write,
    /// Sent as an execute request; one update is polled.
    Execute,
    /// Sent as an execute request on many resources; each update is polled.
    Batch,
}

/// Whether an execution runs on many resources at once.
pub open spec fn is_batch(kind: ExecutionKind) -> bool {
    matches!(
        kind,
        ExecutionKind::BatchRunProcedure | ExecutionKind::BatchRunAction | ExecutionKind::BatchRunBuild
            | ExecutionKind::BatchDeploy | ExecutionKind::BatchDestroyDeployment | ExecutionKind::BatchCloneRepo
            | ExecutionKind::BatchPullRepo | ExecutionKind::BatchBuildRepo | ExecutionKind::BatchDeployStack
            | ExecutionKind::BatchDeployStackIfChanged | ExecutionKind::BatchPullStack
            | ExecutionKind::BatchDestroyStack
    )
}

/// How the command line runs an execution of this kind.
pub open spec fn cli_route_spec(kind: ExecutionKind) -> CliRoute {
    if kind == ExecutionKind::NoExecution {
        CliRoute::DoNothing
    } else if kind == ExecutionKind::Sleep {
        CliRoute::Sleep
    } else if kind == ExecutionKind::CommitSync {
        CliRoute::Write
    } else if is_batch(kind) {
        CliRoute::Batch
    } else {
        CliRoute::Execute
    }
}

/// How the command line runs an execution of this kind.
pub fn cli_route(kind: ExecutionKind) -> (route: CliRoute)
    ensures
        route == cli_route_spec(kind),
{
    match kind {
        ExecutionKind::NoExecution => CliRoute::DoNothing,
        ExecutionKind::Sleep => CliRoute::Sleep,
        ExecutionKind::CommitSync => CliRoute::Write,
        ExecutionKind::BatchRunProcedure | ExecutionKind::BatchRunAction | ExecutionKind::BatchRunBuild
        | ExecutionKind::BatchDeploy | ExecutionKind::BatchDestroyDeployment | ExecutionKind::BatchCloneRepo
        | ExecutionKind::BatchPullRepo | ExecutionKind::BatchBuildRepo | ExecutionKind::BatchDeployStack
        | ExecutionKind::BatchDeployStackIfChanged | ExecutionKind::BatchPullStack
        | ExecutionKind::BatchDestroyStack => CliRoute::Batch,
        _ => CliRoute::Execute,
    }
}

/// Where the command line points for an update while polling it: the
/// update's own page, `{host}/updates/{id}`, once it has an id; without
/// one, the page of its resource (`None` here).
pub fn update_page(host: &str, update_id: &str) -> (link: Option<String>)
    ensures
        update_id@.len() == 0 ==> link is None,
        update_id@.len() != 0 ==> (link matches Some(l) && l@ == host@ + "/updates/"@ + update_id@),
{
    if update_id.unicode_len() == 0 {
        None
    } else {
        Some(host.to_owned().concat("/updates/").concat(update_id))
    }
}

/// The command line sends batch executions as batch requests, exactly
/// those a procedure may only hold for admins as batches; a sync commit
/// as a write; waiting and nothing are not sent; every other execution
/// is sent as one execute request.
pub proof fn law_cli_routes_batches_as_batches(kind: ExecutionKind)
    ensures
        cli_route_spec(kind) == CliRoute::Batch <==> crate::procedure::is_batch_execution(kind),
        cli_route_spec(kind) == CliRoute::Write <==> kind == ExecutionKind::CommitSync,
        cli_route_spec(kind) == CliRoute::Sleep <==> kind == ExecutionKind::Sleep,
        cli_route_spec(kind) == CliRoute::DoNothing <==> kind == ExecutionKind::NoExecution,
{
}

} // verus!
