//! The checks made when a procedure's stages are configured: which
//! permission each execution needs, who may configure it at all, and
//! the walk that checks every execution and makes it name its resources
//! by id; and the state a procedure is listed with.
use crate::permission::PermissionLevel;
use crate::target::ResourceTargetVariant;
use vstd::prelude::*;

verus! {

/// What configuring one execution requires.
#[derive(Clone, Copy, Debug, PartialEq, Eq, Structural)]
pub enum ExecutionCheck {
    /// The user needs `level` on the resource the execution names, of
    /// kind `variant`; the execution then names the resource by its id.
    Permission { variant: ResourceTargetVariant, level: PermissionLevel },
    /// Only admins may configure the execution.
    AdminOnly { reason: AdminOnlyReason },
    /// The user needs `Execute` on the procedure run, which must not be
    /// the procedure being configured.
    Procedure,
    /// The user needs `Execute` on each alerter.
    Alerters,
    /// Nothing is required.
    Nothing,
}

/// The kinds of procedure stage executions.
#[derive(Clone, Copy, Debug, PartialEq, Eq, Hash, Structural)]
pub enum ExecutionKind {
    RunAction,
    RunBuild,
    CancelBuild,
    Deploy,
    PullDeployment,
    StartDeployment,
    RestartDeployment,
    PauseDeployment,
    UnpauseDeployment,
    StopDeployment,
    DestroyDeployment,
    CloneRepo,
    PullRepo,
    BuildRepo,
    CancelRepoBuild,
    StartContainer,
    RestartContainer,
    PauseContainer,
    UnpauseContainer,
    StopContainer,
    DestroyContainer,
    StartAllContainers,
    RestartAllContainers,
    PauseAllContainers,
    UnpauseAllContainers,
    StopAllContainers,
    PruneContainers,
    DeleteNetwork,
    PruneNetworks,
    DeleteImage,
    PruneImages,
    DeleteVolume,
    PruneVolumes,
    PruneDockerBuilders,
    PruneBuildx,
    PruneSystem,
    RunSync,
    DeployStack,
    DeployStackIfChanged,
    PullStack,
    StartStack,
    RestartStack,
    PauseStack,
    UnpauseStack,
    StopStack,
    DestroyStack,
    RunStackService,
    TestAlerter,
    RemoveSwarmNodes,
    UpdateSwarmNode,
    RemoveSwarmStacks,
    RemoveSwarmServices,
    CreateSwarmConfig,
    RotateSwarmConfig,
    RemoveSwarmConfigs,
    CreateSwarmSecret,
    RotateSwarmSecret,
    RemoveSwarmSecrets,
    BatchRunProcedure,
    BatchRunAction,
    BatchRunBuild,
    BatchDeploy,
    BatchDestroyDeployment,
    BatchCloneRepo,
    BatchPullRepo,
    BatchBuildRepo,
    BatchDeployStack,
    BatchDeployStackIfChanged,
    BatchPullStack,
    BatchDestroyStack,
    ClearRepoCache,
    BackupCoreDatabase,
    GlobalAutoUpdate,
    RotateAllServerKeys,
    RotateCoreKeys,
    RunProcedure,
    CommitSync,
    SendAlert,
    NoExecution,
    Sleep,
}

/// What configuring an execution in a procedure requires: `Execute`
/// on the resource it runs on (`Write` on the sync it commits), being
/// an admin for batch and system-wide executions, `Execute` on another
/// procedure that is not the procedure itself, or `Execute` on each
/// alerter an alert goes to. Waiting and doing nothing need nothing.
pub open spec fn execution_check_spec(kind: ExecutionKind) -> ExecutionCheck {
    match kind {
        ExecutionKind::RunAction => ExecutionCheck::Permission { variant: ResourceTargetVariant::Action, level: PermissionLevel::Execute },
        ExecutionKind::RunBuild => ExecutionCheck::Permission { variant: ResourceTargetVariant::Build, level: PermissionLevel::Execute },
        ExecutionKind::CancelBuild => ExecutionCheck::Permission { variant: ResourceTargetVariant::Build, level: PermissionLevel::Execute },
        ExecutionKind::Deploy => ExecutionCheck::Permission { variant: ResourceTargetVariant::Deployment, level: PermissionLevel::Execute },
        ExecutionKind::PullDeployment => ExecutionCheck::Permission { variant: ResourceTargetVariant::Deployment, level: PermissionLevel::Execute },
        ExecutionKind::StartDeployment => ExecutionCheck::Permission { variant: ResourceTargetVariant::Deployment, level: PermissionLevel::Execute },
        ExecutionKind::RestartDeployment => ExecutionCheck::Permission { variant: ResourceTargetVariant::Deployment, level: PermissionLevel::Execute },
        ExecutionKind::PauseDeployment => ExecutionCheck::Permission { variant: ResourceTargetVariant::Deployment, level: PermissionLevel::Execute },
        ExecutionKind::UnpauseDeployment => ExecutionCheck::Permission { variant: ResourceTargetVariant::Deployment, level: PermissionLevel::Execute },
        ExecutionKind::StopDeployment => ExecutionCheck::Permission { variant: ResourceTargetVariant::Deployment, level: PermissionLevel::Execute },
        ExecutionKind::DestroyDeployment => ExecutionCheck::Permission { variant: ResourceTargetVariant::Deployment, level: PermissionLevel::Execute },
        ExecutionKind::CloneRepo => ExecutionCheck::Permission { variant: ResourceTargetVariant::Repo, level: PermissionLevel::Execute },
        ExecutionKind::PullRepo => ExecutionCheck::Permission { variant: ResourceTargetVariant::Repo, level: PermissionLevel::Execute },
        ExecutionKind::BuildRepo => ExecutionCheck::Permission { variant: ResourceTargetVariant::Repo, level: PermissionLevel::Execute },
        ExecutionKind::CancelRepoBuild => ExecutionCheck::Permission { variant: ResourceTargetVariant::Repo, level: PermissionLevel::Execute },
        ExecutionKind::StartContainer => ExecutionCheck::Permission { variant: ResourceTargetVariant::Server, level: PermissionLevel::Execute },
        ExecutionKind::RestartContainer => ExecutionCheck::Permission { variant: ResourceTargetVariant::Server, level: PermissionLevel::Execute },
        ExecutionKind::PauseContainer => ExecutionCheck::Permission { variant: ResourceTargetVariant::Server, level: PermissionLevel::Execute },
        ExecutionKind::UnpauseContainer => ExecutionCheck::Permission { variant: ResourceTargetVariant::Server, level: PermissionLevel::Execute },
        ExecutionKind::StopContainer => ExecutionCheck::Permission { variant: ResourceTargetVariant::Server, level: PermissionLevel::Execute },
        ExecutionKind::DestroyContainer => ExecutionCheck::Permission { variant: ResourceTargetVariant::Server, level: PermissionLevel::Execute },
        ExecutionKind::StartAllContainers => ExecutionCheck::Permission { variant: ResourceTargetVariant::Server, level: PermissionLevel::Execute },
        ExecutionKind::RestartAllContainers => ExecutionCheck::Permission { variant: ResourceTargetVariant::Server, level: PermissionLevel::Execute },
        ExecutionKind::PauseAllContainers => ExecutionCheck::Permission { variant: ResourceTargetVariant::Server, level: PermissionLevel::Execute },
        ExecutionKind::UnpauseAllContainers => ExecutionCheck::Permission { variant: ResourceTargetVariant::Server, level: PermissionLevel::Execute },
        ExecutionKind::StopAllContainers => ExecutionCheck::Permission { variant: ResourceTargetVariant::Server, level: PermissionLevel::Execute },
        ExecutionKind::PruneContainers => ExecutionCheck::Permission { variant: ResourceTargetVariant::Server, level: PermissionLevel::Execute },
        ExecutionKind::DeleteNetwork => ExecutionCheck::Permission { variant: ResourceTargetVariant::Server, level: PermissionLevel::Execute },
        ExecutionKind::PruneNetworks => ExecutionCheck::Permission { variant: ResourceTargetVariant::Server, level: PermissionLevel::Execute },
        ExecutionKind::DeleteImage => ExecutionCheck::Permission { variant: ResourceTargetVariant::Server, level: PermissionLevel::Execute },
        ExecutionKind::PruneImages => ExecutionCheck::Permission { variant: ResourceTargetVariant::Server, level: PermissionLevel::Execute },
        ExecutionKind::DeleteVolume => ExecutionCheck::Permission { variant: ResourceTargetVariant::Server, level: PermissionLevel::Execute },
        ExecutionKind::PruneVolumes => ExecutionCheck::Permission { variant: ResourceTargetVariant::Server, level: PermissionLevel::Execute },
        ExecutionKind::PruneDockerBuilders => ExecutionCheck::Permission { variant: ResourceTargetVariant::Server, level: PermissionLevel::Execute },
        ExecutionKind::PruneBuildx => ExecutionCheck::Permission { variant: ResourceTargetVariant::Server, level: PermissionLevel::Execute },
        ExecutionKind::PruneSystem => ExecutionCheck::Permission { variant: ResourceTargetVariant::Server, level: PermissionLevel::Execute },
        ExecutionKind::RunSync => ExecutionCheck::Permission { variant: ResourceTargetVariant::ResourceSync, level: PermissionLevel::Execute },
        ExecutionKind::DeployStack => ExecutionCheck::Permission { variant: ResourceTargetVariant::Stack, level: PermissionLevel::Execute },
        ExecutionKind::DeployStackIfChanged => ExecutionCheck::Permission { variant: ResourceTargetVariant::Stack, level: PermissionLevel::Execute },
        ExecutionKind::PullStack => ExecutionCheck::Permission { variant: ResourceTargetVariant::Stack, level: PermissionLevel::Execute },
        ExecutionKind::StartStack => ExecutionCheck::Permission { variant: ResourceTargetVariant::Stack, level: PermissionLevel::Execute },
        ExecutionKind::RestartStack => ExecutionCheck::Permission { variant: ResourceTargetVariant::Stack, level: PermissionLevel::Execute },
        ExecutionKind::PauseStack => ExecutionCheck::Permission { variant: ResourceTargetVariant::Stack, level: PermissionLevel::Execute },
        ExecutionKind::UnpauseStack => ExecutionCheck::Permission { variant: ResourceTargetVariant::Stack, level: PermissionLevel::Execute },
        ExecutionKind::StopStack => ExecutionCheck::Permission { variant: ResourceTargetVariant::Stack, level: PermissionLevel::Execute },
        ExecutionKind::DestroyStack => ExecutionCheck::Permission { variant: ResourceTargetVariant::Stack, level: PermissionLevel::Execute },
        ExecutionKind::RunStackService => ExecutionCheck::Permission { variant: ResourceTargetVariant::Stack, level: PermissionLevel::Execute },
        ExecutionKind::TestAlerter => ExecutionCheck::Permission { variant: ResourceTargetVariant::Alerter, level: PermissionLevel::Execute },
        ExecutionKind::RemoveSwarmNodes => ExecutionCheck::Permission { variant: ResourceTargetVariant::Swarm, level: PermissionLevel::Execute },
        ExecutionKind::UpdateSwarmNode => ExecutionCheck::Permission { variant: ResourceTargetVariant::Swarm, level: PermissionLevel::Execute },
        ExecutionKind::RemoveSwarmStacks => ExecutionCheck::Permission { variant: ResourceTargetVariant::Swarm, level: PermissionLevel::Execute },
        ExecutionKind::RemoveSwarmServices => ExecutionCheck::Permission { variant: ResourceTargetVariant::Swarm, level: PermissionLevel::Execute },
        ExecutionKind::CreateSwarmConfig => ExecutionCheck::Permission { variant: ResourceTargetVariant::Swarm, level: PermissionLevel::Execute },
        ExecutionKind::RotateSwarmConfig => ExecutionCheck::Permission { variant: ResourceTargetVariant::Swarm, level: PermissionLevel::Execute },
        ExecutionKind::RemoveSwarmConfigs => ExecutionCheck::Permission { variant: ResourceTargetVariant::Swarm, level: PermissionLevel::Execute },
        ExecutionKind::CreateSwarmSecret => ExecutionCheck::Permission { variant: ResourceTargetVariant::Swarm, level: PermissionLevel::Execute },
        ExecutionKind::RotateSwarmSecret => ExecutionCheck::Permission { variant: ResourceTargetVariant::Swarm, level: PermissionLevel::Execute },
        ExecutionKind::RemoveSwarmSecrets => ExecutionCheck::Permission { variant: ResourceTargetVariant::Swarm, level: PermissionLevel::Execute },
        ExecutionKind::BatchRunProcedure => ExecutionCheck::AdminOnly { reason: AdminOnlyReason::Batch },
        ExecutionKind::BatchRunAction => ExecutionCheck::AdminOnly { reason: AdminOnlyReason::Batch },
        ExecutionKind::BatchRunBuild => ExecutionCheck::AdminOnly { reason: AdminOnlyReason::Batch },
        ExecutionKind::BatchDeploy => ExecutionCheck::AdminOnly { reason: AdminOnlyReason::Batch },
        ExecutionKind::BatchDestroyDeployment => ExecutionCheck::AdminOnly { reason: AdminOnlyReason::Batch },
        ExecutionKind::BatchCloneRepo => ExecutionCheck::AdminOnly { reason: AdminOnlyReason::Batch },
        ExecutionKind::BatchPullRepo => ExecutionCheck::AdminOnly { reason: AdminOnlyReason::Batch },
        ExecutionKind::BatchBuildRepo => ExecutionCheck::AdminOnly { reason: AdminOnlyReason::Batch },
        ExecutionKind::BatchDeployStack => ExecutionCheck::AdminOnly { reason: AdminOnlyReason::Batch },
        ExecutionKind::BatchDeployStackIfChanged => ExecutionCheck::AdminOnly { reason: AdminOnlyReason::Batch },
        ExecutionKind::BatchPullStack => ExecutionCheck::AdminOnly { reason: AdminOnlyReason::Batch },
        ExecutionKind::BatchDestroyStack => ExecutionCheck::AdminOnly { reason: AdminOnlyReason::Batch },
        ExecutionKind::ClearRepoCache => ExecutionCheck::AdminOnly { reason: AdminOnlyReason::ClearRepoCache },
        ExecutionKind::BackupCoreDatabase => ExecutionCheck::AdminOnly { reason: AdminOnlyReason::BackupCoreDatabase },
        ExecutionKind::GlobalAutoUpdate => ExecutionCheck::AdminOnly { reason: AdminOnlyReason::GlobalAutoUpdate },
        ExecutionKind::RotateAllServerKeys => ExecutionCheck::AdminOnly { reason: AdminOnlyReason::RotateAllServerKeys },
        ExecutionKind::RotateCoreKeys => ExecutionCheck::AdminOnly { reason: AdminOnlyReason::RotateCoreKeys },
        ExecutionKind::RunProcedure => ExecutionCheck::Procedure,
        ExecutionKind::CommitSync => ExecutionCheck::Permission { variant: ResourceTargetVariant::ResourceSync, level: PermissionLevel::Write },
        ExecutionKind::SendAlert => ExecutionCheck::Alerters,
        ExecutionKind::NoExecution => ExecutionCheck::Nothing,
        ExecutionKind::Sleep => ExecutionCheck::Nothing,
    }
}

/// What configuring an execution in a procedure requires (see
/// [execution_check_spec]).
pub fn execution_check(kind: ExecutionKind) -> (check: ExecutionCheck)
    ensures
        check == execution_check_spec(kind),
{
    match kind {
        ExecutionKind::RunAction => ExecutionCheck::Permission { variant: ResourceTargetVariant::Action, level: PermissionLevel::Execute },
        ExecutionKind::RunBuild => ExecutionCheck::Permission { variant: ResourceTargetVariant::Build, level: PermissionLevel::Execute },
        ExecutionKind::CancelBuild => ExecutionCheck::Permission { variant: ResourceTargetVariant::Build, level: PermissionLevel::Execute },
        ExecutionKind::Deploy => ExecutionCheck::Permission { variant: ResourceTargetVariant::Deployment, level: PermissionLevel::Execute },
        ExecutionKind::PullDeployment => ExecutionCheck::Permission { variant: ResourceTargetVariant::Deployment, level: PermissionLevel::Execute },
        ExecutionKind::StartDeployment => ExecutionCheck::Permission { variant: ResourceTargetVariant::Deployment, level: PermissionLevel::Execute },
        ExecutionKind::RestartDeployment => ExecutionCheck::Permission { variant: ResourceTargetVariant::Deployment, level: PermissionLevel::Execute },
        ExecutionKind::PauseDeployment => ExecutionCheck::Permission { variant: ResourceTargetVariant::Deployment, level: PermissionLevel::Execute },
        ExecutionKind::UnpauseDeployment => ExecutionCheck::Permission { variant: ResourceTargetVariant::Deployment, level: PermissionLevel::Execute },
        ExecutionKind::StopDeployment => ExecutionCheck::Permission { variant: ResourceTargetVariant::Deployment, level: PermissionLevel::Execute },
        ExecutionKind::DestroyDeployment => ExecutionCheck::Permission { variant: ResourceTargetVariant::Deployment, level: PermissionLevel::Execute },
        ExecutionKind::CloneRepo => ExecutionCheck::Permission { variant: ResourceTargetVariant::Repo, level: PermissionLevel::Execute },
        ExecutionKind::PullRepo => ExecutionCheck::Permission { variant: ResourceTargetVariant::Repo, level: PermissionLevel::Execute },
        ExecutionKind::BuildRepo => ExecutionCheck::Permission { variant: ResourceTargetVariant::Repo, level: PermissionLevel::Execute },
        ExecutionKind::CancelRepoBuild => ExecutionCheck::Permission { variant: ResourceTargetVariant::Repo, level: PermissionLevel::Execute },
        ExecutionKind::StartContainer => ExecutionCheck::Permission { variant: ResourceTargetVariant::Server, level: PermissionLevel::Execute },
        ExecutionKind::RestartContainer => ExecutionCheck::Permission { variant: ResourceTargetVariant::Server, level: PermissionLevel::Execute },
        ExecutionKind::PauseContainer => ExecutionCheck::Permission { variant: ResourceTargetVariant::Server, level: PermissionLevel::Execute },
        ExecutionKind::UnpauseContainer => ExecutionCheck::Permission { variant: ResourceTargetVariant::Server, level: PermissionLevel::Execute },
        ExecutionKind::StopContainer => ExecutionCheck::Permission { variant: ResourceTargetVariant::Server, level: PermissionLevel::Execute },
        ExecutionKind::DestroyContainer => ExecutionCheck::Permission { variant: ResourceTargetVariant::Server, level: PermissionLevel::Execute },
        ExecutionKind::StartAllContainers => ExecutionCheck::Permission { variant: ResourceTargetVariant::Server, level: PermissionLevel::Execute },
        ExecutionKind::RestartAllContainers => ExecutionCheck::Permission { variant: ResourceTargetVariant::Server, level: PermissionLevel::Execute },
        ExecutionKind::PauseAllContainers => ExecutionCheck::Permission { variant: ResourceTargetVariant::Server, level: PermissionLevel::Execute },
        ExecutionKind::UnpauseAllContainers => ExecutionCheck::Permission { variant: ResourceTargetVariant::Server, level: PermissionLevel::Execute },
        ExecutionKind::StopAllContainers => ExecutionCheck::Permission { variant: ResourceTargetVariant::Server, level: PermissionLevel::Execute },
        ExecutionKind::PruneContainers => ExecutionCheck::Permission { variant: ResourceTargetVariant::Server, level: PermissionLevel::Execute },
        ExecutionKind::DeleteNetwork => ExecutionCheck::Permission { variant: ResourceTargetVariant::Server, level: PermissionLevel::Execute },
        ExecutionKind::PruneNetworks => ExecutionCheck::Permission { variant: ResourceTargetVariant::Server, level: PermissionLevel::Execute },
        ExecutionKind::DeleteImage => ExecutionCheck::Permission { variant: ResourceTargetVariant::Server, level: PermissionLevel::Execute },
        ExecutionKind::PruneImages => ExecutionCheck::Permission { variant: ResourceTargetVariant::Server, level: PermissionLevel::Execute },
        ExecutionKind::DeleteVolume => ExecutionCheck::Permission { variant: ResourceTargetVariant::Server, level: PermissionLevel::Execute },
        ExecutionKind::PruneVolumes => ExecutionCheck::Permission { variant: ResourceTargetVariant::Server, level: PermissionLevel::Execute },
        ExecutionKind::PruneDockerBuilders => ExecutionCheck::Permission { variant: ResourceTargetVariant::Server, level: PermissionLevel::Execute },
        ExecutionKind::PruneBuildx => ExecutionCheck::Permission { variant: ResourceTargetVariant::Server, level: PermissionLevel::Execute },
        ExecutionKind::PruneSystem => ExecutionCheck::Permission { variant: ResourceTargetVariant::Server, level: PermissionLevel::Execute },
        ExecutionKind::RunSync => ExecutionCheck::Permission { variant: ResourceTargetVariant::ResourceSync, level: PermissionLevel::Execute },
        ExecutionKind::DeployStack => ExecutionCheck::Permission { variant: ResourceTargetVariant::Stack, level: PermissionLevel::Execute },
        ExecutionKind::DeployStackIfChanged => ExecutionCheck::Permission { variant: ResourceTargetVariant::Stack, level: PermissionLevel::Execute },
        ExecutionKind::PullStack => ExecutionCheck::Permission { variant: ResourceTargetVariant::Stack, level: PermissionLevel::Execute },
        ExecutionKind::StartStack => ExecutionCheck::Permission { variant: ResourceTargetVariant::Stack, level: PermissionLevel::Execute },
        ExecutionKind::RestartStack => ExecutionCheck::Permission { variant: ResourceTargetVariant::Stack, level: PermissionLevel::Execute },
        ExecutionKind::PauseStack => ExecutionCheck::Permission { variant: ResourceTargetVariant::Stack, level: PermissionLevel::Execute },
        ExecutionKind::UnpauseStack => ExecutionCheck::Permission { variant: ResourceTargetVariant::Stack, level: PermissionLevel::Execute },
        ExecutionKind::StopStack => ExecutionCheck::Permission { variant: ResourceTargetVariant::Stack, level: PermissionLevel::Execute },
        ExecutionKind::DestroyStack => ExecutionCheck::Permission { variant: ResourceTargetVariant::Stack, level: PermissionLevel::Execute },
        ExecutionKind::RunStackService => ExecutionCheck::Permission { variant: ResourceTargetVariant::Stack, level: PermissionLevel::Execute },
        ExecutionKind::TestAlerter => ExecutionCheck::Permission { variant: ResourceTargetVariant::Alerter, level: PermissionLevel::Execute },
        ExecutionKind::RemoveSwarmNodes => ExecutionCheck::Permission { variant: ResourceTargetVariant::Swarm, level: PermissionLevel::Execute },
        ExecutionKind::UpdateSwarmNode => ExecutionCheck::Permission { variant: ResourceTargetVariant::Swarm, level: PermissionLevel::Execute },
        ExecutionKind::RemoveSwarmStacks => ExecutionCheck::Permission { variant: ResourceTargetVariant::Swarm, level: PermissionLevel::Execute },
        ExecutionKind::RemoveSwarmServices => ExecutionCheck::Permission { variant: ResourceTargetVariant::Swarm, level: PermissionLevel::Execute },
        ExecutionKind::CreateSwarmConfig => ExecutionCheck::Permission { variant: ResourceTargetVariant::Swarm, level: PermissionLevel::Execute },
        ExecutionKind::RotateSwarmConfig => ExecutionCheck::Permission { variant: ResourceTargetVariant::Swarm, level: PermissionLevel::Execute },
        ExecutionKind::RemoveSwarmConfigs => ExecutionCheck::Permission { variant: ResourceTargetVariant::Swarm, level: PermissionLevel::Execute },
        ExecutionKind::CreateSwarmSecret => ExecutionCheck::Permission { variant: ResourceTargetVariant::Swarm, level: PermissionLevel::Execute },
        ExecutionKind::RotateSwarmSecret => ExecutionCheck::Permission { variant: ResourceTargetVariant::Swarm, level: PermissionLevel::Execute },
        ExecutionKind::RemoveSwarmSecrets => ExecutionCheck::Permission { variant: ResourceTargetVariant::Swarm, level: PermissionLevel::Execute },
        ExecutionKind::BatchRunProcedure => ExecutionCheck::AdminOnly { reason: AdminOnlyReason::Batch },
        ExecutionKind::BatchRunAction => ExecutionCheck::AdminOnly { reason: AdminOnlyReason::Batch },
        ExecutionKind::BatchRunBuild => ExecutionCheck::AdminOnly { reason: AdminOnlyReason::Batch },
        ExecutionKind::BatchDeploy => ExecutionCheck::AdminOnly { reason: AdminOnlyReason::Batch },
        ExecutionKind::BatchDestroyDeployment => ExecutionCheck::AdminOnly { reason: AdminOnlyReason::Batch },
        ExecutionKind::BatchCloneRepo => ExecutionCheck::AdminOnly { reason: AdminOnlyReason::Batch },
        ExecutionKind::BatchPullRepo => ExecutionCheck::AdminOnly { reason: AdminOnlyReason::Batch },
        ExecutionKind::BatchBuildRepo => ExecutionCheck::AdminOnly { reason: AdminOnlyReason::Batch },
        ExecutionKind::BatchDeployStack => ExecutionCheck::AdminOnly { reason: AdminOnlyReason::Batch },
        ExecutionKind::BatchDeployStackIfChanged => ExecutionCheck::AdminOnly { reason: AdminOnlyReason::Batch },
        ExecutionKind::BatchPullStack => ExecutionCheck::AdminOnly { reason: AdminOnlyReason::Batch },
        ExecutionKind::BatchDestroyStack => ExecutionCheck::AdminOnly { reason: AdminOnlyReason::Batch },
        ExecutionKind::ClearRepoCache => ExecutionCheck::AdminOnly { reason: AdminOnlyReason::ClearRepoCache },
        ExecutionKind::BackupCoreDatabase => ExecutionCheck::AdminOnly { reason: AdminOnlyReason::BackupCoreDatabase },
        ExecutionKind::GlobalAutoUpdate => ExecutionCheck::AdminOnly { reason: AdminOnlyReason::GlobalAutoUpdate },
        ExecutionKind::RotateAllServerKeys => ExecutionCheck::AdminOnly { reason: AdminOnlyReason::RotateAllServerKeys },
        ExecutionKind::RotateCoreKeys => ExecutionCheck::AdminOnly { reason: AdminOnlyReason::RotateCoreKeys },
        ExecutionKind::RunProcedure => ExecutionCheck::Procedure,
        ExecutionKind::CommitSync => ExecutionCheck::Permission { variant: ResourceTargetVariant::ResourceSync, level: PermissionLevel::Write },
        ExecutionKind::SendAlert => ExecutionCheck::Alerters,
        ExecutionKind::NoExecution => ExecutionCheck::Nothing,
        ExecutionKind::Sleep => ExecutionCheck::Nothing,
    }
}

/// Every execution that runs on a resource needs `Execute` on it, but
/// for committing a resource sync, which writes it and needs `Write`.
pub proof fn law_executions_need_execute(kind: ExecutionKind)
    ensures
        execution_check_spec(kind) is Permission ==> execution_check_spec(kind)->level == if kind
            == ExecutionKind::CommitSync {
            PermissionLevel::Write
        } else {
            PermissionLevel::Execute
        },
        execution_check_spec(kind) is Permission ==> execution_check_spec(kind)->level.rank()
            >= PermissionLevel::Execute.rank(),
{
}

/// Whether the execution acts on a deployment.
pub open spec fn is_deployment_execution(kind: ExecutionKind) -> bool {
    matches!(kind, ExecutionKind::Deploy | ExecutionKind::PullDeployment | ExecutionKind::StartDeployment | ExecutionKind::RestartDeployment | ExecutionKind::PauseDeployment | ExecutionKind::UnpauseDeployment | ExecutionKind::StopDeployment | ExecutionKind::DestroyDeployment)
}

/// Whether the execution acts on a stack.
pub open spec fn is_stack_execution(kind: ExecutionKind) -> bool {
    matches!(kind, ExecutionKind::DeployStack | ExecutionKind::DeployStackIfChanged | ExecutionKind::PullStack | ExecutionKind::StartStack | ExecutionKind::RestartStack | ExecutionKind::PauseStack | ExecutionKind::UnpauseStack | ExecutionKind::StopStack | ExecutionKind::DestroyStack | ExecutionKind::RunStackService)
}

/// Whether the execution acts on a repo.
pub open spec fn is_repo_execution(kind: ExecutionKind) -> bool {
    matches!(kind, ExecutionKind::CloneRepo | ExecutionKind::PullRepo | ExecutionKind::BuildRepo | ExecutionKind::CancelRepoBuild)
}

/// Whether the execution acts on a build.
pub open spec fn is_build_execution(kind: ExecutionKind) -> bool {
    matches!(kind, ExecutionKind::RunBuild | ExecutionKind::CancelBuild)
}

/// Whether the execution acts on a server's containers, networks, images or volumes.
pub open spec fn is_server_execution(kind: ExecutionKind) -> bool {
    matches!(kind, ExecutionKind::StartContainer | ExecutionKind::RestartContainer | ExecutionKind::PauseContainer | ExecutionKind::UnpauseContainer | ExecutionKind::StopContainer | ExecutionKind::DestroyContainer | ExecutionKind::StartAllContainers | ExecutionKind::RestartAllContainers | ExecutionKind::PauseAllContainers | ExecutionKind::UnpauseAllContainers | ExecutionKind::StopAllContainers | ExecutionKind::PruneContainers | ExecutionKind::DeleteNetwork | ExecutionKind::PruneNetworks | ExecutionKind::DeleteImage | ExecutionKind::PruneImages | ExecutionKind::DeleteVolume | ExecutionKind::PruneVolumes | ExecutionKind::PruneDockerBuilders | ExecutionKind::PruneBuildx | ExecutionKind::PruneSystem)
}

/// Whether the execution acts on a swarm.
pub open spec fn is_swarm_execution(kind: ExecutionKind) -> bool {
    matches!(kind, ExecutionKind::RemoveSwarmNodes | ExecutionKind::UpdateSwarmNode | ExecutionKind::RemoveSwarmStacks | ExecutionKind::RemoveSwarmServices | ExecutionKind::CreateSwarmConfig | ExecutionKind::RotateSwarmConfig | ExecutionKind::RemoveSwarmConfigs | ExecutionKind::CreateSwarmSecret | ExecutionKind::RotateSwarmSecret | ExecutionKind::RemoveSwarmSecrets)
}

/// Whether the execution runs a batch.
pub open spec fn is_batch_execution(kind: ExecutionKind) -> bool {
    matches!(kind, ExecutionKind::BatchRunProcedure | ExecutionKind::BatchRunAction | ExecutionKind::BatchRunBuild | ExecutionKind::BatchDeploy | ExecutionKind::BatchDestroyDeployment | ExecutionKind::BatchCloneRepo | ExecutionKind::BatchPullRepo | ExecutionKind::BatchBuildRepo | ExecutionKind::BatchDeployStack | ExecutionKind::BatchDeployStackIfChanged | ExecutionKind::BatchPullStack | ExecutionKind::BatchDestroyStack)
}

/// Whether configuring the execution needs `level` on a resource of
/// kind `variant`.
pub open spec fn needs_permission(kind: ExecutionKind, variant: ResourceTargetVariant, level: PermissionLevel) -> bool {
    execution_check_spec(kind) == (ExecutionCheck::Permission { variant, level })
}

/// Whether configuring the execution is refused to non-admins for
/// `reason`.
pub open spec fn needs_admin(kind: ExecutionKind, reason: AdminOnlyReason) -> bool {
    execution_check_spec(kind) == (ExecutionCheck::AdminOnly { reason })
}

/// The resource an execution needs permission on is the one it acts on:
/// a deployment's executions name deployments, a stack's stacks, a
/// container's (and a prune's) servers, a repo's repos, a build's
/// builds, a swarm's swarms; a sync commit needs `Write` on the sync.
pub proof fn law_executions_act_on_their_resource(kind: ExecutionKind)
    ensures
        is_deployment_execution(kind) ==> needs_permission(kind, ResourceTargetVariant::Deployment, PermissionLevel::Execute),
        is_stack_execution(kind) ==> needs_permission(kind, ResourceTargetVariant::Stack, PermissionLevel::Execute),
        is_repo_execution(kind) ==> needs_permission(kind, ResourceTargetVariant::Repo, PermissionLevel::Execute),
        is_build_execution(kind) ==> needs_permission(kind, ResourceTargetVariant::Build, PermissionLevel::Execute),
        is_server_execution(kind) ==> needs_permission(kind, ResourceTargetVariant::Server, PermissionLevel::Execute),
        is_swarm_execution(kind) ==> needs_permission(kind, ResourceTargetVariant::Swarm, PermissionLevel::Execute),
        kind == ExecutionKind::RunAction ==> needs_permission(kind, ResourceTargetVariant::Action, PermissionLevel::Execute),
        kind == ExecutionKind::RunSync ==> needs_permission(kind, ResourceTargetVariant::ResourceSync, PermissionLevel::Execute),
        kind == ExecutionKind::CommitSync ==> needs_permission(kind, ResourceTargetVariant::ResourceSync, PermissionLevel::Write),
        kind == ExecutionKind::TestAlerter ==> needs_permission(kind, ResourceTargetVariant::Alerter, PermissionLevel::Execute),
{
}

/// Batch executions and the executions that act on Core as a whole are
/// open to admins only; running another procedure, sending an alert,
/// waiting and doing nothing need no admin.
pub proof fn law_admin_only_executions(kind: ExecutionKind)
    ensures
        is_batch_execution(kind) ==> needs_admin(kind, AdminOnlyReason::Batch),
        kind == ExecutionKind::ClearRepoCache ==> needs_admin(kind, AdminOnlyReason::ClearRepoCache),
        kind == ExecutionKind::BackupCoreDatabase ==> needs_admin(kind, AdminOnlyReason::BackupCoreDatabase),
        kind == ExecutionKind::GlobalAutoUpdate ==> needs_admin(kind, AdminOnlyReason::GlobalAutoUpdate),
        kind == ExecutionKind::RotateAllServerKeys ==> needs_admin(kind, AdminOnlyReason::RotateAllServerKeys),
        kind == ExecutionKind::RotateCoreKeys ==> needs_admin(kind, AdminOnlyReason::RotateCoreKeys),
        kind == ExecutionKind::RunProcedure ==> execution_check_spec(kind) is Procedure,
        kind == ExecutionKind::SendAlert ==> execution_check_spec(kind) is Alerters,
        kind == ExecutionKind::NoExecution ==> execution_check_spec(kind) is Nothing,
        kind == ExecutionKind::Sleep ==> execution_check_spec(kind) is Nothing,
{
}

/// Why an execution needs an admin.
#[derive(Clone, Copy, Debug, PartialEq, Eq, Hash, Structural)]
pub enum AdminOnlyReason {
    Batch,
    ClearRepoCache,
    BackupCoreDatabase,
    GlobalAutoUpdate,
    RotateAllServerKeys,
    RotateCoreKeys,
}

impl AdminOnlyReason {
    /// The message of the refusal.
    pub open spec fn spec_message(self) -> Seq<char> {
        match self {
            AdminOnlyReason::Batch => "Non admin user cannot configure Batch executions"@,
            AdminOnlyReason::ClearRepoCache => "Non admin user cannot clear repo cache"@,
            AdminOnlyReason::BackupCoreDatabase => "Non admin user cannot trigger core database backup"@,
            AdminOnlyReason::GlobalAutoUpdate => "Non admin user cannot trigger global auto update"@,
            AdminOnlyReason::RotateAllServerKeys => "Non admin user cannot trigger rotate all server keys"@,
            AdminOnlyReason::RotateCoreKeys => "Non admin user cannot trigger rotate core keys"@,
        }
    }

    /// The message of the refusal.
    pub fn message(&self) -> (m: String)
        ensures
            m@ == self.spec_message(),
    {
        match self {
            AdminOnlyReason::Batch => {
                "Non admin user cannot configure Batch executions".to_owned()
            },
            AdminOnlyReason::ClearRepoCache => {
                "Non admin user cannot clear repo cache".to_owned()
            },
            AdminOnlyReason::BackupCoreDatabase => {
                "Non admin user cannot trigger core database backup".to_owned()
            },
            AdminOnlyReason::GlobalAutoUpdate => {
                "Non admin user cannot trigger global auto update".to_owned()
            },
            AdminOnlyReason::RotateAllServerKeys => {
                "Non admin user cannot trigger rotate all server keys".to_owned()
            },
            AdminOnlyReason::RotateCoreKeys => {
                "Non admin user cannot trigger rotate core keys".to_owned()
            },
        }
    }
}

/// Why a procedure's configuration was refused.
#[derive(Clone, Copy, Debug, PartialEq, Eq, Structural)]
pub enum ProcedureConfigError {
    /// A non-admin configured an execution only admins may configure.
    AdminOnly(AdminOnlyReason),
    /// The procedure runs itself.
    SelfReferential,
}

impl ProcedureConfigError {
    /// The message of the refusal.
    pub open spec fn spec_message(self) -> Seq<char> {
        match self {
            ProcedureConfigError::AdminOnly(reason) => reason.spec_message(),
            ProcedureConfigError::SelfReferential => "Cannot have self-referential procedure"@,
        }
    }

    /// The message of the refusal.
    pub fn message(&self) -> (m: String)
        ensures
            m@ == self.spec_message(),
    {
        match self {
            ProcedureConfigError::AdminOnly(reason) => reason.message(),
            ProcedureConfigError::SelfReferential => "Cannot have self-referential procedure".to_owned(),
        }
    }
}

/// Whether the user may configure an execution with this check
/// without looking up any resource: admin-only executions are refused
/// to non-admins.
pub fn admin_check(check: ExecutionCheck, admin: bool) -> (r: Result<(), ProcedureConfigError>)
    ensures
        !admin ==> (check matches ExecutionCheck::AdminOnly { reason } ==> r == Err::<(), ProcedureConfigError>(
            ProcedureConfigError::AdminOnly(reason),
        )),
        !(check matches ExecutionCheck::AdminOnly { .. } && !admin) ==> r is Ok,
{
    match check {
        ExecutionCheck::AdminOnly { reason } => {
            if admin {
                Ok(())
            } else {
                Err(ProcedureConfigError::AdminOnly(reason))
            }
        },
        _ => Ok(()),
    }
}

/// Whether a procedure may run the procedure `run_id` (resolved to its
/// id): not when it is the procedure being configured (`own_id`, absent
/// while the procedure is created).
pub fn check_procedure_reference(run_id: &str, own_id: Option<&str>) -> (r: Result<(), ProcedureConfigError>)
    ensures
        r is Err <==> (own_id matches Some(id) && id@ == run_id@),
        r is Err ==> r == Err::<(), ProcedureConfigError>(ProcedureConfigError::SelfReferential),
{
    match own_id {
        Some(id) => {
            if crate::connection::str_eq(run_id, id) {
                Err(ProcedureConfigError::SelfReferential)
            } else {
                Ok(())
            }
        },
        None => Ok(()),
    }
}

// ---------------------------------------------------------------------
// Checking every execution of a procedure's stages
// ---------------------------------------------------------------------

/// One execution of a procedure stage: its kind, and the resources it
/// names (the one it runs on, or each alerter an alert goes to).
#[derive(Debug)]
pub struct ProcedureExecution {
    pub kind: ExecutionKind,
    pub targets: Vec<String>,
}

/// A resource an execution names, to be looked up with the permission
/// the user needs on it.
#[derive(Debug)]
pub struct ResourceLookup {
    pub variant: ResourceTargetVariant,
    pub level: PermissionLevel,
    /// The resource, by name or id.
    pub name: String,
}

/// The kind of resource an execution's targets are, and the permission
/// needed on them; `None` for executions that name no resource.
pub open spec fn lookup_target(check: ExecutionCheck) -> Option<(ResourceTargetVariant, PermissionLevel)> {
    match check {
        ExecutionCheck::Permission { variant, level } => Some((variant, level)),
        ExecutionCheck::Procedure => Some((ResourceTargetVariant::Procedure, PermissionLevel::Execute)),
        ExecutionCheck::Alerters => Some((ResourceTargetVariant::Alerter, PermissionLevel::Execute)),
        _ => None,
    }
}

/// How many resources are looked up for an execution.
pub open spec fn lookup_count(e: ProcedureExecution) -> nat {
    if lookup_target(execution_check_spec(e.kind)) is Some {
        e.targets@.len()
    } else {
        0
    }
}

/// The execution once its resources are resolved to the ids `ids`: the
/// targets of an execution that names resources are replaced by their
/// ids; any other is kept as it is.
pub open spec fn rewritten(e: ProcedureExecution, ids: Vec<String>) -> ProcedureExecution {
    if lookup_target(execution_check_spec(e.kind)) is Some {
        ProcedureExecution { kind: e.kind, targets: ids }
    } else {
        e
    }
}

/// Whether running the procedures `ids` makes the procedure `own_id`
/// run itself.
pub open spec fn self_referential(e: ProcedureExecution, ids: Seq<String>, own_id: Option<Seq<char>>) -> bool {
    &&& e.kind == ExecutionKind::RunProcedure
    &&& own_id matches Some(id) && exists|i: int| 0 <= i < ids.len() && #[trigger] ids[i]@ == id
}

/// How many executions the stages before stage `s` hold.
pub open spec fn count_before(stages: Seq<Vec<ProcedureExecution>>, s: int) -> int
    decreases s,
{
    if s <= 0 {
        0
    } else {
        count_before(stages, s - 1) + stages[s - 1]@.len()
    }
}

/// How many executions the stages hold.
pub open spec fn total_executions(stages: Seq<Vec<ProcedureExecution>>) -> int {
    count_before(stages, stages.len() as int)
}

proof fn lemma_count_before_monotone(stages: Seq<Vec<ProcedureExecution>>, a: int, b: int)
    requires
        0 <= a <= b,
    ensures
        count_before(stages, a) <= count_before(stages, b),
    decreases b - a,
{
    if a < b {
        lemma_count_before_monotone(stages, a, b - 1);
    }
}

proof fn lemma_count_before_same_lengths(x: Seq<Vec<ProcedureExecution>>, y: Seq<Vec<ProcedureExecution>>, s: int)
    requires
        0 <= s <= x.len(),
        x.len() == y.len(),
        forall|k: int| 0 <= k < x.len() ==> (#[trigger] x[k])@.len() == y[k]@.len(),
    ensures
        count_before(x, s) == count_before(y, s),
    decreases s,
{
    if s > 0 {
        lemma_count_before_same_lengths(x, y, s - 1);
    }
}

/// The walk through a procedure's stages that checks each execution in
/// turn: for each, the resources it names are looked up (outside the
/// library) and the execution is rewritten to name them by id. The
/// position is the next execution to check.
#[derive(Debug)]
pub struct ConfigWalk {
    pub stages: Vec<Vec<ProcedureExecution>>,
    pub stage: usize,
    pub index: usize,
}

impl ConfigWalk {
    /// Whether the position is the next execution to check, or past the
    /// last stage.
    pub open spec fn wf(&self) -> bool {
        &&& self.stage <= self.stages@.len()
        &&& self.stage < self.stages@.len() ==> self.index < self.stages@[self.stage as int]@.len()
        &&& self.stage == self.stages@.len() ==> self.index == 0
    }

    /// Whether every execution was checked.
    pub open spec fn finished(&self) -> bool {
        self.stage == self.stages@.len()
    }

    /// How many executions were checked: those before the position.
    pub open spec fn checked(&self) -> int {
        count_before(self.stages@, self.stage as int) + self.index
    }

    /// The execution to check next.
    pub open spec fn current(&self) -> ProcedureExecution {
        self.stages@[self.stage as int]@[self.index as int]
    }

    /// Moves past empty stages from stage `self.stage`, index 0.
    fn skip_empty_stages(&mut self)
        requires
            old(self).index == 0,
            old(self).stage <= old(self).stages@.len(),
        ensures
            final(self).wf(),
            final(self).stages == old(self).stages,
            final(self).checked() == old(self).checked(),
    {
        while self.stage < self.stages.len() && self.stages[self.stage].len() == 0
            invariant
                self.index == 0,
                self.stage <= self.stages@.len(),
                self.stages == old(self).stages,
                count_before(self.stages@, self.stage as int) == old(self).checked(),
            decreases self.stages@.len() - self.stage,
        {
            self.stage = self.stage + 1;
        }
    }

    /// Starts a walk at the first execution of the first stage that has
    /// one.
    pub fn new(stages: Vec<Vec<ProcedureExecution>>) -> (w: ConfigWalk)
        ensures
            w.wf(),
            w.stages == stages,
            w.checked() == 0,
            w.finished() <==> total_executions(stages@) == 0,
    {
        let mut w = ConfigWalk { stages, stage: 0, index: 0 };
        w.skip_empty_stages();
        proof {
            w.lemma_checked_bounds();
        }
        w
    }

    /// The walk has checked every execution exactly when it is
    /// finished, and never more than the stages hold.
    pub proof fn lemma_checked_bounds(&self)
        requires
            self.wf(),
        ensures
            0 <= self.checked() <= total_executions(self.stages@),
            self.finished() <==> self.checked() == total_executions(self.stages@),
    {
        lemma_count_before_monotone(self.stages@, 0, self.stage as int);
        if self.stage < self.stages@.len() {
            lemma_count_before_monotone(self.stages@, self.stage + 1, self.stages@.len() as int);
        }
    }

    /// Whether every execution was checked.
    pub fn is_finished(&self) -> (r: bool)
        ensures
            r == self.finished(),
    {
        self.stage == self.stages.len()
    }

    /// The resources to look up for the next execution, or the refusal
    /// of an execution only admins may configure.
    pub fn lookups(&self, admin: bool) -> (r: Result<Vec<ResourceLookup>, ProcedureConfigError>)
        requires
            self.wf(),
            !self.finished(),
        ensures
            match execution_check_spec(self.current().kind) {
                ExecutionCheck::AdminOnly { reason } => if admin {
                    r matches Ok(l) && l@.len() == 0
                } else {
                    r == Err::<Vec<ResourceLookup>, ProcedureConfigError>(ProcedureConfigError::AdminOnly(reason))
                },
                check => r matches Ok(l) && l@.len() == lookup_count(self.current()) && (lookup_target(check) matches Some(
                    t,
                ) ==> forall|i: int|
                    0 <= i < l@.len() ==> (#[trigger] l@[i]).variant == t.0 && l@[i].level == t.1 && l@[i].name@
                        == self.current().targets@[i]@),
            },
    {
        let e = &self.stages[self.stage][self.index];
        let check = execution_check(e.kind);
        let target = match check {
            ExecutionCheck::AdminOnly { reason } => {
                if admin {
                    return Ok(Vec::new());
                } else {
                    return Err(ProcedureConfigError::AdminOnly(reason));
                }
            },
            ExecutionCheck::Permission { variant, level } => (variant, level),
            ExecutionCheck::Procedure => (ResourceTargetVariant::Procedure, PermissionLevel::Execute),
            ExecutionCheck::Alerters => (ResourceTargetVariant::Alerter, PermissionLevel::Execute),
            ExecutionCheck::Nothing => {
                return Ok(Vec::new());
            },
        };
        let mut l: Vec<ResourceLookup> = Vec::new();
        let mut i: usize = 0;
        while i < e.targets.len()
            invariant
                i <= e.targets@.len(),
                l@.len() == i,
                forall|j: int|
                    0 <= j < i ==> (#[trigger] l@[j]).variant == target.0 && l@[j].level == target.1 && l@[j].name@
                        == e.targets@[j]@,
            decreases e.targets@.len() - i,
        {
            l.push(ResourceLookup { variant: target.0, level: target.1, name: e.targets[i].clone() });
            i = i + 1;
        }
        Ok(l)
    }

    /// Takes the ids the next execution's resources resolved to: a
    /// procedure may not run itself (`own_id`, absent while it is
    /// created); otherwise the execution is rewritten to name its
    /// resources by id and the walk moves to the execution after it.
    /// A refusal changes nothing.
    pub fn resolved(&mut self, own_id: Option<&str>, ids: Vec<String>) -> (r: Result<(), ProcedureConfigError>)
        requires
            old(self).wf(),
            !old(self).finished(),
            ids@.len() == lookup_count(old(self).current()),
        ensures
            r is Err <==> self_referential(
                old(self).current(),
                ids@,
                match own_id {
                    Some(id) => Some(id@),
                    None => None,
                },
            ),
            r is Err ==> r == Err::<(), ProcedureConfigError>(ProcedureConfigError::SelfReferential) && *final(self)
                == *old(self),
            r is Ok ==> final(self).wf() && final(self).checked() == old(self).checked() + 1
                && final(self).stages@.len() == old(self).stages@.len() && (forall|s: int|
                0 <= s < old(self).stages@.len() ==> (#[trigger] final(self).stages@[s])@ == if s == old(self).stage {
                    old(self).stages@[s]@.update(old(self).index as int, rewritten(old(self).current(), ids))
                } else {
                    old(self).stages@[s]@
                }),
    {
        let ghost own = match own_id {
            Some(id) => Some(id@),
            None => None,
        };
        if self.stages[self.stage][self.index].kind == ExecutionKind::RunProcedure {
            if let Some(id) = own_id {
                let mut k: usize = 0;
                while k < ids.len()
                    invariant
                        k <= ids@.len(),
                        forall|j: int| 0 <= j < k ==> (#[trigger] ids@[j])@ != id@,
                        *self == *old(self),
                        old(self).current().kind == ExecutionKind::RunProcedure,
                        own_id == Some(id),
                    decreases ids@.len() - k,
                {
                    if check_procedure_reference(ids[k].as_str(), Some(id)).is_err() {
                        assert(ids@[k as int]@ == id@);
                        assert(self_referential(old(self).current(), ids@, Some(id@)));
                        return Err(ProcedureConfigError::SelfReferential);
                    }
                    k = k + 1;
                }
            }
        }
        let ghost before = *self;
        let stage = self.stage;
        let index = self.index;
        let mut inner = self.stages.remove(stage);
        let e = inner.remove(index);
        let check = execution_check(e.kind);
        let names_resources = match check {
            ExecutionCheck::Permission { .. } | ExecutionCheck::Procedure | ExecutionCheck::Alerters => true,
            _ => false,
        };
        let new_e = if names_resources {
            ProcedureExecution { kind: e.kind, targets: ids }
        } else {
            e
        };
        inner.insert(index, new_e);
        assert(inner@ =~= before.stages@[stage as int]@.update(index as int, rewritten(before.current(), ids)));
        self.stages.insert(stage, inner);
        assert(self.stages@ =~= before.stages@.update(stage as int, self.stages@[stage as int]));
        proof {
            lemma_count_before_same_lengths(self.stages@, before.stages@, stage as int);
            lemma_count_before_same_lengths(self.stages@, before.stages@, stage + 1);
        }
        assert(self.stages@.len() == before.stages@.len());
        assert(self.stages@[stage as int]@.len() == before.stages@[stage as int]@.len());
        assert(index < self.stages@[stage as int]@.len());
        let n = self.stages.len();
        let m = self.stages[stage].len();
        assert(stage < n && index < m);
        if index + 1 < m {
            self.index = index + 1;
        } else {
            self.stage = stage + 1;
            self.index = 0;
            self.skip_empty_stages();
        }
        Ok(())
    }
}

/// Checking a procedure visits every execution once, in order: a walk
/// that is not finished has an execution to check, each accepted step
/// checks one more, and the walk is finished exactly when all the
/// executions of all the stages were checked.
pub proof fn law_walk_checks_every_execution(w: ConfigWalk)
    requires
        w.wf(),
    ensures
        !w.finished() ==> w.checked() < total_executions(w.stages@),
        w.finished() <==> w.checked() == total_executions(w.stages@),
{
    w.lemma_checked_bounds();
}

/// The state a procedure is listed with.
#[derive(Clone, Copy, Debug, PartialEq, Eq, Structural)]
pub enum ProcedureState {
    Running,
    /// The last run succeeded, or it never ran.
    Succeeded,
    Failed,
    Unknown,
}

/// The state of a procedure as its last run left it: `Unknown` where the
/// runs could not be read, `Succeeded` where it never ran, else by
/// whether the last run (`last_run_success`) succeeded.
pub fn procedure_state_from_last_run(runs_read: bool, last_run_success: Option<bool>) -> (state: ProcedureState)
    ensures
        state == if !runs_read {
            ProcedureState::Unknown
        } else {
            match last_run_success {
                Some(false) => ProcedureState::Failed,
                _ => ProcedureState::Succeeded,
            }
        },
{
    if !runs_read {
        return ProcedureState::Unknown;
    }
    match last_run_success {
        Some(false) => ProcedureState::Failed,
        _ => ProcedureState::Succeeded,
    }
}

} // verus!
