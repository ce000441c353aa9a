//! Updates: the record of an operation on a resource, and how the
//! update of an execution request starts.
use crate::procedure::{execution_check_spec, is_batch_execution, lookup_target, ExecutionKind};
use crate::target::{ResourceTarget, ResourceTargetVariant};
use vstd::prelude::*;

verus! {

/// The operations an update records.
#[derive(Clone, Copy, Debug, PartialEq, Eq, Hash, Structural)]
pub enum Operation {
    /// No operation.
    NoOperation,
    RemoveSwarmNodes,
    UpdateSwarmNode,
    RemoveSwarmStacks,
    RemoveSwarmServices,
    CreateSwarmConfig,
    RotateSwarmConfig,
    RemoveSwarmConfigs,
    CreateSwarmSecret,
    RotateSwarmSecret,
    RemoveSwarmSecrets,
    StartContainer,
    RestartContainer,
    PauseContainer,
    UnpauseContainer,
    StopContainer,
    DestroyContainer,
    StartAllContainers,
    RestartAllContainers,
    PauseAllContainers,
    UnpauseAllContainers,
    StopAllContainers,
    PruneContainers,
    DeleteNetwork,
    PruneNetworks,
    DeleteImage,
    PruneImages,
    DeleteVolume,
    PruneVolumes,
    PruneDockerBuilders,
    PruneBuildx,
    PruneSystem,
    Deploy,
    PullDeployment,
    StartDeployment,
    RestartDeployment,
    PauseDeployment,
    UnpauseDeployment,
    StopDeployment,
    DestroyDeployment,
    RunBuild,
    CancelBuild,
    CloneRepo,
    PullRepo,
    BuildRepo,
    CancelRepoBuild,
    RunProcedure,
    RunAction,
    RunSync,
    RunStackService,
    TestAlerter,
    DeployStack,
    PullStack,
    StartStack,
    RestartStack,
    PauseStack,
    UnpauseStack,
    StopStack,
    DestroyStack,
    DeployStackService,
    PullStackService,
    StartStackService,
    RestartStackService,
    PauseStackService,
    UnpauseStackService,
    StopStackService,
    DestroyStackService,
    SendAlert,
    ClearRepoCache,
    BackupCoreDatabase,
    GlobalAutoUpdate,
    RotateAllServerKeys,
    RotateCoreKeys,
}

/// The kinds of execution requests.
#[derive(Clone, Copy, Debug, PartialEq, Eq, Hash, Structural)]
pub enum ExecuteRequestKind {
    RemoveSwarmNodes,
    UpdateSwarmNode,
    RemoveSwarmStacks,
    RemoveSwarmServices,
    CreateSwarmConfig,
    RotateSwarmConfig,
    RemoveSwarmConfigs,
    CreateSwarmSecret,
    RotateSwarmSecret,
    RemoveSwarmSecrets,
    StartContainer,
    RestartContainer,
    PauseContainer,
    UnpauseContainer,
    StopContainer,
    DestroyContainer,
    StartAllContainers,
    RestartAllContainers,
    PauseAllContainers,
    UnpauseAllContainers,
    StopAllContainers,
    PruneContainers,
    DeleteNetwork,
    PruneNetworks,
    DeleteImage,
    PruneImages,
    DeleteVolume,
    PruneVolumes,
    PruneDockerBuilders,
    PruneBuildx,
    PruneSystem,
    Deploy,
    PullDeployment,
    StartDeployment,
    RestartDeployment,
    PauseDeployment,
    UnpauseDeployment,
    StopDeployment,
    DestroyDeployment,
    RunBuild,
    CancelBuild,
    CloneRepo,
    PullRepo,
    BuildRepo,
    CancelRepoBuild,
    RunProcedure,
    RunAction,
    RunSync,
    RunStackService,
    TestAlerter,
    BatchDeploy,
    BatchDestroyDeployment,
    BatchRunBuild,
    BatchCloneRepo,
    BatchPullRepo,
    BatchBuildRepo,
    BatchRunProcedure,
    BatchRunAction,
    BatchDeployStack,
    BatchDeployStackIfChanged,
    BatchPullStack,
    BatchDestroyStack,
    DeployStack,
    PullStack,
    StartStack,
    RestartStack,
    PauseStack,
    UnpauseStack,
    StopStack,
    DestroyStack,
    DeployStackIfChanged,
    SendAlert,
    ClearRepoCache,
    BackupCoreDatabase,
    GlobalAutoUpdate,
    RotateAllServerKeys,
    RotateCoreKeys,
}

/// How the update of an execution request starts: skipped for batch
/// requests; system requests target the system; others target the
/// resource they name, looked up by id or name, and are recorded
/// (except a deploy of a stack only if changed). A stack request on
/// some of its services records the service operation.
pub open spec fn update_plan_spec(kind: ExecuteRequestKind, has_services: bool) -> UpdatePlan {
    match kind {
        ExecuteRequestKind::RemoveSwarmNodes => UpdatePlan::Lookup { operation: Operation::RemoveSwarmNodes, variant: ResourceTargetVariant::Swarm, record: true },
        ExecuteRequestKind::UpdateSwarmNode => UpdatePlan::Lookup { operation: Operation::UpdateSwarmNode, variant: ResourceTargetVariant::Swarm, record: true },
        ExecuteRequestKind::RemoveSwarmStacks => UpdatePlan::Lookup { operation: Operation::RemoveSwarmStacks, variant: ResourceTargetVariant::Swarm, record: true },
        ExecuteRequestKind::RemoveSwarmServices => UpdatePlan::Lookup { operation: Operation::RemoveSwarmServices, variant: ResourceTargetVariant::Swarm, record: true },
        ExecuteRequestKind::CreateSwarmConfig => UpdatePlan::Lookup { operation: Operation::CreateSwarmConfig, variant: ResourceTargetVariant::Swarm, record: true },
        ExecuteRequestKind::RotateSwarmConfig => UpdatePlan::Lookup { operation: Operation::RotateSwarmConfig, variant: ResourceTargetVariant::Swarm, record: true },
        ExecuteRequestKind::RemoveSwarmConfigs => UpdatePlan::Lookup { operation: Operation::RemoveSwarmConfigs, variant: ResourceTargetVariant::Swarm, record: true },
        ExecuteRequestKind::CreateSwarmSecret => UpdatePlan::Lookup { operation: Operation::CreateSwarmSecret, variant: ResourceTargetVariant::Swarm, record: true },
        ExecuteRequestKind::RotateSwarmSecret => UpdatePlan::Lookup { operation: Operation::RotateSwarmSecret, variant: ResourceTargetVariant::Swarm, record: true },
        ExecuteRequestKind::RemoveSwarmSecrets => UpdatePlan::Lookup { operation: Operation::RemoveSwarmSecrets, variant: ResourceTargetVariant::Swarm, record: true },
        ExecuteRequestKind::StartContainer => UpdatePlan::Lookup { operation: Operation::StartContainer, variant: ResourceTargetVariant::Server, record: true },
        ExecuteRequestKind::RestartContainer => UpdatePlan::Lookup { operation: Operation::RestartContainer, variant: ResourceTargetVariant::Server, record: true },
        ExecuteRequestKind::PauseContainer => UpdatePlan::Lookup { operation: Operation::PauseContainer, variant: ResourceTargetVariant::Server, record: true },
        ExecuteRequestKind::UnpauseContainer => UpdatePlan::Lookup { operation: Operation::UnpauseContainer, variant: ResourceTargetVariant::Server, record: true },
        ExecuteRequestKind::StopContainer => UpdatePlan::Lookup { operation: Operation::StopContainer, variant: ResourceTargetVariant::Server, record: true },
        ExecuteRequestKind::DestroyContainer => UpdatePlan::Lookup { operation: Operation::DestroyContainer, variant: ResourceTargetVariant::Server, record: true },
        ExecuteRequestKind::StartAllContainers => UpdatePlan::Lookup { operation: Operation::StartAllContainers, variant: ResourceTargetVariant::Server, record: true },
        ExecuteRequestKind::RestartAllContainers => UpdatePlan::Lookup { operation: Operation::RestartAllContainers, variant: ResourceTargetVariant::Server, record: true },
        ExecuteRequestKind::PauseAllContainers => UpdatePlan::Lookup { operation: Operation::PauseAllContainers, variant: ResourceTargetVariant::Server, record: true },
        ExecuteRequestKind::UnpauseAllContainers => UpdatePlan::Lookup { operation: Operation::UnpauseAllContainers, variant: ResourceTargetVariant::Server, record: true },
        ExecuteRequestKind::StopAllContainers => UpdatePlan::Lookup { operation: Operation::StopAllContainers, variant: ResourceTargetVariant::Server, record: true },
        ExecuteRequestKind::PruneContainers => UpdatePlan::Lookup { operation: Operation::PruneContainers, variant: ResourceTargetVariant::Server, record: true },
        ExecuteRequestKind::DeleteNetwork => UpdatePlan::Lookup { operation: Operation::DeleteNetwork, variant: ResourceTargetVariant::Server, record: true },
        ExecuteRequestKind::PruneNetworks => UpdatePlan::Lookup { operation: Operation::PruneNetworks, variant: ResourceTargetVariant::Server, record: true },
        ExecuteRequestKind::DeleteImage => UpdatePlan::Lookup { operation: Operation::DeleteImage, variant: ResourceTargetVariant::Server, record: true },
        ExecuteRequestKind::PruneImages => UpdatePlan::Lookup { operation: Operation::PruneImages, variant: ResourceTargetVariant::Server, record: true },
        ExecuteRequestKind::DeleteVolume => UpdatePlan::Lookup { operation: Operation::DeleteVolume, variant: ResourceTargetVariant::Server, record: true },
        ExecuteRequestKind::PruneVolumes => UpdatePlan::Lookup { operation: Operation::PruneVolumes, variant: ResourceTargetVariant::Server, record: true },
        ExecuteRequestKind::PruneDockerBuilders => UpdatePlan::Lookup { operation: Operation::PruneDockerBuilders, variant: ResourceTargetVariant::Server, record: true },
        ExecuteRequestKind::PruneBuildx => UpdatePlan::Lookup { operation: Operation::PruneBuildx, variant: ResourceTargetVariant::Server, record: true },
        ExecuteRequestKind::PruneSystem => UpdatePlan::Lookup { operation: Operation::PruneSystem, variant: ResourceTargetVariant::Server, record: true },
        ExecuteRequestKind::Deploy => UpdatePlan::Lookup { operation: Operation::Deploy, variant: ResourceTargetVariant::Deployment, record: true },
        ExecuteRequestKind::PullDeployment => UpdatePlan::Lookup { operation: Operation::PullDeployment, variant: ResourceTargetVariant::Deployment, record: true },
        ExecuteRequestKind::StartDeployment => UpdatePlan::Lookup { operation: Operation::StartDeployment, variant: ResourceTargetVariant::Deployment, record: true },
        ExecuteRequestKind::RestartDeployment => UpdatePlan::Lookup { operation: Operation::RestartDeployment, variant: ResourceTargetVariant::Deployment, record: true },
        ExecuteRequestKind::PauseDeployment => UpdatePlan::Lookup { operation: Operation::PauseDeployment, variant: ResourceTargetVariant::Deployment, record: true },
        ExecuteRequestKind::UnpauseDeployment => UpdatePlan::Lookup { operation: Operation::UnpauseDeployment, variant: ResourceTargetVariant::Deployment, record: true },
        ExecuteRequestKind::StopDeployment => UpdatePlan::Lookup { operation: Operation::StopDeployment, variant: ResourceTargetVariant::Deployment, record: true },
        ExecuteRequestKind::DestroyDeployment => UpdatePlan::Lookup { operation: Operation::DestroyDeployment, variant: ResourceTargetVariant::Deployment, record: true },
        ExecuteRequestKind::RunBuild => UpdatePlan::Lookup { operation: Operation::RunBuild, variant: ResourceTargetVariant::Build, record: true },
        ExecuteRequestKind::CancelBuild => UpdatePlan::Lookup { operation: Operation::CancelBuild, variant: ResourceTargetVariant::Build, record: true },
        ExecuteRequestKind::CloneRepo => UpdatePlan::Lookup { operation: Operation::CloneRepo, variant: ResourceTargetVariant::Repo, record: true },
        ExecuteRequestKind::PullRepo => UpdatePlan::Lookup { operation: Operation::PullRepo, variant: ResourceTargetVariant::Repo, record: true },
        ExecuteRequestKind::BuildRepo => UpdatePlan::Lookup { operation: Operation::BuildRepo, variant: ResourceTargetVariant::Repo, record: true },
        ExecuteRequestKind::CancelRepoBuild => UpdatePlan::Lookup { operation: Operation::CancelRepoBuild, variant: ResourceTargetVariant::Repo, record: true },
        ExecuteRequestKind::RunProcedure => UpdatePlan::Lookup { operation: Operation::RunProcedure, variant: ResourceTargetVariant::Procedure, record: true },
        ExecuteRequestKind::RunAction => UpdatePlan::Lookup { operation: Operation::RunAction, variant: ResourceTargetVariant::Action, record: true },
        ExecuteRequestKind::RunSync => UpdatePlan::Lookup { operation: Operation::RunSync, variant: ResourceTargetVariant::ResourceSync, record: true },
        ExecuteRequestKind::RunStackService => UpdatePlan::Lookup { operation: Operation::RunStackService, variant: ResourceTargetVariant::Stack, record: true },
        ExecuteRequestKind::TestAlerter => UpdatePlan::Lookup { operation: Operation::TestAlerter, variant: ResourceTargetVariant::Alerter, record: true },
        ExecuteRequestKind::BatchDeploy => UpdatePlan::Skip,
        ExecuteRequestKind::BatchDestroyDeployment => UpdatePlan::Skip,
        ExecuteRequestKind::BatchRunBuild => UpdatePlan::Skip,
        ExecuteRequestKind::BatchCloneRepo => UpdatePlan::Skip,
        ExecuteRequestKind::BatchPullRepo => UpdatePlan::Skip,
        ExecuteRequestKind::BatchBuildRepo => UpdatePlan::Skip,
        ExecuteRequestKind::BatchRunProcedure => UpdatePlan::Skip,
        ExecuteRequestKind::BatchRunAction => UpdatePlan::Skip,
        ExecuteRequestKind::BatchDeployStack => UpdatePlan::Skip,
        ExecuteRequestKind::BatchDeployStackIfChanged => UpdatePlan::Skip,
        ExecuteRequestKind::BatchPullStack => UpdatePlan::Skip,
        ExecuteRequestKind::BatchDestroyStack => UpdatePlan::Skip,
        ExecuteRequestKind::DeployStack => UpdatePlan::Lookup { operation: if has_services { Operation::DeployStackService } else { Operation::DeployStack }, variant: ResourceTargetVariant::Stack, record: true },
        ExecuteRequestKind::PullStack => UpdatePlan::Lookup { operation: if has_services { Operation::PullStackService } else { Operation::PullStack }, variant: ResourceTargetVariant::Stack, record: true },
        ExecuteRequestKind::StartStack => UpdatePlan::Lookup { operation: if has_services { Operation::StartStackService } else { Operation::StartStack }, variant: ResourceTargetVariant::Stack, record: true },
        ExecuteRequestKind::RestartStack => UpdatePlan::Lookup { operation: if has_services { Operation::RestartStackService } else { Operation::RestartStack }, variant: ResourceTargetVariant::Stack, record: true },
        ExecuteRequestKind::PauseStack => UpdatePlan::Lookup { operation: if has_services { Operation::PauseStackService } else { Operation::PauseStack }, variant: ResourceTargetVariant::Stack, record: true },
        ExecuteRequestKind::UnpauseStack => UpdatePlan::Lookup { operation: if has_services { Operation::UnpauseStackService } else { Operation::UnpauseStack }, variant: ResourceTargetVariant::Stack, record: true },
        ExecuteRequestKind::StopStack => UpdatePlan::Lookup { operation: if has_services { Operation::StopStackService } else { Operation::StopStack }, variant: ResourceTargetVariant::Stack, record: true },
        ExecuteRequestKind::DestroyStack => UpdatePlan::Lookup { operation: if has_services { Operation::DestroyStackService } else { Operation::DestroyStack }, variant: ResourceTargetVariant::Stack, record: true },
        ExecuteRequestKind::DeployStackIfChanged => UpdatePlan::Lookup { operation: Operation::DeployStack, variant: ResourceTargetVariant::Stack, record: false },
        ExecuteRequestKind::SendAlert => UpdatePlan::System { operation: Operation::SendAlert },
        ExecuteRequestKind::ClearRepoCache => UpdatePlan::System { operation: Operation::ClearRepoCache },
        ExecuteRequestKind::BackupCoreDatabase => UpdatePlan::System { operation: Operation::BackupCoreDatabase },
        ExecuteRequestKind::GlobalAutoUpdate => UpdatePlan::System { operation: Operation::GlobalAutoUpdate },
        ExecuteRequestKind::RotateAllServerKeys => UpdatePlan::System { operation: Operation::RotateAllServerKeys },
        ExecuteRequestKind::RotateCoreKeys => UpdatePlan::System { operation: Operation::RotateCoreKeys },
    }
}

/// How the update of an execution request starts (see [update_plan_spec]).
pub fn init_execution_update(kind: ExecuteRequestKind, has_services: bool) -> (plan: UpdatePlan)
    ensures
        plan == update_plan_spec(kind, has_services),
{
    match kind {
        ExecuteRequestKind::RemoveSwarmNodes => UpdatePlan::Lookup { operation: Operation::RemoveSwarmNodes, variant: ResourceTargetVariant::Swarm, record: true },
        ExecuteRequestKind::UpdateSwarmNode => UpdatePlan::Lookup { operation: Operation::UpdateSwarmNode, variant: ResourceTargetVariant::Swarm, record: true },
        ExecuteRequestKind::RemoveSwarmStacks => UpdatePlan::Lookup { operation: Operation::RemoveSwarmStacks, variant: ResourceTargetVariant::Swarm, record: true },
        ExecuteRequestKind::RemoveSwarmServices => UpdatePlan::Lookup { operation: Operation::RemoveSwarmServices, variant: ResourceTargetVariant::Swarm, record: true },
        ExecuteRequestKind::CreateSwarmConfig => UpdatePlan::Lookup { operation: Operation::CreateSwarmConfig, variant: ResourceTargetVariant::Swarm, record: true },
        ExecuteRequestKind::RotateSwarmConfig => UpdatePlan::Lookup { operation: Operation::RotateSwarmConfig, variant: ResourceTargetVariant::Swarm, record: true },
        ExecuteRequestKind::RemoveSwarmConfigs => UpdatePlan::Lookup { operation: Operation::RemoveSwarmConfigs, variant: ResourceTargetVariant::Swarm, record: true },
        ExecuteRequestKind::CreateSwarmSecret => UpdatePlan::Lookup { operation: Operation::CreateSwarmSecret, variant: ResourceTargetVariant::Swarm, record: true },
        ExecuteRequestKind::RotateSwarmSecret => UpdatePlan::Lookup { operation: Operation::RotateSwarmSecret, variant: ResourceTargetVariant::Swarm, record: true },
        ExecuteRequestKind::RemoveSwarmSecrets => UpdatePlan::Lookup { operation: Operation::RemoveSwarmSecrets, variant: ResourceTargetVariant::Swarm, record: true },
        ExecuteRequestKind::StartContainer => UpdatePlan::Lookup { operation: Operation::StartContainer, variant: ResourceTargetVariant::Server, record: true },
        ExecuteRequestKind::RestartContainer => UpdatePlan::Lookup { operation: Operation::RestartContainer, variant: ResourceTargetVariant::Server, record: true },
        ExecuteRequestKind::PauseContainer => UpdatePlan::Lookup { operation: Operation::PauseContainer, variant: ResourceTargetVariant::Server, record: true },
        ExecuteRequestKind::UnpauseContainer => UpdatePlan::Lookup { operation: Operation::UnpauseContainer, variant: ResourceTargetVariant::Server, record: true },
        ExecuteRequestKind::StopContainer => UpdatePlan::Lookup { operation: Operation::StopContainer, variant: ResourceTargetVariant::Server, record: true },
        ExecuteRequestKind::DestroyContainer => UpdatePlan::Lookup { operation: Operation::DestroyContainer, variant: ResourceTargetVariant::Server, record: true },
        ExecuteRequestKind::StartAllContainers => UpdatePlan::Lookup { operation: Operation::StartAllContainers, variant: ResourceTargetVariant::Server, record: true },
        ExecuteRequestKind::RestartAllContainers => UpdatePlan::Lookup { operation: Operation::RestartAllContainers, variant: ResourceTargetVariant::Server, record: true },
        ExecuteRequestKind::PauseAllContainers => UpdatePlan::Lookup { operation: Operation::PauseAllContainers, variant: ResourceTargetVariant::Server, record: true },
        ExecuteRequestKind::UnpauseAllContainers => UpdatePlan::Lookup { operation: Operation::UnpauseAllContainers, variant: ResourceTargetVariant::Server, record: true },
        ExecuteRequestKind::StopAllContainers => UpdatePlan::Lookup { operation: Operation::StopAllContainers, variant: ResourceTargetVariant::Server, record: true },
        ExecuteRequestKind::PruneContainers => UpdatePlan::Lookup { operation: Operation::PruneContainers, variant: ResourceTargetVariant::Server, record: true },
        ExecuteRequestKind::DeleteNetwork => UpdatePlan::Lookup { operation: Operation::DeleteNetwork, variant: ResourceTargetVariant::Server, record: true },
        ExecuteRequestKind::PruneNetworks => UpdatePlan::Lookup { operation: Operation::PruneNetworks, variant: ResourceTargetVariant::Server, record: true },
        ExecuteRequestKind::DeleteImage => UpdatePlan::Lookup { operation: Operation::DeleteImage, variant: ResourceTargetVariant::Server, record: true },
        ExecuteRequestKind::PruneImages => UpdatePlan::Lookup { operation: Operation::PruneImages, variant: ResourceTargetVariant::Server, record: true },
        ExecuteRequestKind::DeleteVolume => UpdatePlan::Lookup { operation: Operation::DeleteVolume, variant: ResourceTargetVariant::Server, record: true },
        ExecuteRequestKind::PruneVolumes => UpdatePlan::Lookup { operation: Operation::PruneVolumes, variant: ResourceTargetVariant::Server, record: true },
        ExecuteRequestKind::PruneDockerBuilders => UpdatePlan::Lookup { operation: Operation::PruneDockerBuilders, variant: ResourceTargetVariant::Server, record: true },
        ExecuteRequestKind::PruneBuildx => UpdatePlan::Lookup { operation: Operation::PruneBuildx, variant: ResourceTargetVariant::Server, record: true },
        ExecuteRequestKind::PruneSystem => UpdatePlan::Lookup { operation: Operation::PruneSystem, variant: ResourceTargetVariant::Server, record: true },
        ExecuteRequestKind::Deploy => UpdatePlan::Lookup { operation: Operation::Deploy, variant: ResourceTargetVariant::Deployment, record: true },
        ExecuteRequestKind::PullDeployment => UpdatePlan::Lookup { operation: Operation::PullDeployment, variant: ResourceTargetVariant::Deployment, record: true },
        ExecuteRequestKind::StartDeployment => UpdatePlan::Lookup { operation: Operation::StartDeployment, variant: ResourceTargetVariant::Deployment, record: true },
        ExecuteRequestKind::RestartDeployment => UpdatePlan::Lookup { operation: Operation::RestartDeployment, variant: ResourceTargetVariant::Deployment, record: true },
        ExecuteRequestKind::PauseDeployment => UpdatePlan::Lookup { operation: Operation::PauseDeployment, variant: ResourceTargetVariant::Deployment, record: true },
        ExecuteRequestKind::UnpauseDeployment => UpdatePlan::Lookup { operation: Operation::UnpauseDeployment, variant: ResourceTargetVariant::Deployment, record: true },
        ExecuteRequestKind::StopDeployment => UpdatePlan::Lookup { operation: Operation::StopDeployment, variant: ResourceTargetVariant::Deployment, record: true },
        ExecuteRequestKind::DestroyDeployment => UpdatePlan::Lookup { operation: Operation::DestroyDeployment, variant: ResourceTargetVariant::Deployment, record: true },
        ExecuteRequestKind::RunBuild => UpdatePlan::Lookup { operation: Operation::RunBuild, variant: ResourceTargetVariant::Build, record: true },
        ExecuteRequestKind::CancelBuild => UpdatePlan::Lookup { operation: Operation::CancelBuild, variant: ResourceTargetVariant::Build, record: true },
        ExecuteRequestKind::CloneRepo => UpdatePlan::Lookup { operation: Operation::CloneRepo, variant: ResourceTargetVariant::Repo, record: true },
        ExecuteRequestKind::PullRepo => UpdatePlan::Lookup { operation: Operation::PullRepo, variant: ResourceTargetVariant::Repo, record: true },
        ExecuteRequestKind::BuildRepo => UpdatePlan::Lookup { operation: Operation::BuildRepo, variant: ResourceTargetVariant::Repo, record: true },
        ExecuteRequestKind::CancelRepoBuild => UpdatePlan::Lookup { operation: Operation::CancelRepoBuild, variant: ResourceTargetVariant::Repo, record: true },
        ExecuteRequestKind::RunProcedure => UpdatePlan::Lookup { operation: Operation::RunProcedure, variant: ResourceTargetVariant::Procedure, record: true },
        ExecuteRequestKind::RunAction => UpdatePlan::Lookup { operation: Operation::RunAction, variant: ResourceTargetVariant::Action, record: true },
        ExecuteRequestKind::RunSync => UpdatePlan::Lookup { operation: Operation::RunSync, variant: ResourceTargetVariant::ResourceSync, record: true },
        ExecuteRequestKind::RunStackService => UpdatePlan::Lookup { operation: Operation::RunStackService, variant: ResourceTargetVariant::Stack, record: true },
        ExecuteRequestKind::TestAlerter => UpdatePlan::Lookup { operation: Operation::TestAlerter, variant: ResourceTargetVariant::Alerter, record: true },
        ExecuteRequestKind::BatchDeploy => UpdatePlan::Skip,
        ExecuteRequestKind::BatchDestroyDeployment => UpdatePlan::Skip,
        ExecuteRequestKind::BatchRunBuild => UpdatePlan::Skip,
        ExecuteRequestKind::BatchCloneRepo => UpdatePlan::Skip,
        ExecuteRequestKind::BatchPullRepo => UpdatePlan::Skip,
        ExecuteRequestKind::BatchBuildRepo => UpdatePlan::Skip,
        ExecuteRequestKind::BatchRunProcedure => UpdatePlan::Skip,
        ExecuteRequestKind::BatchRunAction => UpdatePlan::Skip,
        ExecuteRequestKind::BatchDeployStack => UpdatePlan::Skip,
        ExecuteRequestKind::BatchDeployStackIfChanged => UpdatePlan::Skip,
        ExecuteRequestKind::BatchPullStack => UpdatePlan::Skip,
        ExecuteRequestKind::BatchDestroyStack => UpdatePlan::Skip,
        ExecuteRequestKind::DeployStack => UpdatePlan::Lookup { operation: if has_services { Operation::DeployStackService } else { Operation::DeployStack }, variant: ResourceTargetVariant::Stack, record: true },
        ExecuteRequestKind::PullStack => UpdatePlan::Lookup { operation: if has_services { Operation::PullStackService } else { Operation::PullStack }, variant: ResourceTargetVariant::Stack, record: true },
        ExecuteRequestKind::StartStack => UpdatePlan::Lookup { operation: if has_services { Operation::StartStackService } else { Operation::StartStack }, variant: ResourceTargetVariant::Stack, record: true },
        ExecuteRequestKind::RestartStack => UpdatePlan::Lookup { operation: if has_services { Operation::RestartStackService } else { Operation::RestartStack }, variant: ResourceTargetVariant::Stack, record: true },
        ExecuteRequestKind::PauseStack => UpdatePlan::Lookup { operation: if has_services { Operation::PauseStackService } else { Operation::PauseStack }, variant: ResourceTargetVariant::Stack, record: true },
        ExecuteRequestKind::UnpauseStack => UpdatePlan::Lookup { operation: if has_services { Operation::UnpauseStackService } else { Operation::UnpauseStack }, variant: ResourceTargetVariant::Stack, record: true },
        ExecuteRequestKind::StopStack => UpdatePlan::Lookup { operation: if has_services { Operation::StopStackService } else { Operation::StopStack }, variant: ResourceTargetVariant::Stack, record: true },
        ExecuteRequestKind::DestroyStack => UpdatePlan::Lookup { operation: if has_services { Operation::DestroyStackService } else { Operation::DestroyStack }, variant: ResourceTargetVariant::Stack, record: true },
        ExecuteRequestKind::DeployStackIfChanged => UpdatePlan::Lookup { operation: Operation::DeployStack, variant: ResourceTargetVariant::Stack, record: false },
        ExecuteRequestKind::SendAlert => UpdatePlan::System { operation: Operation::SendAlert },
        ExecuteRequestKind::ClearRepoCache => UpdatePlan::System { operation: Operation::ClearRepoCache },
        ExecuteRequestKind::BackupCoreDatabase => UpdatePlan::System { operation: Operation::BackupCoreDatabase },
        ExecuteRequestKind::GlobalAutoUpdate => UpdatePlan::System { operation: Operation::GlobalAutoUpdate },
        ExecuteRequestKind::RotateAllServerKeys => UpdatePlan::System { operation: Operation::RotateAllServerKeys },
        ExecuteRequestKind::RotateCoreKeys => UpdatePlan::System { operation: Operation::RotateCoreKeys },
    }
}

/// How the update of an execution request starts.
#[derive(Clone, Copy, Debug, PartialEq, Eq, Structural)]
pub enum UpdatePlan {
    /// Batch requests start no update of their own.
    Skip,
    /// The update targets the named resource once it is looked up;
    /// `record` says whether the update is stored right away.
    Lookup { operation: Operation, variant: ResourceTargetVariant, record: bool },
    /// The update targets the system.
    System { operation: Operation },
}

/// Where an update stands.
#[derive(Clone, Copy, Debug, PartialEq, Eq, Hash, Structural)]
pub enum UpdateStatus {
    Queued,
    InProgress,
    Complete,
}

/// The record of an operation on a resource.
#[derive(Debug)]
pub struct Update {
    /// The id given by the database; empty until stored.
    pub id: String,
    pub operation: Operation,
    pub start_ts: i64,
    pub end_ts: Option<i64>,
    pub success: bool,
    /// The id of the user who started the operation.
    pub operator: String,
    pub target: ResourceTarget,
    pub status: UpdateStatus,
    pub logs: Vec<Log>,
}

/// One stage of an operation's log.
#[derive(Debug)]
pub struct Log {
    pub stage: String,
    pub command: String,
    pub stdout: String,
    pub stderr: String,
    pub success: bool,
    pub start_ts: i64,
    pub end_ts: i64,
}

/// Whether every stage succeeded.
pub open spec fn all_logs_success(logs: Seq<Log>) -> bool {
    forall|i: int| 0 <= i < logs.len() ==> (#[trigger] logs[i]).success
}

/// Whether `update` is a new update: not stored, started at
/// `start_ts` by `operator`, successful so far, queued.
pub open spec fn is_new_update(
    update: Update,
    target: ResourceTarget,
    operation: Operation,
    operator: String,
    start_ts: i64,
) -> bool {
    &&& update.id@ == Seq::<char>::empty()
    &&& update.operation == operation
    &&& update.start_ts == start_ts
    &&& update.end_ts is None
    &&& update.success
    &&& update.operator == operator
    &&& update.target == target
    &&& update.status == UpdateStatus::Queued
    &&& update.logs@.len() == 0
}

/// A new update of `operation` on `target` by the user `operator`.
pub fn make_update(target: ResourceTarget, operation: Operation, operator: String, start_ts: i64) -> (update: Update)
    ensures
        is_new_update(update, target, operation, operator, start_ts),
{
    Update {
        id: String::new(),
        operation,
        start_ts,
        end_ts: None,
        success: true,
        operator,
        target,
        status: UpdateStatus::Queued,
        logs: Vec::new(),
    }
}

impl Update {
    /// Marks the update as in progress.
    pub fn in_progress(&mut self)
        ensures
            *final(self) == (Update { status: UpdateStatus::InProgress, ..*old(self) }),
    {
        self.status = UpdateStatus::InProgress;
    }

    /// Records a successful stage with its output.
    pub fn push_simple_log(&mut self, stage: String, stdout: String, ts: i64)
        ensures
            final(self).logs@ == old(self).logs@.push(
                Log {
                    stage,
                    command: final(self).logs@.last().command,
                    stdout,
                    stderr: final(self).logs@.last().stderr,
                    success: true,
                    start_ts: ts,
                    end_ts: ts,
                },
            ),
            final(self).logs@.last().command@.len() == 0,
            final(self).logs@.last().stderr@.len() == 0,
            final(self).status == old(self).status,
            final(self).success == old(self).success,
    {
        self.logs.push(
            Log {
                stage,
                command: String::new(),
                stdout,
                stderr: String::new(),
                success: true,
                start_ts: ts,
                end_ts: ts,
            },
        );
    }

    /// Records a failed stage with its error.
    pub fn push_error_log(&mut self, stage: String, stderr: String, ts: i64)
        ensures
            final(self).logs@ == old(self).logs@.push(
                Log {
                    stage,
                    command: final(self).logs@.last().command,
                    stdout: final(self).logs@.last().stdout,
                    stderr,
                    success: false,
                    start_ts: ts,
                    end_ts: ts,
                },
            ),
            final(self).logs@.last().command@.len() == 0,
            final(self).logs@.last().stdout@.len() == 0,
            final(self).status == old(self).status,
            final(self).success == old(self).success,
    {
        self.logs.push(
            Log {
                stage,
                command: String::new(),
                stdout: String::new(),
                stderr,
                success: false,
                start_ts: ts,
                end_ts: ts,
            },
        );
    }

    /// Ends the update at `ts`: complete, and successful exactly when
    /// every stage succeeded.
    pub fn finalize(&mut self, ts: i64)
        ensures
            final(self).status == UpdateStatus::Complete,
            final(self).end_ts == Some(ts),
            final(self).success == all_logs_success(old(self).logs@),
            final(self).logs == old(self).logs,
            final(self).id == old(self).id,
            final(self).target == old(self).target,
            final(self).operation == old(self).operation,
    {
        let mut success = true;
        let mut i: usize = 0;
        while i < self.logs.len()
            invariant
                i <= self.logs.len(),
                success == (forall|j: int| 0 <= j < i ==> (#[trigger] self.logs@[j]).success),
            decreases self.logs.len() - i,
        {
            success = success && self.logs[i].success;
            i = i + 1;
        }
        self.success = success;
        self.end_ts = Some(ts);
        self.status = UpdateStatus::Complete;
    }

    /// Whether the update is complete: polling for it stops.
    pub fn is_complete(&self) -> (done: bool)
        ensures
            done == (self.status == UpdateStatus::Complete),
    {
        self.status == UpdateStatus::Complete
    }
}

/// The target of system operations.
pub fn system_target() -> (target: ResourceTarget)
    ensures
        target matches ResourceTarget::System(id) && id@ == "system"@,
{
    ResourceTarget::System("system".to_owned())
}

/// The target of a looked-up resource of the given kind.
pub fn resource_target(variant: ResourceTargetVariant, id: String) -> (target: ResourceTarget)
    ensures
        crate::target::target_parts(target) == (variant, id@),
{
    match variant {
        ResourceTargetVariant::System => ResourceTarget::System(id),
        ResourceTargetVariant::Swarm => ResourceTarget::Swarm(id),
        ResourceTargetVariant::Server => ResourceTarget::Server(id),
        ResourceTargetVariant::Stack => ResourceTarget::Stack(id),
        ResourceTargetVariant::Deployment => ResourceTarget::Deployment(id),
        ResourceTargetVariant::Build => ResourceTarget::Build(id),
        ResourceTargetVariant::Repo => ResourceTarget::Repo(id),
        ResourceTargetVariant::Procedure => ResourceTarget::Procedure(id),
        ResourceTargetVariant::Action => ResourceTarget::Action(id),
        ResourceTargetVariant::Builder => ResourceTarget::Builder(id),
        ResourceTargetVariant::Alerter => ResourceTarget::Alerter(id),
        ResourceTargetVariant::ResourceSync => ResourceTarget::ResourceSync(id),
    }
}

/// The update an execution request starts, once the resource a lookup
/// plan names is resolved to `resolved_id` (ignored for other plans):
/// none for batch requests; otherwise a new update in progress,
/// together with whether it is stored right away.
pub fn execution_update(plan: UpdatePlan, resolved_id: String, operator: String, start_ts: i64) -> (r: Option<
    (Update, bool),
>)
    ensures
        plan is Skip ==> r is None,
        plan matches UpdatePlan::Lookup { operation, variant, record } ==> (r matches Some((u, rec)) && rec
            == record && u.status == UpdateStatus::InProgress && u.id@ == Seq::<char>::empty() && u.operation
            == operation && u.start_ts == start_ts && u.end_ts is None && u.success && u.operator == operator
            && crate::target::target_parts(u.target) == (variant, resolved_id@)),
        plan matches UpdatePlan::System { operation } ==> (r matches Some((u, rec)) && rec
            && u.status == UpdateStatus::InProgress && u.id@ == Seq::<char>::empty() && u.operation == operation
            && u.start_ts == start_ts && u.end_ts is None && u.success && u.operator == operator
            && (u.target matches ResourceTarget::System(id) && id@ == "system"@)),
{
    match plan {
        UpdatePlan::Skip => None,
        UpdatePlan::Lookup { operation, variant, record } => {
            let mut update = make_update(resource_target(variant, resolved_id), operation, operator, start_ts);
            update.in_progress();
            Some((update, record))
        },
        UpdatePlan::System { operation } => {
            let mut update = make_update(system_target(), operation, operator, start_ts);
            update.in_progress();
            Some((update, true))
        },
    }
}

/// An update with a failed stage is not successful once finalized:
/// not every stage of its log succeeded.
pub proof fn law_failed_stage_fails_update(logs: Seq<Log>, i: int)
    requires
        0 <= i < logs.len(),
        !logs[i].success,
    ensures
        !all_logs_success(logs),
{
}

/// The procedure execution that makes the same request.
pub open spec fn request_execution(kind: ExecuteRequestKind) -> ExecutionKind {
    match kind {
        ExecuteRequestKind::RemoveSwarmNodes => ExecutionKind::RemoveSwarmNodes,
        ExecuteRequestKind::UpdateSwarmNode => ExecutionKind::UpdateSwarmNode,
        ExecuteRequestKind::RemoveSwarmStacks => ExecutionKind::RemoveSwarmStacks,
        ExecuteRequestKind::RemoveSwarmServices => ExecutionKind::RemoveSwarmServices,
        ExecuteRequestKind::CreateSwarmConfig => ExecutionKind::CreateSwarmConfig,
        ExecuteRequestKind::RotateSwarmConfig => ExecutionKind::RotateSwarmConfig,
        ExecuteRequestKind::RemoveSwarmConfigs => ExecutionKind::RemoveSwarmConfigs,
        ExecuteRequestKind::CreateSwarmSecret => ExecutionKind::CreateSwarmSecret,
        ExecuteRequestKind::RotateSwarmSecret => ExecutionKind::RotateSwarmSecret,
        ExecuteRequestKind::RemoveSwarmSecrets => ExecutionKind::RemoveSwarmSecrets,
        ExecuteRequestKind::StartContainer => ExecutionKind::StartContainer,
        ExecuteRequestKind::RestartContainer => ExecutionKind::RestartContainer,
        ExecuteRequestKind::PauseContainer => ExecutionKind::PauseContainer,
        ExecuteRequestKind::UnpauseContainer => ExecutionKind::UnpauseContainer,
        ExecuteRequestKind::StopContainer => ExecutionKind::StopContainer,
        ExecuteRequestKind::DestroyContainer => ExecutionKind::DestroyContainer,
        ExecuteRequestKind::StartAllContainers => ExecutionKind::StartAllContainers,
        ExecuteRequestKind::RestartAllContainers => ExecutionKind::RestartAllContainers,
        ExecuteRequestKind::PauseAllContainers => ExecutionKind::PauseAllContainers,
        ExecuteRequestKind::UnpauseAllContainers => ExecutionKind::UnpauseAllContainers,
        ExecuteRequestKind::StopAllContainers => ExecutionKind::StopAllContainers,
        ExecuteRequestKind::PruneContainers => ExecutionKind::PruneContainers,
        ExecuteRequestKind::DeleteNetwork => ExecutionKind::DeleteNetwork,
        ExecuteRequestKind::PruneNetworks => ExecutionKind::PruneNetworks,
        ExecuteRequestKind::DeleteImage => ExecutionKind::DeleteImage,
        ExecuteRequestKind::PruneImages => ExecutionKind::PruneImages,
        ExecuteRequestKind::DeleteVolume => ExecutionKind::DeleteVolume,
        ExecuteRequestKind::PruneVolumes => ExecutionKind::PruneVolumes,
        ExecuteRequestKind::PruneDockerBuilders => ExecutionKind::PruneDockerBuilders,
        ExecuteRequestKind::PruneBuildx => ExecutionKind::PruneBuildx,
        ExecuteRequestKind::PruneSystem => ExecutionKind::PruneSystem,
        ExecuteRequestKind::Deploy => ExecutionKind::Deploy,
        ExecuteRequestKind::PullDeployment => ExecutionKind::PullDeployment,
        ExecuteRequestKind::StartDeployment => ExecutionKind::StartDeployment,
        ExecuteRequestKind::RestartDeployment => ExecutionKind::RestartDeployment,
        ExecuteRequestKind::PauseDeployment => ExecutionKind::PauseDeployment,
        ExecuteRequestKind::UnpauseDeployment => ExecutionKind::UnpauseDeployment,
        ExecuteRequestKind::StopDeployment => ExecutionKind::StopDeployment,
        ExecuteRequestKind::DestroyDeployment => ExecutionKind::DestroyDeployment,
        ExecuteRequestKind::RunBuild => ExecutionKind::RunBuild,
        ExecuteRequestKind::CancelBuild => ExecutionKind::CancelBuild,
        ExecuteRequestKind::CloneRepo => ExecutionKind::CloneRepo,
        ExecuteRequestKind::PullRepo => ExecutionKind::PullRepo,
        ExecuteRequestKind::BuildRepo => ExecutionKind::BuildRepo,
        ExecuteRequestKind::CancelRepoBuild => ExecutionKind::CancelRepoBuild,
        ExecuteRequestKind::RunProcedure => ExecutionKind::RunProcedure,
        ExecuteRequestKind::RunAction => ExecutionKind::RunAction,
        ExecuteRequestKind::RunSync => ExecutionKind::RunSync,
        ExecuteRequestKind::RunStackService => ExecutionKind::RunStackService,
        ExecuteRequestKind::TestAlerter => ExecutionKind::TestAlerter,
        ExecuteRequestKind::BatchDeploy => ExecutionKind::BatchDeploy,
        ExecuteRequestKind::BatchDestroyDeployment => ExecutionKind::BatchDestroyDeployment,
        ExecuteRequestKind::BatchRunBuild => ExecutionKind::BatchRunBuild,
        ExecuteRequestKind::BatchCloneRepo => ExecutionKind::BatchCloneRepo,
        ExecuteRequestKind::BatchPullRepo => ExecutionKind::BatchPullRepo,
        ExecuteRequestKind::BatchBuildRepo => ExecutionKind::BatchBuildRepo,
        ExecuteRequestKind::BatchRunProcedure => ExecutionKind::BatchRunProcedure,
        ExecuteRequestKind::BatchRunAction => ExecutionKind::BatchRunAction,
        ExecuteRequestKind::BatchDeployStack => ExecutionKind::BatchDeployStack,
        ExecuteRequestKind::BatchDeployStackIfChanged => ExecutionKind::BatchDeployStackIfChanged,
        ExecuteRequestKind::BatchPullStack => ExecutionKind::BatchPullStack,
        ExecuteRequestKind::BatchDestroyStack => ExecutionKind::BatchDestroyStack,
        ExecuteRequestKind::DeployStack => ExecutionKind::DeployStack,
        ExecuteRequestKind::PullStack => ExecutionKind::PullStack,
        ExecuteRequestKind::StartStack => ExecutionKind::StartStack,
        ExecuteRequestKind::RestartStack => ExecutionKind::RestartStack,
        ExecuteRequestKind::PauseStack => ExecutionKind::PauseStack,
        ExecuteRequestKind::UnpauseStack => ExecutionKind::UnpauseStack,
        ExecuteRequestKind::StopStack => ExecutionKind::StopStack,
        ExecuteRequestKind::DestroyStack => ExecutionKind::DestroyStack,
        ExecuteRequestKind::DeployStackIfChanged => ExecutionKind::DeployStackIfChanged,
        ExecuteRequestKind::SendAlert => ExecutionKind::SendAlert,
        ExecuteRequestKind::ClearRepoCache => ExecutionKind::ClearRepoCache,
        ExecuteRequestKind::BackupCoreDatabase => ExecutionKind::BackupCoreDatabase,
        ExecuteRequestKind::GlobalAutoUpdate => ExecutionKind::GlobalAutoUpdate,
        ExecuteRequestKind::RotateAllServerKeys => ExecutionKind::RotateAllServerKeys,
        ExecuteRequestKind::RotateCoreKeys => ExecutionKind::RotateCoreKeys,
    }
}

/// An execution request's update is about the resource the request acts
/// on, the same kind of resource a procedure running it is checked
/// against: batch requests start no update of their own, requests on a
/// resource look up a resource of that kind, and the update of a
/// request that only admins may make (or that sends an alert) targets
/// the system.
pub proof fn law_update_targets_the_checked_resource(kind: ExecuteRequestKind, has_services: bool)
    ensures
        update_plan_spec(kind, has_services) is Skip <==> is_batch_execution(request_execution(kind)),
        update_plan_spec(kind, has_services) is Lookup ==> lookup_target(
            execution_check_spec(request_execution(kind)),
        ) is Some,
        update_plan_spec(kind, has_services) is Lookup ==> lookup_target(
            execution_check_spec(request_execution(kind)),
        ).unwrap().0 == update_plan_spec(kind, has_services)->variant,
        update_plan_spec(kind, has_services) is System ==> (execution_check_spec(request_execution(kind)) is AdminOnly
            || request_execution(kind) == ExecutionKind::SendAlert),
{
}

} // verus!
