use komodo_core::cli::{cli_route, update_page, CliRoute};
use komodo_core::permission::PermissionLevel;
use komodo_core::procedure::{
    admin_check, check_procedure_reference, execution_check, AdminOnlyReason, ExecutionCheck, ExecutionKind,
    ProcedureConfigError,
};
use komodo_core::target::{ResourceTarget, ResourceTargetVariant};
use komodo_core::update::{
    execution_update, init_execution_update, make_update, resource_target, system_target, ExecuteRequestKind,
    Operation, UpdatePlan, UpdateStatus,
};

fn s(x: &str) -> String {
    x.to_string()
}

#[test]
fn update_plans() {
    assert_eq!(init_execution_update(ExecuteRequestKind::BatchDeploy, false), UpdatePlan::Skip);
    assert_eq!(
        init_execution_update(ExecuteRequestKind::Deploy, false),
        UpdatePlan::Lookup { operation: Operation::Deploy, variant: ResourceTargetVariant::Deployment, record: true }
    );
    assert_eq!(
        init_execution_update(ExecuteRequestKind::StartStack, true),
        UpdatePlan::Lookup { operation: Operation::StartStackService, variant: ResourceTargetVariant::Stack, record: true }
    );
    assert_eq!(
        init_execution_update(ExecuteRequestKind::StartStack, false),
        UpdatePlan::Lookup { operation: Operation::StartStack, variant: ResourceTargetVariant::Stack, record: true }
    );
    assert_eq!(
        init_execution_update(ExecuteRequestKind::DeployStackIfChanged, false),
        UpdatePlan::Lookup { operation: Operation::DeployStack, variant: ResourceTargetVariant::Stack, record: false }
    );
    assert_eq!(
        init_execution_update(ExecuteRequestKind::GlobalAutoUpdate, false),
        UpdatePlan::System { operation: Operation::GlobalAutoUpdate }
    );
}

#[test]
fn execution_updates_start_in_progress() {
    assert!(execution_update(UpdatePlan::Skip, s("x"), s("u"), 1).is_none());
    let (u, record) = execution_update(
        UpdatePlan::Lookup { operation: Operation::RunBuild, variant: ResourceTargetVariant::Build, record: true },
        s("b1"),
        s("user"),
        42,
    )
    .unwrap();
    assert!(record);
    assert_eq!(u.status, UpdateStatus::InProgress);
    assert_eq!(u.operation, Operation::RunBuild);
    assert_eq!(u.start_ts, 42);
    assert!(u.id.is_empty());
    assert!(matches!(u.target, ResourceTarget::Build(ref id) if id == "b1"));
    let (u, record) =
        execution_update(UpdatePlan::System { operation: Operation::RotateCoreKeys }, s("ignored"), s("user"), 1).unwrap();
    assert!(record);
    assert!(matches!(u.target, ResourceTarget::System(ref id) if id == "system"));
}

#[test]
fn update_lifecycle() {
    let mut u = make_update(system_target(), Operation::ClearRepoCache, s("admin"), 10);
    assert_eq!(u.status, UpdateStatus::Queued);
    assert!(u.success);
    assert!(u.end_ts.is_none());
    u.in_progress();
    assert_eq!(u.status, UpdateStatus::InProgress);
    assert!(!u.is_complete());
    u.push_simple_log(s("Clear"), s("done"), 11);
    assert_eq!(u.logs.len(), 1);
    assert_eq!(u.logs[0].stdout, "done");
    assert!(u.logs[0].command.is_empty() && u.logs[0].stderr.is_empty());
    u.finalize(12);
    assert!(u.is_complete());
    assert!(u.success);
    assert_eq!(u.end_ts, Some(12));
    u.push_error_log(s("Fail"), s("oops"), 13);
    assert!(!u.logs[1].success);
    assert_eq!(u.logs[1].stderr, "oops");
    u.finalize(14);
    assert!(!u.success);
}

#[test]
fn resource_targets() {
    assert!(matches!(resource_target(ResourceTargetVariant::Repo, s("r")), ResourceTarget::Repo(ref id) if id == "r"));
    assert!(matches!(resource_target(ResourceTargetVariant::System, s("s")), ResourceTarget::System(_)));
}

#[test]
fn execution_checks() {
    assert_eq!(
        execution_check(ExecutionKind::Deploy),
        ExecutionCheck::Permission { variant: ResourceTargetVariant::Deployment, level: PermissionLevel::Execute }
    );
    assert_eq!(
        execution_check(ExecutionKind::CommitSync),
        ExecutionCheck::Permission { variant: ResourceTargetVariant::ResourceSync, level: PermissionLevel::Write }
    );
    assert_eq!(
        execution_check(ExecutionKind::BatchDeploy),
        ExecutionCheck::AdminOnly { reason: AdminOnlyReason::Batch }
    );
    assert_eq!(execution_check(ExecutionKind::RunProcedure), ExecutionCheck::Procedure);
    assert_eq!(execution_check(ExecutionKind::SendAlert), ExecutionCheck::Alerters);
    assert_eq!(execution_check(ExecutionKind::Sleep), ExecutionCheck::Nothing);
}

#[test]
fn admin_only_executions() {
    let check = ExecutionCheck::AdminOnly { reason: AdminOnlyReason::ClearRepoCache };
    assert_eq!(admin_check(check, true), Ok(()));
    assert_eq!(admin_check(check, false), Err(ProcedureConfigError::AdminOnly(AdminOnlyReason::ClearRepoCache)));
    assert_eq!(admin_check(ExecutionCheck::Nothing, false), Ok(()));
    assert_eq!(AdminOnlyReason::Batch.message(), "Non admin user cannot configure Batch executions");
    assert_eq!(AdminOnlyReason::RotateCoreKeys.message(), "Non admin user cannot trigger rotate core keys");
}

#[test]
fn self_referential_procedure() {
    assert_eq!(check_procedure_reference("p1", Some("p1")), Err(ProcedureConfigError::SelfReferential));
    assert_eq!(check_procedure_reference("p2", Some("p1")), Ok(()));
    assert_eq!(check_procedure_reference("p1", None), Ok(()));
}

#[test]
fn cli_routes() {
    assert_eq!(cli_route(ExecutionKind::NoExecution), CliRoute::DoNothing);
    assert_eq!(cli_route(ExecutionKind::Sleep), CliRoute::Sleep);
    assert_eq!(cli_route(ExecutionKind::CommitSync), CliRoute::Write);
    assert_eq!(cli_route(ExecutionKind::BatchDeploy), CliRoute::Batch);
    assert_eq!(cli_route(ExecutionKind::Deploy), CliRoute::Execute);
    assert_eq!(update_page("https://k.example", "u1"), Some(s("https://k.example/updates/u1")));
    assert_eq!(update_page("https://k.example", ""), None);
}
