use komodo_core::procedure::{
    AdminOnlyReason, ConfigWalk, ExecutionKind, ProcedureConfigError, ProcedureExecution, ResourceLookup,
};
use komodo_core::permission::PermissionLevel;
use komodo_core::target::ResourceTargetVariant;

fn e(kind: ExecutionKind, targets: &[&str]) -> ProcedureExecution {
    ProcedureExecution { kind, targets: targets.iter().map(|t| t.to_string()).collect() }
}

fn ids_for(lookups: &[ResourceLookup]) -> Vec<String> {
    lookups.iter().map(|l| format!("id-{}", l.name)).collect()
}

#[test]
fn every_execution_rewritten_to_ids() {
    let stages = vec![
        vec![e(ExecutionKind::Deploy, &["web"]), e(ExecutionKind::RunProcedure, &["other"])],
        vec![],
        vec![e(ExecutionKind::CommitSync, &["sync"])],
        vec![e(ExecutionKind::SendAlert, &["a1", "a2"]), e(ExecutionKind::Sleep, &[])],
    ];
    let mut walk = ConfigWalk::new(stages);
    let mut seen = Vec::new();
    while !walk.is_finished() {
        let lookups = walk.lookups(false).unwrap();
        for l in &lookups {
            seen.push((l.variant, l.level, l.name.clone()));
        }
        walk.resolved(Some("me"), ids_for(&lookups)).unwrap();
    }
    assert_eq!(
        seen,
        vec![
            (ResourceTargetVariant::Deployment, PermissionLevel::Execute, "web".to_string()),
            (ResourceTargetVariant::Procedure, PermissionLevel::Execute, "other".to_string()),
            (ResourceTargetVariant::ResourceSync, PermissionLevel::Write, "sync".to_string()),
            (ResourceTargetVariant::Alerter, PermissionLevel::Execute, "a1".to_string()),
            (ResourceTargetVariant::Alerter, PermissionLevel::Execute, "a2".to_string()),
        ]
    );
    let stages = walk.stages;
    assert_eq!(stages[0][0].targets, vec!["id-web".to_string()]);
    assert_eq!(stages[0][1].targets, vec!["id-other".to_string()]);
    assert!(stages[1].is_empty());
    assert_eq!(stages[2][0].targets, vec!["id-sync".to_string()]);
    assert_eq!(stages[3][0].targets, vec!["id-a1".to_string(), "id-a2".to_string()]);
    assert_eq!(stages[3][1].kind, ExecutionKind::Sleep);
}

#[test]
fn self_referential_procedure_refused() {
    let mut walk = ConfigWalk::new(vec![vec![e(ExecutionKind::RunProcedure, &["mine"])]]);
    let lookups = walk.lookups(true).unwrap();
    assert_eq!(lookups.len(), 1);
    let r = walk.resolved(Some("p1"), vec!["p1".to_string()]);
    assert_eq!(r, Err(ProcedureConfigError::SelfReferential));
    assert_eq!(r.unwrap_err().message(), "Cannot have self-referential procedure");
    // Nothing moved.
    assert!(!walk.is_finished());
    assert_eq!(walk.stages[0][0].targets, vec!["mine".to_string()]);
    // While the procedure is created it has no id yet.
    assert!(walk.resolved(None, vec!["p1".to_string()]).is_ok());
    assert!(walk.is_finished());
}

#[test]
fn batch_and_admin_executions_need_admin() {
    let walk = ConfigWalk::new(vec![vec![e(ExecutionKind::BatchDeploy, &[])]]);
    let r = walk.lookups(false);
    assert!(matches!(r, Err(ProcedureConfigError::AdminOnly(AdminOnlyReason::Batch))));
    assert_eq!(
        ProcedureConfigError::AdminOnly(AdminOnlyReason::Batch).message(),
        "Non admin user cannot configure Batch executions"
    );
    assert!(walk.lookups(true).unwrap().is_empty());
    let walk = ConfigWalk::new(vec![vec![e(ExecutionKind::RotateCoreKeys, &[])]]);
    assert!(matches!(
        walk.lookups(false),
        Err(ProcedureConfigError::AdminOnly(AdminOnlyReason::RotateCoreKeys))
    ));
}

#[test]
fn empty_configuration_is_finished() {
    assert!(ConfigWalk::new(vec![]).is_finished());
    assert!(ConfigWalk::new(vec![vec![], vec![]]).is_finished());
}
