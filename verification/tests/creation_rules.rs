use komodo_core::listing::{filter_update_available, stack_update_available};
use komodo_core::onboarding::OnboardingKey;
use komodo_core::permission::user_can_create;
use komodo_core::procedure::{procedure_state_from_last_run, ProcedureState};
use komodo_core::target::ResourceTargetVariant;

#[test]
fn procedure_state_from_runs() {
    assert_eq!(procedure_state_from_last_run(true, Some(true)), ProcedureState::Succeeded);
    assert_eq!(procedure_state_from_last_run(true, Some(false)), ProcedureState::Failed);
    assert_eq!(procedure_state_from_last_run(true, None), ProcedureState::Succeeded);
    assert_eq!(procedure_state_from_last_run(false, Some(false)), ProcedureState::Unknown);
}

#[test]
fn who_may_create() {
    assert!(user_can_create(ResourceTargetVariant::Server, true, true, false));
    assert!(user_can_create(ResourceTargetVariant::Deployment, false, false, false));
    assert!(!user_can_create(ResourceTargetVariant::Deployment, false, true, false));
    assert!(!user_can_create(ResourceTargetVariant::Server, false, false, false));
    assert!(user_can_create(ResourceTargetVariant::Server, false, false, true));
    assert!(!user_can_create(ResourceTargetVariant::Server, false, true, true));
    assert!(user_can_create(ResourceTargetVariant::Procedure, false, false, false));
}

#[test]
fn onboarded_servers_recorded() {
    let mut key = OnboardingKey {
        public_key: "pub".to_string(),
        name: "k".to_string(),
        enabled: true,
        onboarded: vec![],
        created_at: 1,
        expires: 0,
        tags: vec![],
        privileged: false,
        copy_server: String::new(),
        create_builder: false,
    };
    key.record_onboarded("s1".to_string());
    key.record_onboarded("s2".to_string());
    assert_eq!(key.onboarded, vec!["s1".to_string(), "s2".to_string()]);
    assert_eq!(key.public_key, "pub");
}

#[test]
fn listing_narrowed_to_updates() {
    let flags = vec![false, true, false, true];
    assert_eq!(filter_update_available(&flags, true), vec![1, 3]);
    assert_eq!(filter_update_available(&flags, false), vec![0, 1, 2, 3]);
    assert_eq!(filter_update_available(&vec![], true), Vec::<usize>::new());
    assert!(stack_update_available(&vec![false, false, true]));
    assert!(!stack_update_available(&vec![false, false]));
    assert!(!stack_update_available(&vec![]));
}
