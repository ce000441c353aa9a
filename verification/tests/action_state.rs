use komodo_core::action_state::{
    ActionFlags, ActionState, ActionStateError, DeploymentActionState, RunningActionState, ServerActionState,
    StackActionState,
};

fn deploying(mut s: DeploymentActionState) -> DeploymentActionState {
    s.deploying = true;
    s
}

#[test]
fn new_state_is_idle() {
    let a: ActionState<DeploymentActionState> = ActionState::new();
    assert!(!a.busy());
    assert_eq!(a.get(), DeploymentActionState::idle());
    assert!(!StackActionState::idle().busy());
    assert!(!ServerActionState::idle().busy());
    assert!(!RunningActionState::idle().busy());
}

#[test]
fn second_update_refused_while_busy() {
    let mut a: ActionState<DeploymentActionState> = ActionState::new();
    let guard = a.update(deploying);
    assert!(guard.is_ok());
    assert!(a.busy());
    assert!(a.get().deploying);
    let second = a.update(deploying);
    assert!(matches!(second, Err(ActionStateError::Busy)));
    // The refused update left the flags as they were.
    assert!(a.get().deploying);
    a.release(guard.ok().unwrap());
    assert!(!a.busy());
    assert!(a.update(deploying).is_ok());
}

#[test]
fn custom_update_applies_return_fn() {
    let mut a: ActionState<RunningActionState> = ActionState::new();
    let g = a.update_custom(|_| RunningActionState { running: true }, |s| s, true);
    assert!(a.busy());
    // The return function keeps the flags as they are.
    a.release(g.ok().unwrap());
    assert!(a.busy());
    // A checked custom update is now refused, an unchecked one accepted.
    assert!(matches!(
        a.update_custom(|s| s, |_| RunningActionState { running: false }, true),
        Err(ActionStateError::Busy)
    ));
    let g = a.update_custom(|s| s, |_| RunningActionState { running: false }, false);
    assert!(g.is_ok());
    a.release(g.ok().unwrap());
    assert!(!a.busy());
}

#[test]
fn busy_flags_each_count() {
    let mut s = ServerActionState::idle();
    s.pruning_images = true;
    assert!(s.busy());
    let mut t = StackActionState::idle();
    t.stopping = true;
    assert!(t.busy());
    let mut d = DeploymentActionState::idle();
    d.renaming = true;
    assert!(d.busy());
}

#[test]
fn busy_error_message() {
    assert_eq!(ActionStateError::Busy.message(), "Resource is busy");
}

#[test]
fn guard_release_keeps_then_frees() {
    let mut a: ActionState<DeploymentActionState> = ActionState::new();
    let g = a.update(deploying).ok().unwrap();
    let pulling = |mut s: DeploymentActionState| {
        s.pulling = true;
        s
    };
    assert!(a.update(pulling).is_err());
    assert!(a.get().deploying);
    assert!(!a.get().pulling);
    a.release(g);
    assert!(!a.busy());
    assert_eq!(a.get(), DeploymentActionState::idle());
    assert!(a.update(pulling).is_ok());
}
