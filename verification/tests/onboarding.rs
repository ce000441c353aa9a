use komodo_core::onboarding::{
    connection_route, fix_tags, looks_like_object_id, onboarding_key_order, onboarding_private_key, repair_plan,
    validate_onboarding_key, ConnectionRoute, OnboardingKeyError, OnboardingKeyStatus, Tag,
};

fn s(x: &str) -> String {
    x.to_string()
}

#[test]
fn tags_fixed_to_names() {
    let all = vec![Tag { id: s("t1"), name: s("prod") }, Tag { id: s("t2"), name: s("web") }];
    assert_eq!(fix_tags(&vec![s("t1"), s("web"), s("missing")], &all), vec![s("prod"), s("web")]);
    assert_eq!(fix_tags(&vec![], &all), Vec::<String>::new());
}

#[test]
fn private_key_given_or_generated() {
    assert_eq!(onboarding_private_key(Some(s("mine")), "xyz"), "mine");
    assert_eq!(onboarding_private_key(None, "xyz"), "O_xyz_O");
}

#[test]
fn onboarding_key_validation() {
    let key = OnboardingKeyStatus { enabled: true, expires: 0, privileged: false };
    assert_eq!(validate_onboarding_key(&key, false, 1_000), Ok(()));
    assert_eq!(validate_onboarding_key(&key, true, 1_000), Err(OnboardingKeyError::NotPrivileged));
    let expired = OnboardingKeyStatus { enabled: true, expires: 500, privileged: true };
    assert_eq!(validate_onboarding_key(&expired, false, 500), Err(OnboardingKeyError::Invalid));
    assert_eq!(validate_onboarding_key(&expired, true, 499), Ok(()));
    let disabled = OnboardingKeyStatus { enabled: false, expires: 0, privileged: true };
    assert_eq!(validate_onboarding_key(&disabled, false, 0), Err(OnboardingKeyError::Invalid));
}

#[test]
fn object_id_shape() {
    assert!(looks_like_object_id("0123456789abcdefABCDEF01"));
    assert!(!looks_like_object_id("0123456789abcdefABCDEF0"));
    assert!(!looks_like_object_id("0123456789abcdefABCDEF0g"));
}

#[test]
fn connection_routes() {
    assert_eq!(connection_route("", true, false, true, true), ConnectionRoute::RejectEmpty);
    assert_eq!(connection_route("srv", true, true, true, true), ConnectionRoute::RejectAlreadyConnected);
    assert_eq!(connection_route("srv", true, false, true, true), ConnectionRoute::Existing);
    assert_eq!(connection_route("srv", true, false, false, true), ConnectionRoute::RepairExisting);
    assert_eq!(connection_route("srv", true, false, true, false), ConnectionRoute::RepairExisting);
    assert_eq!(connection_route("srv", false, false, false, false), ConnectionRoute::OnboardNew);
    assert_eq!(
        connection_route("0123456789abcdef01234567", false, false, false, false),
        ConnectionRoute::RejectIdShapedName
    );
}

#[test]
fn repair_plans() {
    let p = repair_plan("A", "B", true, "", "");
    assert!(p.update_public_key);
    assert!(!p.updates_config());
    let p = repair_plan("A", "A", false, "", "");
    assert!(!p.update_public_key);
    assert_eq!(p.enabled, Some(true));
    assert!(p.address.is_none() && p.external_address.is_none());
    assert!(p.updates_config());
    // An external address alone needs no repair.
    let p = repair_plan("A", "A", true, "", "ext");
    assert!(!p.updates_config());
    // The address moves to the unset external address.
    let p = repair_plan("K", "K", false, "https://10.0.0.5:8120", "");
    assert_eq!(p.enabled, Some(true));
    assert_eq!(p.address.as_deref(), Some(""));
    assert_eq!(p.external_address.as_deref(), Some("https://10.0.0.5:8120"));
    // A set external address is kept.
    let p = repair_plan("K", "K", true, "https://10.0.0.5:8120", "https://public");
    assert_eq!(p.address.as_deref(), Some(""));
    assert!(p.external_address.is_none());
}

#[test]
fn onboarding_keys_listed_never_expiring_first_then_latest() {
    let expires = vec![100, 0, 300, 100, 0, 200];
    assert_eq!(onboarding_key_order(&expires), vec![1, 4, 2, 5, 0, 3]);
    assert_eq!(onboarding_key_order(&vec![]), Vec::<usize>::new());
}
