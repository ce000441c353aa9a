use komodo_core::onboarding::{
    create_onboarding_key, expires_after_days, update_onboarding_key, CreateOnboardingKey, OnboardingKey,
    OnboardingKeyWriteError, Tag, UpdateOnboardingKey,
};

fn s(x: &str) -> String {
    x.to_string()
}

fn request(private_key: Option<&str>) -> CreateOnboardingKey {
    CreateOnboardingKey {
        name: s("fleet"),
        expires: 1_700_000_000_000,
        private_key: private_key.map(s),
        tags: vec![s("t1"), s("nope"), s("web")],
        privileged: true,
        copy_server: s("template"),
        create_builder: false,
    }
}

fn all_tags() -> Vec<Tag> {
    vec![Tag { id: s("t1"), name: s("prod") }, Tag { id: s("t2"), name: s("web") }]
}

fn public_of(private_key: &str) -> String {
    mogh_pki::EncodedKeyPair::from_private_key(mogh_pki::PkiKind::Mutual, private_key)
        .unwrap()
        .public()
        .to_string()
}

#[test]
fn create_with_given_private_key() {
    let private = "O_abcdefghijklmnopqrstuvwxyz12_O";
    let (key, returned) = create_onboarding_key(true, request(Some(private)), "unused", &all_tags(), 42).unwrap();
    assert_eq!(returned, private);
    assert_eq!(key.public_key, public_of(private));
    assert_ne!(key.public_key, private);
    assert_eq!(key.name, "fleet");
    assert!(key.enabled);
    assert!(key.onboarded.is_empty());
    assert_eq!(key.created_at, 42);
    assert_eq!(key.expires, 1_700_000_000_000);
    assert_eq!(key.tags, vec![s("prod"), s("web")]);
    assert!(key.privileged);
    assert_eq!(key.copy_server, "template");
    assert!(!key.create_builder);
}

#[test]
fn create_with_random_private_key() {
    let random = "0123456789abcdefghijklmnopqr";
    let (key, returned) = create_onboarding_key(true, request(None), random, &all_tags(), 7).unwrap();
    assert_eq!(returned, format!("O_{random}_O"));
    assert_eq!(key.public_key, public_of(&returned));
}

#[test]
fn create_refused_for_non_admin() {
    let r = create_onboarding_key(false, request(Some("O_abcdefghijklmnopqrstuvwxyz12_O")), "x", &all_tags(), 1);
    let e = r.unwrap_err();
    assert!(matches!(e, OnboardingKeyWriteError::NotAdmin));
    assert_eq!(e.message(), "This call is admin only");
}

#[test]
fn create_refuses_empty_private_key() {
    let r = create_onboarding_key(true, request(Some("")), "x", &all_tags(), 1);
    assert!(matches!(r, Err(OnboardingKeyWriteError::InvalidPrivateKey(_))));
}

fn stored() -> OnboardingKey {
    OnboardingKey {
        public_key: s("pub"),
        name: s("old"),
        enabled: true,
        onboarded: vec![s("server-1")],
        created_at: 5,
        expires: 0,
        tags: vec![s("prod")],
        privileged: false,
        copy_server: s(""),
        create_builder: true,
    }
}

fn no_change() -> UpdateOnboardingKey {
    UpdateOnboardingKey {
        public_key: s("pub"),
        enabled: None,
        name: None,
        expires: None,
        tags: None,
        privileged: None,
        copy_server: None,
        create_builder: None,
    }
}

#[test]
fn update_replaces_given_fields() {
    let mut key = stored();
    let mut update = no_change();
    update.enabled = Some(false);
    update.name = Some(s("new"));
    update.tags = Some(vec![s("t2"), s("gone")]);
    assert!(!update.is_none());
    update_onboarding_key(true, &mut key, update, &all_tags()).unwrap();
    assert!(!key.enabled);
    assert_eq!(key.name, "new");
    assert_eq!(key.tags, vec![s("web")]);
    assert_eq!(key.expires, 0);
    assert!(!key.privileged);
    assert!(key.create_builder);
    assert_eq!(key.onboarded, vec![s("server-1")]);
    assert_eq!(key.public_key, "pub");
}

#[test]
fn empty_update_changes_nothing() {
    let mut key = stored();
    assert!(no_change().is_none());
    update_onboarding_key(true, &mut key, no_change(), &all_tags()).unwrap();
    assert_eq!(key.name, "old");
    assert_eq!(key.tags, vec![s("prod")]);
    assert!(key.enabled);
}

#[test]
fn update_refused_for_non_admin() {
    let mut key = stored();
    let mut update = no_change();
    update.name = Some(s("new"));
    let r = update_onboarding_key(false, &mut key, update, &all_tags());
    assert!(matches!(r, Err(OnboardingKeyWriteError::NotAdmin)));
    assert_eq!(key.name, "old");
}

#[test]
fn cli_expiry_in_days() {
    assert_eq!(expires_after_days(1_000, None), 0);
    assert_eq!(expires_after_days(1_000, Some(2)), 1_000 + 2 * 86_400_000);
}
