use komodo_core::auth::{AuthUser, KomodoAuthImpl, LinkError, LoginProvider, NewUserFlags, UserConfig};
use komodo_core::cloud::BuildCleanupData;
use komodo_core::deploy::{build_deploy_image, build_registry_choice, push_decimal, pull_result_reused, Version};
use komodo_core::image_digest::ImageDigest;
use komodo_core::services::{extract_services_from_stack, extract_services_into_res, ComposeService, StackServiceNames};
use komodo_core::users::{
    check_create_local_user, check_delete_request, check_delete_target, push_recently_viewed, UserManagementError,
    UserRoles, RECENTLY_VIEWED_MAX,
};
use komodo_core::validations::ValidationError;

fn s(x: &str) -> String {
    x.to_string()
}

fn user(config: UserConfig, linked_local: Option<UserConfig>, totp: &str) -> AuthUser {
    AuthUser {
        id: s("u1"),
        username: s("alice"),
        config,
        linked_local,
        totp_secret: s(totp),
        external_skip_2fa: false,
    }
}

#[test]
fn stored_secrets() {
    let local = user(UserConfig::Local { password: s("hash") }, None, "");
    assert_eq!(local.hashed_password(), Some("hash"));
    assert_eq!(local.totp_secret(), None);
    let github = user(
        UserConfig::Github { github_id: s("1"), avatar: s("") },
        Some(UserConfig::Local { password: s("h2") }),
        "TOTP",
    );
    assert_eq!(github.hashed_password(), Some("h2"));
    assert_eq!(github.totp_secret(), Some("TOTP"));
    let service = user(UserConfig::Service { description: s("d") }, None, "");
    assert_eq!(service.hashed_password(), None);
    let empty = user(UserConfig::Local { password: s("") }, None, "");
    assert_eq!(empty.hashed_password(), None);
}

#[test]
fn auth_rules() {
    let auth = KomodoAuthImpl::new();
    assert_eq!(auth.app_name(), "Komodo");
    assert_eq!(auth.post_link_redirect("https://komodo.example"), "https://komodo.example/profile");
    assert_eq!(auth.new_user_flags(true, false), NewUserFlags { enabled: true, admin: true, super_admin: true });
    assert_eq!(auth.new_user_flags(false, false), NewUserFlags { enabled: false, admin: false, super_admin: false });
    assert_eq!(auth.new_user_flags(false, true), NewUserFlags { enabled: true, admin: false, super_admin: false });
    let primary = UserConfig::Google { google_id: s("g"), avatar: s("") };
    assert_eq!(
        auth.check_link(&primary, LoginProvider::Google),
        Err(LinkError::PrimaryProvider(LoginProvider::Google))
    );
    assert_eq!(auth.check_link(&primary, LoginProvider::Github), Ok(()));
}

#[test]
fn recently_viewed() {
    assert_eq!(push_recently_viewed(None, "a"), vec![s("a")]);
    let before = vec![s("b"), s("a"), s("c")];
    assert_eq!(push_recently_viewed(Some(&before), "a"), vec![s("a"), s("b"), s("c")]);
    let full: Vec<String> = (0..12).map(|i| i.to_string()).collect();
    let after = push_recently_viewed(Some(&full), "x");
    assert_eq!(after.len(), RECENTLY_VIEWED_MAX);
    assert_eq!(after[0], "x");
    assert_eq!(after[1], "0");
    assert_eq!(after[9], "8");
}

fn roles(id: &str, admin: bool, super_admin: bool) -> UserRoles {
    UserRoles { id: s(id), username: format!("{id}-name"), admin, super_admin }
}

#[test]
fn user_deletion_rules() {
    assert!(matches!(check_delete_request(&roles("a", false, false), "b"), Err(UserManagementError::NotAdmin)));
    assert!(matches!(check_delete_request(&roles("a", true, false), "a"), Err(UserManagementError::DeleteSelf)));
    assert!(matches!(check_delete_request(&roles("a", true, false), "a-name"), Err(UserManagementError::DeleteSelf)));
    assert!(check_delete_request(&roles("a", true, false), "b").is_ok());
    assert!(matches!(
        check_delete_target(&roles("a", true, true), &roles("b", true, true)),
        Err(UserManagementError::DeleteSuperAdmin)
    ));
    assert!(matches!(
        check_delete_target(&roles("a", true, false), &roles("b", true, false)),
        Err(UserManagementError::DeleteAdminNeedsSuperAdmin)
    ));
    assert!(check_delete_target(&roles("a", true, true), &roles("b", true, false)).is_ok());
    assert!(check_delete_target(&roles("a", true, false), &roles("b", false, false)).is_ok());
}

#[test]
fn local_user_creation_rules() {
    assert!(check_create_local_user(&roles("a", true, false), "bob", "secret", 4).is_ok());
    assert!(matches!(
        check_create_local_user(&roles("a", false, false), "bob", "secret", 4),
        Err(UserManagementError::NotAdmin)
    ));
    assert!(matches!(
        check_create_local_user(&roles("a", true, false), "bad name", "secret", 4),
        Err(UserManagementError::Invalid(ValidationError::Username(_)))
    ));
    assert!(matches!(
        check_create_local_user(&roles("a", true, false), "bob", "abc", 4),
        Err(UserManagementError::Invalid(ValidationError::Password(_)))
    ));
}

#[test]
fn versions_and_images() {
    let v = Version { major: 1, minor: 20, patch: 3 };
    assert_eq!(v.to_text(), "1.20.3");
    assert!(Version { major: 0, minor: 0, patch: 0 }.is_none());
    assert!(!v.is_none());
    let mut text = String::from("v");
    push_decimal(&mut text, -42);
    assert_eq!(text, "v-42");
    let unset = Version { major: 0, minor: 0, patch: 0 };
    assert_eq!(build_deploy_image("ghcr.io/a/api", unset, v, ""), (s("ghcr.io/a/api:1.20.3"), v));
    let pinned = Version { major: 2, minor: 0, patch: 0 };
    assert_eq!(build_deploy_image("api", pinned, v, "arm"), (s("api:2.0.0-arm"), pinned));
}

#[test]
fn registry_choices() {
    let c = build_registry_choice("", "reg", s("mine"));
    assert_eq!(c.account, "mine");
    assert!(!c.fetch_token);
    let c = build_registry_choice("ghcr.io", "reg", s(""));
    assert_eq!(c.account, "reg");
    assert!(c.fetch_token);
    let c = build_registry_choice("ghcr.io", "", s(""));
    assert_eq!(c.account, "");
    assert!(!c.fetch_token);
    let c = build_registry_choice("ghcr.io", "reg", s("mine"));
    assert_eq!(c.account, "mine");
    assert!(c.fetch_token);
}

#[test]
fn pull_results_reused_briefly() {
    assert!(pull_result_reused(1_000, 5_999));
    assert!(!pull_result_reused(1_000, 6_000));
}

#[test]
fn cleanup_data_kinds() {
    let aws = BuildCleanupData::Aws { instance_id: s("i-1"), region: s("us-east-1") };
    assert!(matches!(aws, BuildCleanupData::Aws { ref instance_id, .. } if instance_id == "i-1"));
    assert!(matches!(BuildCleanupData::Server, BuildCleanupData::Server));
}

fn svc(name: &str, container: &str, image: &str) -> StackServiceNames {
    StackServiceNames { service_name: s(name), container_name: s(container), image: s(image), image_digest: None }
}

#[test]
fn stack_services() {
    let latest = vec![svc("web", "p-web", "nginx:2"), svc("db", "p-db", "pg:16")];
    let out = extract_services_from_stack(Some(vec![svc("web", "p-web", ""), svc("db", "p-db", "pg:15")]), &latest);
    assert_eq!(out.len(), 2);
    assert_eq!(out[0].image, "nginx:2");
    assert_eq!(out[1].image, "pg:15");
    let out = extract_services_from_stack(None, &latest);
    assert_eq!(out.len(), 2);
    assert_eq!(out[1].service_name, "db");
}

#[test]
fn compose_services_merged() {
    let mut res = vec![svc("web", "old-web", "nginx:1")];
    let digests = vec![(s("cache"), ImageDigest::new("redis", "sha"))];
    extract_services_into_res(
        "proj",
        vec![
            ComposeService { service_name: s("web"), container_name: None, image: Some(s("nginx:2")) },
            ComposeService { service_name: s("cache"), container_name: None, image: Some(s("redis")) },
            ComposeService { service_name: s("job"), container_name: Some(s("runner")), image: None },
        ],
        &digests,
        &mut res,
    );
    assert_eq!(res.len(), 3);
    assert_eq!(res[0].container_name, "old-web");
    assert_eq!(res[0].image, "nginx:2");
    assert_eq!(res[1].container_name, "proj-cache");
    assert_eq!(res[1].image_digest.as_ref().map(|d| d.digest.as_str()), Some("sha"));
    assert_eq!(res[2].container_name, "runner");
    assert_eq!(res[2].image, "");
}

#[test]
fn link_error_messages() {
    assert_eq!(
        LinkError::PrimaryProvider(LoginProvider::Github).message(),
        "User is primary Github user, cannot link another Github login."
    );
    assert_eq!(
        LinkError::PrimaryProvider(LoginProvider::Oidc).message(),
        "User is primary Oidc user, cannot link another Oidc login."
    );
    assert_eq!(LoginProvider::Google.name(), "Google");
}
