use komodo_core::container_import::{
    check_server_inspectable, import_container_config, indent_lines, label_text, port_text, restart_mode,
    ContainerConfig, HostConfig, PortBinding, RestartMode, RestartPolicyName,
};
use komodo_core::deployment::DeploymentImage;
use komodo_core::extra_args::common_extra_args;
use komodo_core::monitor::ServerState;
use komodo_core::target::{
    check_user_target_access, listed_target_variants, target_query_restricted, user_resource_target_query, ResourceTarget,
    ResourceTargetVariant, TargetAccessError, TargetQuery,
};

fn s(x: &str) -> String {
    x.to_string()
}

#[test]
fn target_access() {
    assert!(matches!(
        check_user_target_access(&ResourceTarget::System(s("system"))),
        Err(TargetAccessError::SystemRequiresAdmin)
    ));
    let t = ResourceTarget::Stack(s("st1"));
    let (v, id) = check_user_target_access(&t).unwrap();
    assert_eq!(v, ResourceTargetVariant::Stack);
    assert_eq!(id, "st1");
    let (v, id) = t.extract_variant_id();
    assert_eq!(v, ResourceTargetVariant::Stack);
    assert_eq!(id, "st1");
}

#[test]
fn target_query_unrestricted_for_admins_and_transparent_mode() {
    assert!(!target_query_restricted(true, false));
    assert!(!target_query_restricted(false, true));
    assert!(target_query_restricted(false, false));
    assert!(matches!(user_resource_target_query(true, false, vec![]), TargetQuery::Unrestricted));
    assert!(matches!(user_resource_target_query(false, true, vec![]), TargetQuery::Unrestricted));
}

#[test]
fn target_query_one_filter_per_kind_in_order() {
    let variants = listed_target_variants();
    assert_eq!(variants.len(), 11);
    assert_eq!(variants[0], ResourceTargetVariant::Swarm);
    assert_eq!(variants[10], ResourceTargetVariant::ResourceSync);
    assert!(!variants.contains(&ResourceTargetVariant::System));
    let mut ids: Vec<Option<Vec<String>>> = vec![None; 11];
    ids[1] = Some(vec![s("srv1"), s("srv2")]);
    match user_resource_target_query(false, false, ids) {
        TargetQuery::AnyOf(filters) => {
            assert_eq!(filters.len(), 11);
            assert_eq!(filters[1].variant, ResourceTargetVariant::Server);
            assert_eq!(filters[1].ids, Some(vec![s("srv1"), s("srv2")]));
            assert_eq!(filters[0].variant, ResourceTargetVariant::Swarm);
            assert_eq!(filters[0].ids, None);
            for (f, v) in filters.iter().zip(variants.iter()) {
                assert_eq!(f.variant, *v);
            }
        }
        TargetQuery::Unrestricted => panic!("expected a restricted query"),
    }
}

#[test]
fn common_extra_args_sorted_unique() {
    let per = vec![vec![s("--rm"), s("--init")], vec![], vec![s("--init"), s("-d"), s("--cap-add=X")]];
    assert_eq!(common_extra_args(&per), vec![s("--cap-add=X"), s("--init"), s("--rm"), s("-d")]);
    assert_eq!(common_extra_args(&vec![]), Vec::<String>::new());
    // Byte order: upper case before lower case.
    assert_eq!(common_extra_args(&vec![vec![s("b"), s("B"), s("a"), s("b")]]), vec![s("B"), s("a"), s("b")]);
}

#[test]
fn restart_modes() {
    assert_eq!(restart_mode(RestartPolicyName::Always), RestartMode::Always);
    assert_eq!(restart_mode(RestartPolicyName::No), RestartMode::NoRestart);
    assert_eq!(restart_mode(RestartPolicyName::Empty), RestartMode::NoRestart);
    assert_eq!(restart_mode(RestartPolicyName::UnlessStopped), RestartMode::UnlessStopped);
    assert_eq!(restart_mode(RestartPolicyName::OnFailure), RestartMode::OnFailure);
}

#[test]
fn inspect_needs_online_server() {
    assert_eq!(check_server_inspectable(ServerState::Online), Ok(()));
    assert_eq!(check_server_inspectable(ServerState::NotOk), Err(s("Cannot inspect container: server is NotOk")));
    assert_eq!(
        check_server_inspectable(ServerState::Disabled),
        Err(s("Cannot inspect container: server is Disabled"))
    );
}

#[test]
fn config_text_helpers() {
    assert_eq!(indent_lines(&vec![s("A=1"), s("B=2")]), "  A=1\n  B=2");
    assert_eq!(indent_lines(&vec![]), "");
    assert_eq!(label_text(&vec![(s("k"), s("v")), (s("x"), s("y"))]), "  k: v\n  x: y");
    let ports = vec![
        PortBinding { container_port: s("80/tcp"), host_ports: vec![Some(s("8080"))] },
        PortBinding { container_port: s("443/tcp"), host_ports: vec![] },
        PortBinding { container_port: s("53/udp"), host_ports: vec![Some(s("1")), Some(s("5353"))] },
        PortBinding { container_port: s("22/tcp"), host_ports: vec![Some(s("2222")), None] },
    ];
    assert_eq!(port_text(&ports), "  8080:80\n  5353:53/udp");
}

#[test]
fn import_container() {
    let r = import_container_config(
        s("srv"),
        Some(ContainerConfig {
            image: Some(s("nginx:latest")),
            cmd: vec![s("nginx"), s("-g"), s("daemon off;")],
            env: vec![s("A=1")],
            labels: vec![(s("app"), s("web"))],
        }),
        Some(HostConfig {
            binds: vec![s("/data:/data")],
            network_mode: Some(s("bridge")),
            port_bindings: vec![PortBinding { container_port: s("80/tcp"), host_ports: vec![Some(s("80"))] }],
            restart_policy: Some(RestartPolicyName::UnlessStopped),
        }),
    );
    assert_eq!(r.server_id, "srv");
    assert!(matches!(r.image, Some(DeploymentImage::Image { ref image }) if image == "nginx:latest"));
    assert_eq!(r.command.as_deref(), Some("nginx -g daemon off;"));
    assert_eq!(r.environment.as_deref(), Some("  A=1"));
    assert_eq!(r.labels.as_deref(), Some("  app: web"));
    assert_eq!(r.volumes.as_deref(), Some("  /data:/data"));
    assert_eq!(r.network.as_deref(), Some("bridge"));
    assert_eq!(r.ports.as_deref(), Some("  80:80"));
    assert_eq!(r.restart, Some(RestartMode::UnlessStopped));
    let empty = import_container_config(s("srv"), None, None);
    assert!(empty.image.is_none() && empty.command.is_none() && empty.ports.is_none() && empty.restart.is_none());
}
