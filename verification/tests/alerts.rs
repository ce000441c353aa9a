use komodo_core::alerts::{
    alerts_to_send, closed_alerts_to_send, lookup_name, optional_string, stack_state_alert, stack_state_changed,
    swarm_health_alert, Alert, AlertBuffer, AlertData, AlertDataVariant, SeverityLevel, StackAlertInfo, StackState,
    SwarmAlertAction, SwarmState,
};
use komodo_core::target::ResourceTarget;

fn swarm_alert(err: Option<&str>) -> Alert {
    Alert {
        id: "a1".to_string(),
        ts: 5,
        resolved: false,
        resolved_ts: None,
        level: SeverityLevel::Critical,
        target: ResourceTarget::Swarm("s1".to_string()),
        data: AlertData::SwarmUnhealthy {
            id: "s1".to_string(),
            name: "swarm".to_string(),
            err: err.map(|e| e.to_string()),
        },
    }
}

#[test]
fn buffer_opens_on_second_report() {
    let mut b = AlertBuffer::new();
    assert!(!b.ready_to_open("srv".to_string(), AlertDataVariant::ServerCpu));
    assert!(b.ready_to_open("srv".to_string(), AlertDataVariant::ServerCpu));
    // The flag flips back: the third report is held back again.
    assert!(!b.ready_to_open("srv".to_string(), AlertDataVariant::ServerCpu));
    // Other keys are independent.
    assert!(!b.ready_to_open("srv".to_string(), AlertDataVariant::ServerMem));
    assert!(!b.ready_to_open("other".to_string(), AlertDataVariant::ServerCpu));
}

#[test]
fn buffer_reset_forgets() {
    let mut b = AlertBuffer::new();
    assert!(!b.ready_to_open("srv".to_string(), AlertDataVariant::ServerDisk));
    b.reset("srv".to_string(), AlertDataVariant::ServerDisk);
    assert!(!b.ready_to_open("srv".to_string(), AlertDataVariant::ServerDisk));
    assert!(b.ready_to_open("srv".to_string(), AlertDataVariant::ServerDisk));
}

#[test]
fn unhealthy_swarm_opens_alert_on_second_poll() {
    let mut b = AlertBuffer::new();
    let first = swarm_health_alert(
        10,
        "s1".to_string(),
        "swarm".to_string(),
        SwarmState::Unhealthy,
        Some("boom".to_string()),
        None,
        true,
        false,
        &mut b,
    );
    assert!(matches!(first, SwarmAlertAction::Nothing));
    let second = swarm_health_alert(
        20,
        "s1".to_string(),
        "swarm".to_string(),
        SwarmState::Down,
        Some("boom".to_string()),
        None,
        true,
        false,
        &mut b,
    );
    match second {
        SwarmAlertAction::Open(alert, send) => {
            assert!(send);
            assert_eq!(alert.ts, 20);
            assert_eq!(alert.level, SeverityLevel::Critical);
            assert!(!alert.resolved);
            assert!(alert.id.is_empty());
            assert!(matches!(alert.target, ResourceTarget::Swarm(ref id) if id == "s1"));
            match alert.data {
                AlertData::SwarmUnhealthy { id, name, err } => {
                    assert_eq!(id, "s1");
                    assert_eq!(name, "swarm");
                    assert_eq!(err.as_deref(), Some("boom"));
                }
                _ => panic!("wrong alert data"),
            }
        }
        other => panic!("expected an opened alert, got {other:?}"),
    }
}

#[test]
fn unhealthy_swarm_in_maintenance_or_muted_opens_nothing() {
    let mut b = AlertBuffer::new();
    for _ in 0..3 {
        let a = swarm_health_alert(1, "s".to_string(), "n".to_string(), SwarmState::Unhealthy, None, None, true, true, &mut b);
        assert!(matches!(a, SwarmAlertAction::Nothing));
        let c = swarm_health_alert(1, "s".to_string(), "n".to_string(), SwarmState::Unhealthy, None, None, false, false, &mut b);
        assert!(matches!(c, SwarmAlertAction::Nothing));
    }
}

#[test]
fn open_swarm_alert_updates_or_closes() {
    let mut b = AlertBuffer::new();
    let updated = swarm_health_alert(
        30,
        "s1".to_string(),
        "swarm".to_string(),
        SwarmState::Unhealthy,
        Some("new".to_string()),
        Some(swarm_alert(Some("old"))),
        true,
        false,
        &mut b,
    );
    match updated {
        SwarmAlertAction::Update(alert, send) => {
            assert!(!send);
            assert_eq!(alert.id, "a1");
            assert_eq!(alert.ts, 5);
            assert!(matches!(alert.data, AlertData::SwarmUnhealthy { err: Some(ref e), .. } if e == "new"));
        }
        other => panic!("expected an update, got {other:?}"),
    }
    let healed =
        swarm_health_alert(40, "s1".to_string(), "swarm".to_string(), SwarmState::Healthy, None, Some(swarm_alert(None)), true, false, &mut b);
    assert!(matches!(healed, SwarmAlertAction::Close(_, true)));
    let muted =
        swarm_health_alert(40, "s1".to_string(), "swarm".to_string(), SwarmState::Unhealthy, None, Some(swarm_alert(None)), false, false, &mut b);
    assert!(matches!(muted, SwarmAlertAction::Close(_, false)));
}

#[test]
fn healthy_swarm_resets_buffer() {
    let mut b = AlertBuffer::new();
    let a = swarm_health_alert(1, "s".to_string(), "n".to_string(), SwarmState::Unhealthy, None, None, true, false, &mut b);
    assert!(matches!(a, SwarmAlertAction::Nothing));
    let h = swarm_health_alert(2, "s".to_string(), "n".to_string(), SwarmState::Healthy, None, None, true, false, &mut b);
    assert!(matches!(h, SwarmAlertAction::Nothing));
    // The buffer forgot the first report: the next one is held back again.
    let again = swarm_health_alert(3, "s".to_string(), "n".to_string(), SwarmState::Unhealthy, None, None, true, false, &mut b);
    assert!(matches!(again, SwarmAlertAction::Nothing));
}

#[test]
fn optional_string_cases() {
    assert_eq!(optional_string(String::new()), None);
    assert_eq!(optional_string("x".to_string()), Some("x".to_string()));
}

#[test]
fn lookup_name_takes_first_match() {
    let names = vec![
        ("1".to_string(), "one".to_string()),
        ("2".to_string(), "two".to_string()),
        ("1".to_string(), "uno".to_string()),
    ];
    assert_eq!(lookup_name(&names, "1"), Some("one".to_string()));
    assert_eq!(lookup_name(&names, "2"), Some("two".to_string()));
    assert_eq!(lookup_name(&names, "3"), None);
}

#[test]
fn stack_state_change_cases() {
    assert_eq!(stack_state_changed(Some(StackState::Running), StackState::Stopped, false), Some(StackState::Running));
    assert_eq!(stack_state_changed(Some(StackState::Running), StackState::Running, false), None);
    assert_eq!(stack_state_changed(None, StackState::Running, false), None);
    assert_eq!(stack_state_changed(Some(StackState::Unknown), StackState::Running, false), None);
    assert_eq!(stack_state_changed(Some(StackState::Running), StackState::Unknown, false), None);
    assert_eq!(stack_state_changed(Some(StackState::Running), StackState::Down, true), None);
}

#[test]
fn stack_state_alert_names_swarm_and_server() {
    let info = StackAlertInfo {
        id: "st".to_string(),
        name: "stack".to_string(),
        swarm_id: String::new(),
        server_id: "srv".to_string(),
        send_alerts: true,
    };
    let servers = vec![("srv".to_string(), "server-a".to_string())];
    let alert = stack_state_alert(7, info, &vec![], &servers, StackState::Running, StackState::Down).unwrap();
    assert_eq!(alert.level, SeverityLevel::Warning);
    assert!(alert.resolved);
    assert_eq!(alert.resolved_ts, Some(7));
    match alert.data {
        AlertData::StackStateChange { id, swarm_id, swarm_name, server_id, server_name, from, to, .. } => {
            assert_eq!(id, "st");
            assert_eq!(swarm_id, None);
            assert_eq!(swarm_name, None);
            assert_eq!(server_id.as_deref(), Some("srv"));
            assert_eq!(server_name.as_deref(), Some("server-a"));
            assert_eq!(from, StackState::Running);
            assert_eq!(to, StackState::Down);
        }
        _ => panic!("wrong alert data"),
    }
    let muted = StackAlertInfo {
        id: "st".to_string(),
        name: "stack".to_string(),
        swarm_id: String::new(),
        server_id: String::new(),
        send_alerts: false,
    };
    assert!(stack_state_alert(7, muted, &vec![], &vec![], StackState::Running, StackState::Down).is_none());
}

#[test]
fn alerts_marked_to_send_in_order() {
    let sent = alerts_to_send(vec![
        (swarm_alert(Some("1")), true),
        (swarm_alert(Some("2")), false),
        (swarm_alert(Some("3")), true),
    ]);
    assert_eq!(sent.len(), 2);
    assert!(matches!(sent[0].data, AlertData::SwarmUnhealthy { err: Some(ref e), .. } if e == "1"));
    assert!(matches!(sent[1].data, AlertData::SwarmUnhealthy { err: Some(ref e), .. } if e == "3"));
}

#[test]
fn closed_alerts_are_resolved_and_normal() {
    let sent = closed_alerts_to_send(vec![(swarm_alert(None), true), (swarm_alert(None), false)], 99);
    assert_eq!(sent.len(), 1);
    assert!(sent[0].resolved);
    assert_eq!(sent[0].resolved_ts, Some(99));
    assert_eq!(sent[0].level, SeverityLevel::Normal);
    assert_eq!(sent[0].ts, 5);
}
