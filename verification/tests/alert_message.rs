use komodo_core::alert_message::{
    discord_content, discord_delivery, is_level_supported, request_error, slack_delivery, slack_message, AlertPlatform, MessageData,
    SlackBlock,
};
use komodo_core::alerts::SeverityLevel;
use komodo_core::text::join_strings;

fn s(x: &str) -> String {
    x.to_string()
}

fn blocks(m: &komodo_core::alert_message::SlackMessage) -> Vec<(bool, String)> {
    m.blocks
        .iter()
        .map(|b| match b {
            SlackBlock::Header(t) => (true, t.clone()),
            SlackBlock::Section(t) => (false, t.clone()),
        })
        .collect()
}

#[test]
fn join_with_separator() {
    assert_eq!(join_strings(&vec![s("a"), s("b"), s("c")], ", "), "a, b, c");
    assert_eq!(join_strings(&vec![s("a")], ", "), "a");
    assert_eq!(join_strings(&vec![], ", "), "");
}

#[test]
fn discord_test_and_swarm_messages() {
    assert_eq!(
        discord_content(SeverityLevel::Normal, "OK", "LINK", &MessageData::Test { name: s("main") }),
        "OK | If you see this message, then Alerter **main** is **working**\nLINK"
    );
    assert_eq!(
        discord_content(
            SeverityLevel::Normal,
            "OK",
            "LINK",
            &MessageData::SwarmUnhealthy { name: s("sw"), err: Some(s("e")) }
        ),
        "OK | Swarm **sw** is now **healthy**\nLINK"
    );
    assert_eq!(
        discord_content(
            SeverityLevel::Critical,
            "CRIT",
            "LINK",
            &MessageData::SwarmUnhealthy { name: s("sw"), err: Some(s("e")) }
        ),
        "CRIT | Swarm **sw** is **unhealthy** ❌\nLINK\n**error**: e"
    );
    assert_eq!(
        discord_content(
            SeverityLevel::Critical,
            "CRIT",
            "LINK",
            &MessageData::ServerUnreachable { name: s("srv"), region: s(" (eu)"), err: None }
        ),
        "CRIT | **srv** (eu) is **unreachable** ❌\nLINK"
    );
    assert_eq!(
        discord_content(
            SeverityLevel::Warning,
            "WARN",
            "LINK",
            &MessageData::ServerVersionMismatch {
                name: s("srv"),
                region: s(""),
                server_version: s("1.0"),
                core_version: s("2.0")
            }
        ),
        "WARN | **srv** | Version mismatch detected ⚠️\nPeriphery: **1.0** | Core: **2.0**\nLINK"
    );
}

#[test]
fn discord_resource_messages() {
    assert_eq!(
        discord_content(
            SeverityLevel::Warning,
            "WARN",
            "LINK",
            &MessageData::ContainerStateChange {
                name: s("web"),
                swarm_name: None,
                server_name: Some(s("srv")),
                from: s("running"),
                to: s("exited"),
            }
        ),
        "📦 Deployment **web** is now **exited**\nserver: **srv**\nprevious: **running**\nLINK"
    );
    assert_eq!(
        discord_content(
            SeverityLevel::Normal,
            "OK",
            "LINK",
            &MessageData::StackAutoUpdated {
                name: s("st"),
                swarm_name: Some(s("sw")),
                server_name: Some(s("srv")),
                images: vec![s("a:1"), s("b:2")],
            }
        ),
        "⬆ Stack **st** was updated automatically ⏫\nswarm: **sw**\nimages: **a:1, b:2**\nLINK"
    );
    assert_eq!(
        discord_content(
            SeverityLevel::Normal,
            "OK",
            "LINK",
            &MessageData::StackImageUpdateAvailable {
                name: s("st"),
                swarm_name: None,
                server_name: None,
                service: s("api"),
                image: s("api:2"),
            }
        ),
        "⬆ Stack **st** has an update available\nservice: **api**\nimage: **api:2**\nLINK"
    );
}

#[test]
fn discord_other_messages() {
    assert_eq!(
        discord_content(
            SeverityLevel::Critical,
            "CRIT",
            "LINK",
            &MessageData::BuildFailed { name: s("b"), version: s("1.2.3") }
        ),
        "CRIT | Build **b** failed\nversion: **v1.2.3**\nLINK"
    );
    assert_eq!(
        discord_content(
            SeverityLevel::Critical,
            "CRIT",
            "LINK",
            &MessageData::Custom { message: s("hello"), details: s("") }
        ),
        "CRIT | hello"
    );
    assert_eq!(
        discord_content(
            SeverityLevel::Critical,
            "CRIT",
            "LINK",
            &MessageData::Custom { message: s("hello"), details: s("more") }
        ),
        "CRIT | hello\nmore"
    );
    assert_eq!(discord_content(SeverityLevel::Normal, "OK", "LINK", &MessageData::NoData), "");
}

#[test]
fn discord_delivery_skips_empty() {
    assert_eq!(discord_delivery(SeverityLevel::Normal, "OK", "LINK", &MessageData::NoData), None);
    assert_eq!(
        discord_delivery(SeverityLevel::Critical, "CRIT", "LINK", &MessageData::ActionFailed { name: s("a") }),
        Some(s("CRIT | Action **a** failed\nLINK"))
    );
}

#[test]
fn slack_messages() {
    let m = slack_message(SeverityLevel::Normal, "OK", "LINK", &MessageData::Test { name: s("main") });
    assert_eq!(m.text, "OK | If you see this message, then Alerter *main* is *working*");
    assert_eq!(
        blocks(&m),
        vec![
            (true, s("OK")),
            (false, s("If you see this message, then Alerter *main* is *working*")),
            (false, s("LINK"))
        ]
    );
    let m = slack_message(
        SeverityLevel::Warning,
        "WARN",
        "LINK",
        &MessageData::StackStateChange {
            name: s("st"),
            swarm_name: None,
            server_name: Some(s("srv")),
            from: s("running"),
            to: s("down"),
        },
    );
    assert_eq!(m.text, "🥞 Stack *st* is now *down*");
    assert_eq!(
        blocks(&m),
        vec![(true, s("🥞 Stack *st* is now *down*")), (false, s("server: *srv*\nprevious: *running*")), (false, s("LINK"))]
    );
    let m = slack_message(
        SeverityLevel::Warning,
        "WARN",
        "LINK",
        &MessageData::ResourceSyncPendingUpdates { id: s("id1"), name: s("sync") },
    );
    assert_eq!(m.text, "WARN | Pending resource sync updates on *sync*");
    assert_eq!(blocks(&m)[1], (false, s("sync id: *id1*\nsync name: *sync*")));
    let m = slack_message(SeverityLevel::Critical, "CRIT", "LINK", &MessageData::Custom { message: s("m"), details: s("d") });
    assert_eq!(blocks(&m), vec![(true, s("CRIT | m")), (false, s("d"))]);
}

#[test]
fn slack_delivery_skips_empty() {
    assert!(slack_delivery(SeverityLevel::Normal, "OK", "LINK", &MessageData::NoData).is_none());
    let m = slack_delivery(SeverityLevel::Critical, "CRIT", "LINK", &MessageData::RepoBuildFailed { name: s("r") }).unwrap();
    assert_eq!(m.text, "CRIT | Repo build for *r* has *failed*");
    assert_eq!(blocks(&m), vec![(true, s("CRIT | Repo build for *r* has *failed*")), (false, s("LINK"))]);
}

#[test]
fn request_errors_hide_secrets() {
    assert_eq!(
        request_error(AlertPlatform::Discord, "bad token abc123 at url", &vec![(s("abc123"), s("TOKEN"))]),
        "Error with request to Discord: bad token <TOKEN> at url"
    );
    assert_eq!(request_error(AlertPlatform::Slack, "timeout", &vec![]), "Error with request to Slack: timeout");
    assert_eq!(AlertPlatform::Pushover.name(), "Pushover");
}

#[test]
fn levels_supported_per_alert() {
    let swarm = MessageData::SwarmUnhealthy { name: s("sw"), err: None };
    assert!(!is_level_supported(SeverityLevel::Warning, &swarm));
    assert!(is_level_supported(SeverityLevel::Critical, &swarm));
    assert!(is_level_supported(SeverityLevel::Normal, &swarm));
    let unreachable = MessageData::ServerUnreachable { name: s("a"), region: s(""), err: None };
    assert!(!is_level_supported(SeverityLevel::Warning, &unreachable));
    assert!(is_level_supported(SeverityLevel::Warning, &MessageData::ProcedureFailed { name: s("p") }));
}
