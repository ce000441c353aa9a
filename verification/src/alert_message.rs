//! The chat messages sent for an alert: the Discord content and the
//! Slack text and blocks, and the error reported when sending fails.
//!
//! The parts that depend on deployment configuration (the level label,
//! the link to the resource, the region label, the rendered states and
//! errors) are handed in already rendered.
use crate::alerts::SeverityLevel;
use crate::text::{join_strings, joined, replaced, string_views};
use vstd::prelude::*;

verus! {

/// What an alert message is built from, for every kind of alert whose
/// message holds no measured quantity.
#[derive(Debug)]
pub enum MessageData {
    Test { name: String },
    /// `err` is the error as the platform renders it.
    SwarmUnhealthy { name: String, err: Option<String> },
    /// `region` is the rendered region label, `err` the rendered error.
    ServerUnreachable { name: String, region: String, err: Option<String> },
    ServerVersionMismatch { name: String, region: String, server_version: String, core_version: String },
    /// `to` is the rendered new state, `from` the previous one.
    ContainerStateChange {
        name: String,
        swarm_name: Option<String>,
        server_name: Option<String>,
        from: String,
        to: String,
    },
    DeploymentImageUpdateAvailable {
        name: String,
        swarm_name: Option<String>,
        server_name: Option<String>,
        image: String,
    },
    DeploymentAutoUpdated { name: String, swarm_name: Option<String>, server_name: Option<String>, image: String },
    StackStateChange {
        name: String,
        swarm_name: Option<String>,
        server_name: Option<String>,
        from: String,
        to: String,
    },
    StackImageUpdateAvailable {
        name: String,
        swarm_name: Option<String>,
        server_name: Option<String>,
        service: String,
        image: String,
    },
    StackAutoUpdated {
        name: String,
        swarm_name: Option<String>,
        server_name: Option<String>,
        images: Vec<String>,
    },
    AwsBuilderTerminationFailed { instance_id: String, message: String },
    ResourceSyncPendingUpdates { id: String, name: String },
    /// `version` is the rendered build version.
    BuildFailed { name: String, version: String },
    RepoBuildFailed { name: String },
    ProcedureFailed { name: String },
    ActionFailed { name: String },
    /// `resource_type` is the rendered kind of resource.
    ScheduleRun { name: String, resource_type: String },
    Custom { message: String, details: String },
    NoData,
}

/// Whether a message can be built at this level: swarm and server
/// reachability alerts are only ever raised as `Normal` or `Critical`.
pub open spec fn level_supported(level: SeverityLevel, data: MessageData) -> bool {
    match data {
        MessageData::SwarmUnhealthy { .. } | MessageData::ServerUnreachable { .. } => level
            != SeverityLevel::Warning,
        _ => true,
    }
}

/// Whether a message can be built for an alert of this level: swarm
/// and server reachability alerts are only raised as normal or critical.
pub fn is_level_supported(level: SeverityLevel, data: &MessageData) -> (r: bool)
    ensures
        r == level_supported(level, *data),
{
    match data {
        MessageData::SwarmUnhealthy { .. } | MessageData::ServerUnreachable { .. } => match level {
            SeverityLevel::Warning => false,
            _ => true,
        },
        _ => true,
    }
}

/// The label of a list of images: plural for more than one.
pub open spec fn images_label(count: nat) -> Seq<char> {
    if count > 1 {
        "images"@
    } else {
        "image"@
    }
}

// ---------------------------------------------------------------------
// Discord
// ---------------------------------------------------------------------

/// The line naming where a resource runs: its swarm, else its server.
pub open spec fn discord_target(swarm_name: Option<String>, server_name: Option<String>) -> Seq<char> {
    match swarm_name {
        Some(swarm) => "\nswarm: **"@ + swarm@ + "**"@,
        None => match server_name {
            Some(server) => "\nserver: **"@ + server@ + "**"@,
            None => Seq::empty(),
        },
    }
}

/// The line naming where a resource runs: its swarm, else its server.
fn discord_target_line(swarm_name: &Option<String>, server_name: &Option<String>) -> (r: String)
    ensures
        r@ == discord_target(*swarm_name, *server_name),
{
    match swarm_name {
        Some(swarm) => "\nswarm: **".to_owned().concat(swarm.as_str()).concat("**"),
        None => match server_name {
            Some(server) => "\nserver: **".to_owned().concat(server.as_str()).concat("**"),
            None => String::new(),
        },
    }
}

/// The error line of a Discord message, if there is an error.
pub open spec fn discord_error(err: Option<String>) -> Seq<char> {
    match err {
        Some(e) => "\n**error**: "@ + e@,
        None => Seq::empty(),
    }
}

/// The error line of a Discord message, if there is an error.
fn discord_error_line(err: &Option<String>) -> (r: String)
    ensures
        r@ == discord_error(*err),
{
    match err {
        Some(e) => "\n**error**: ".to_owned().concat(e.as_str()),
        None => String::new(),
    }
}

/// The Discord message for the alerts of servers and swarms.
pub open spec fn discord_server_content(
    level: SeverityLevel,
    lv: Seq<char>,
    link: Seq<char>,
    data: MessageData,
) -> Seq<char> {
    match data {
        MessageData::Test { name } => lv + " | If you see this message, then Alerter **"@ + name@
            + "** is **working**\n"@ + link,
        MessageData::SwarmUnhealthy { name, err } => if level == SeverityLevel::Normal {
            lv + " | Swarm **"@ + name@ + "** is now **healthy**\n"@ + link
        } else {
            lv + " | Swarm **"@ + name@ + "** is **unhealthy** ❌\n"@ + link + discord_error(err)
        },
        MessageData::ServerUnreachable { name, region, err } => if level == SeverityLevel::Normal {
            lv + " | **"@ + name@ + "**"@ + region@ + " is now **connected**\n"@ + link
        } else {
            lv + " | **"@ + name@ + "**"@ + region@ + " is **unreachable** ❌\n"@ + link + discord_error(err)
        },
        MessageData::ServerVersionMismatch { name, region, server_version, core_version } => if level
            == SeverityLevel::Normal {
            lv + " | **"@ + name@ + "**"@ + region@ + " | Periphery version now matches Core version ✅\n"@
                + link
        } else {
            lv + " | **"@ + name@ + "**"@ + region@ + " | Version mismatch detected ⚠️\nPeriphery: **"@
                + server_version@ + "** | Core: **"@ + core_version@ + "**\n"@ + link
        },
        _ => Seq::empty(),
    }
}

/// The Discord message for the alerts of deployments and stacks.
pub open spec fn discord_resource_content(link: Seq<char>, data: MessageData) -> Seq<char> {
    match data {
        MessageData::ContainerStateChange { name, swarm_name, server_name, from, to } => "📦 Deployment **"@
            + name@ + "** is now **"@ + to@ + "**"@ + discord_target(swarm_name, server_name)
            + "\nprevious: **"@ + from@ + "**\n"@ + link,
        MessageData::DeploymentImageUpdateAvailable { name, swarm_name, server_name, image } =>
            "⬆ Deployment **"@ + name@ + "** has an update available"@ + discord_target(
            swarm_name,
            server_name,
        ) + "\nimage: **"@ + image@ + "**\n"@ + link,
        MessageData::DeploymentAutoUpdated { name, swarm_name, server_name, image } => "⬆ Deployment **"@
            + name@ + "** was updated automatically ⏫"@ + discord_target(swarm_name, server_name)
            + "\nimage: **"@ + image@ + "**\n"@ + link,
        MessageData::StackStateChange { name, swarm_name, server_name, from, to } => "🥞 Stack **"@ + name@
            + "** is now "@ + to@ + discord_target(swarm_name, server_name) + "\nprevious: **"@ + from@
            + "**\n"@ + link,
        MessageData::StackImageUpdateAvailable { name, swarm_name, server_name, service, image } =>
            "⬆ Stack **"@ + name@ + "** has an update available"@ + discord_target(swarm_name, server_name)
            + "\nservice: **"@ + service@ + "**\nimage: **"@ + image@ + "**\n"@ + link,
        MessageData::StackAutoUpdated { name, swarm_name, server_name, images } => "⬆ Stack **"@ + name@
            + "** was updated automatically ⏫"@ + discord_target(swarm_name, server_name) + "\n"@
            + images_label(images@.len()) + ": **"@ + joined(string_views(images@), ", "@) + "**\n"@
            + link,
        _ => Seq::empty(),
    }
}

/// The Discord message for the remaining alerts.
pub open spec fn discord_other_content(lv: Seq<char>, link: Seq<char>, data: MessageData) -> Seq<char> {
    match data {
        MessageData::AwsBuilderTerminationFailed { instance_id, message } => lv
            + " | Failed to terminated AWS builder instance\ninstance id: **"@ + instance_id@ + "**\n"@
            + message@,
        MessageData::ResourceSyncPendingUpdates { id, name } => lv
            + " | Pending resource sync updates on **"@ + name@ + "**\n"@ + link,
        MessageData::BuildFailed { name, version } => lv + " | Build **"@ + name@ + "** failed\nversion: **v"@
            + version@ + "**\n"@ + link,
        MessageData::RepoBuildFailed { name } => lv + " | Repo build for **"@ + name@ + "** failed\n"@ + link,
        MessageData::ProcedureFailed { name } => lv + " | Procedure **"@ + name@ + "** failed\n"@ + link,
        MessageData::ActionFailed { name } => lv + " | Action **"@ + name@ + "** failed\n"@ + link,
        MessageData::ScheduleRun { name, resource_type } => lv + " | **"@ + name@ + "** ("@
            + resource_type@ + ") | Scheduled run started 🕝\n"@ + link,
        MessageData::Custom { message, details } => lv + " | "@ + message@ + if details@.len() == 0 {
            Seq::empty()
        } else {
            "\n"@ + details@
        },
        _ => Seq::empty(),
    }
}

/// Whether a message kind is one of the server and swarm alerts.
pub open spec fn is_server_kind(data: MessageData) -> bool {
    data is Test || data is SwarmUnhealthy || data is ServerUnreachable || data is ServerVersionMismatch
}

/// Whether a message kind is one of the deployment and stack alerts.
pub open spec fn is_resource_kind(data: MessageData) -> bool {
    data is ContainerStateChange || data is DeploymentImageUpdateAvailable || data is DeploymentAutoUpdated
        || data is StackStateChange || data is StackImageUpdateAvailable || data is StackAutoUpdated
}

/// The content of the Discord message for an alert, given its level,
/// the level's label and the link to its resource; empty for an alert
/// without data, which is then not sent.
pub open spec fn discord_content_spec(
    level: SeverityLevel,
    lv: Seq<char>,
    link: Seq<char>,
    data: MessageData,
) -> Seq<char> {
    if is_server_kind(data) {
        discord_server_content(level, lv, link, data)
    } else if is_resource_kind(data) {
        discord_resource_content(link, data)
    } else {
        discord_other_content(lv, link, data)
    }
}

fn discord_server(level: SeverityLevel, lv: &str, link: &str, data: &MessageData) -> (r: String)
    requires
        is_server_kind(*data),
        level_supported(level, *data),
    ensures
        r@ == discord_server_content(level, lv@, link@, *data),
{
    match data {
        MessageData::Test { name } => lv.to_owned().concat(" | If you see this message, then Alerter **").concat(
            name.as_str(),
        ).concat("** is **working**\n").concat(link),
        MessageData::SwarmUnhealthy { name, err } => {
            if level == SeverityLevel::Normal {
                lv.to_owned().concat(" | Swarm **").concat(name.as_str()).concat("** is now **healthy**\n").concat(
                    link,
                )
            } else {
                let e = discord_error_line(err);
                lv.to_owned().concat(" | Swarm **").concat(name.as_str()).concat("** is **unhealthy** ❌\n").concat(
                    link,
                ).concat(e.as_str())
            }
        },
        MessageData::ServerUnreachable { name, region, err } => {
            if level == SeverityLevel::Normal {
                lv.to_owned().concat(" | **").concat(name.as_str()).concat("**").concat(region.as_str()).concat(
                    " is now **connected**\n",
                ).concat(link)
            } else {
                let e = discord_error_line(err);
                lv.to_owned().concat(" | **").concat(name.as_str()).concat("**").concat(region.as_str()).concat(
                    " is **unreachable** ❌\n",
                ).concat(link).concat(e.as_str())
            }
        },
        MessageData::ServerVersionMismatch { name, region, server_version, core_version } => {
            if level == SeverityLevel::Normal {
                lv.to_owned().concat(" | **").concat(name.as_str()).concat("**").concat(region.as_str()).concat(
                    " | Periphery version now matches Core version ✅\n",
                ).concat(link)
            } else {
                lv.to_owned().concat(" | **").concat(name.as_str()).concat("**").concat(region.as_str()).concat(
                    " | Version mismatch detected ⚠️\nPeriphery: **",
                ).concat(server_version.as_str()).concat("** | Core: **").concat(core_version.as_str()).concat(
                    "**\n",
                ).concat(link)
            }
        },
        _ => String::new(),
    }
}

fn discord_resource(link: &str, data: &MessageData) -> (r: String)
    requires
        is_resource_kind(*data),
    ensures
        r@ == discord_resource_content(link@, *data),
{
    match data {
        MessageData::ContainerStateChange { name, swarm_name, server_name, from, to } => {
            let target = discord_target_line(swarm_name, server_name);
            "📦 Deployment **".to_owned().concat(name.as_str()).concat("** is now **").concat(to.as_str()).concat(
                "**",
            ).concat(target.as_str()).concat("\nprevious: **").concat(from.as_str()).concat("**\n").concat(link)
        },
        MessageData::DeploymentImageUpdateAvailable { name, swarm_name, server_name, image } => {
            let target = discord_target_line(swarm_name, server_name);
            "⬆ Deployment **".to_owned().concat(name.as_str()).concat("** has an update available").concat(
                target.as_str(),
            ).concat("\nimage: **").concat(image.as_str()).concat("**\n").concat(link)
        },
        MessageData::DeploymentAutoUpdated { name, swarm_name, server_name, image } => {
            let target = discord_target_line(swarm_name, server_name);
            "⬆ Deployment **".to_owned().concat(name.as_str()).concat("** was updated automatically ⏫").concat(
                target.as_str(),
            ).concat("\nimage: **").concat(image.as_str()).concat("**\n").concat(link)
        },
        MessageData::StackStateChange { name, swarm_name, server_name, from, to } => {
            let target = discord_target_line(swarm_name, server_name);
            "🥞 Stack **".to_owned().concat(name.as_str()).concat("** is now ").concat(to.as_str()).concat(
                target.as_str(),
            ).concat("\nprevious: **").concat(from.as_str()).concat("**\n").concat(link)
        },
        MessageData::StackImageUpdateAvailable { name, swarm_name, server_name, service, image } => {
            let target = discord_target_line(swarm_name, server_name);
            "⬆ Stack **".to_owned().concat(name.as_str()).concat("** has an update available").concat(
                target.as_str(),
            ).concat("\nservice: **").concat(service.as_str()).concat("**\nimage: **").concat(image.as_str()).concat(
                "**\n",
            ).concat(link)
        },
        MessageData::StackAutoUpdated { name, swarm_name, server_name, images } => {
            let target = discord_target_line(swarm_name, server_name);
            let label = if images.len() > 1 {
                "images"
            } else {
                "image"
            };
            let list = join_strings(images, ", ");
            "⬆ Stack **".to_owned().concat(name.as_str()).concat("** was updated automatically ⏫").concat(
                target.as_str(),
            ).concat("\n").concat(label).concat(": **").concat(list.as_str()).concat("**\n").concat(link)
        },
        _ => String::new(),
    }
}

fn discord_other(lv: &str, link: &str, data: &MessageData) -> (r: String)
    ensures
        r@ == discord_other_content(lv@, link@, *data),
{
    match data {
        MessageData::AwsBuilderTerminationFailed { instance_id, message } => lv.to_owned().concat(
            " | Failed to terminated AWS builder instance\ninstance id: **",
        ).concat(instance_id.as_str()).concat("**\n").concat(message.as_str()),
        MessageData::ResourceSyncPendingUpdates { id, name } => lv.to_owned().concat(
            " | Pending resource sync updates on **",
        ).concat(name.as_str()).concat("**\n").concat(link),
        MessageData::BuildFailed { name, version } => lv.to_owned().concat(" | Build **").concat(
            name.as_str(),
        ).concat("** failed\nversion: **v").concat(version.as_str()).concat("**\n").concat(link),
        MessageData::RepoBuildFailed { name } => lv.to_owned().concat(" | Repo build for **").concat(
            name.as_str(),
        ).concat("** failed\n").concat(link),
        MessageData::ProcedureFailed { name } => lv.to_owned().concat(" | Procedure **").concat(
            name.as_str(),
        ).concat("** failed\n").concat(link),
        MessageData::ActionFailed { name } => lv.to_owned().concat(" | Action **").concat(name.as_str()).concat(
            "** failed\n",
        ).concat(link),
        MessageData::ScheduleRun { name, resource_type } => lv.to_owned().concat(" | **").concat(
            name.as_str(),
        ).concat("** (").concat(resource_type.as_str()).concat(") | Scheduled run started 🕝\n").concat(link),
        MessageData::Custom { message, details } => {
            let head = lv.to_owned().concat(" | ").concat(message.as_str());
            if details.unicode_len() == 0 {
                head
            } else {
                head.concat("\n").concat(details.as_str())
            }
        },
        _ => String::new(),
    }
}

/// The content of the Discord message for an alert; empty (and then not
/// sent) for an alert without data.
pub fn discord_content(level: SeverityLevel, level_text: &str, link: &str, data: &MessageData) -> (r: String)
    requires
        level_supported(level, *data),
    ensures
        r@ == discord_content_spec(level, level_text@, link@, *data),
{
    if matches!(
        data,
        MessageData::Test { .. } | MessageData::SwarmUnhealthy { .. } | MessageData::ServerUnreachable { .. }
            | MessageData::ServerVersionMismatch { .. }
    ) {
        discord_server(level, level_text, link, data)
    } else if matches!(
        data,
        MessageData::ContainerStateChange { .. } | MessageData::DeploymentImageUpdateAvailable { .. }
            | MessageData::DeploymentAutoUpdated { .. } | MessageData::StackStateChange { .. }
            | MessageData::StackImageUpdateAvailable { .. } | MessageData::StackAutoUpdated { .. }
    ) {
        discord_resource(link, data)
    } else {
        discord_other(level_text, link, data)
    }
}

// ---------------------------------------------------------------------
// Slack
// ---------------------------------------------------------------------

/// A block of a Slack message.
#[derive(Debug)]
pub enum SlackBlock {
    Header(String),
    Section(String),
}

/// The value of a block of a Slack message.
pub enum SlackBlockView {
    Header(Seq<char>),
    Section(Seq<char>),
}

impl View for SlackBlock {
    type V = SlackBlockView;

    open spec fn view(&self) -> SlackBlockView {
        match self {
            SlackBlock::Header(s) => SlackBlockView::Header(s@),
            SlackBlock::Section(s) => SlackBlockView::Section(s@),
        }
    }
}

/// A Slack message: its text and its blocks.
#[derive(Debug)]
pub struct SlackMessage {
    pub text: String,
    pub blocks: Vec<SlackBlock>,
}

/// The value of a Slack message: its text and its blocks.
#[verifier::ext_equal]
pub struct SlackMessageView {
    pub text: Seq<char>,
    pub blocks: Seq<SlackBlockView>,
}

impl View for SlackMessage {
    type V = SlackMessageView;

    open spec fn view(&self) -> SlackMessageView {
        SlackMessageView { text: self.text@, blocks: self.blocks@.map_values(|b: SlackBlock| b@) }
    }
}

/// A header block.
pub open spec fn header(s: Seq<char>) -> SlackBlockView {
    SlackBlockView::Header(s)
}

/// A section block.
pub open spec fn section(s: Seq<char>) -> SlackBlockView {
    SlackBlockView::Section(s)
}

/// A message of this text and these blocks.
pub open spec fn slack(text: Seq<char>, blocks: Seq<SlackBlockView>) -> SlackMessageView {
    SlackMessageView { text, blocks }
}

fn message2(text: String, a: SlackBlock, b: SlackBlock) -> (m: SlackMessage)
    ensures
        m@ == slack(text@, seq![a@, b@]),
{
    let mut blocks = Vec::new();
    blocks.push(a);
    blocks.push(b);
    let m = SlackMessage { text, blocks };
    assert(m@.blocks =~= seq![a@, b@]);
    m
}

fn message3(text: String, a: SlackBlock, b: SlackBlock, c: SlackBlock) -> (m: SlackMessage)
    ensures
        m@ == slack(text@, seq![a@, b@, c@]),
{
    let mut blocks = Vec::new();
    blocks.push(a);
    blocks.push(b);
    blocks.push(c);
    let m = SlackMessage { text, blocks };
    assert(m@.blocks =~= seq![a@, b@, c@]);
    m
}

/// The line naming where a resource runs: its swarm, else its server.
pub open spec fn slack_target(swarm_name: Option<String>, server_name: Option<String>) -> Seq<char> {
    match swarm_name {
        Some(swarm) => "swarm: *"@ + swarm@ + "*\n"@,
        None => match server_name {
            Some(server) => "server: *"@ + server@ + "*\n"@,
            None => Seq::empty(),
        },
    }
}

fn slack_target_line(swarm_name: &Option<String>, server_name: &Option<String>) -> (r: String)
    ensures
        r@ == slack_target(*swarm_name, *server_name),
{
    match swarm_name {
        Some(swarm) => "swarm: *".to_owned().concat(swarm.as_str()).concat("*\n"),
        None => match server_name {
            Some(server) => "server: *".to_owned().concat(server.as_str()).concat("*\n"),
            None => String::new(),
        },
    }
}

/// The error line of a Slack message, if there is an error.
pub open spec fn slack_error(err: Option<String>) -> Seq<char> {
    match err {
        Some(e) => "\nerror: "@ + e@,
        None => Seq::empty(),
    }
}

fn slack_error_line(err: &Option<String>) -> (r: String)
    ensures
        r@ == slack_error(*err),
{
    match err {
        Some(e) => "\nerror: ".to_owned().concat(e.as_str()),
        None => String::new(),
    }
}

/// The Slack message for the alerts of servers and swarms.
pub open spec fn slack_server_message(
    level: SeverityLevel,
    lv: Seq<char>,
    link: Seq<char>,
    data: MessageData,
) -> SlackMessageView {
    match data {
        MessageData::Test { name } => slack(
            lv + " | If you see this message, then Alerter *"@ + name@ + "* is *working*"@,
            seq![
                header(lv),
                section("If you see this message, then Alerter *"@ + name@ + "* is *working*"@),
                section(link),
            ],
        ),
        MessageData::SwarmUnhealthy { name, err } => if level == SeverityLevel::Normal {
            slack(
                lv + " | Swarm *"@ + name@ + "* is now *healthy*"@,
                seq![header(lv), section("Swarm *"@ + name@ + "* is now *healthy*"@)],
            )
        } else {
            slack(
                lv + " | Swarm *"@ + name@ + "* is *unhealthy* ❌"@,
                seq![header(lv), section("Swarm *"@ + name@ + "* is *unhealthy* ❌"@ + slack_error(err)), section(link)],
            )
        },
        MessageData::ServerUnreachable { name, region, err } => if level == SeverityLevel::Normal {
            slack(
                lv + " | *"@ + name@ + "*"@ + region@ + " is now *connected*"@,
                seq![header(lv), section("*"@ + name@ + "*"@ + region@ + " is now *connected*"@)],
            )
        } else {
            slack(
                lv + " | *"@ + name@ + "*"@ + region@ + " is *unreachable* ❌"@,
                seq![
                    header(lv),
                    section("*"@ + name@ + "*"@ + region@ + " is *unreachable* ❌"@ + slack_error(err)),
                    section(link),
                ],
            )
        },
        MessageData::ServerVersionMismatch { name, region, server_version, core_version } => {
            let text = if level == SeverityLevel::Normal {
                lv + " | *"@ + name@ + "*"@ + region@ + " | Periphery version now matches Core version ✅"@
            } else {
                lv + " | *"@ + name@ + "*"@ + region@ + " | Version mismatch detected ⚠️\nPeriphery: "@
                    + server_version@ + " | Core: "@ + core_version@
            };
            slack(text, seq![header(text), section(link)])
        },
        _ => slack(Seq::empty(), Seq::empty()),
    }
}

/// The Slack message for the alerts of deployments and stacks.
pub open spec fn slack_resource_message(link: Seq<char>, data: MessageData) -> SlackMessageView {
    match data {
        MessageData::ContainerStateChange { name, swarm_name, server_name, from, to } => {
            let text = "📦 Container *"@ + name@ + "* is now *"@ + to@ + "*"@;
            slack(
                text,
                seq![
                    header(text),
                    section(slack_target(swarm_name, server_name) + "previous: "@ + from@),
                    section(link),
                ],
            )
        },
        MessageData::DeploymentImageUpdateAvailable { name, swarm_name, server_name, image } => {
            let text = "⬆ Deployment *"@ + name@ + "* has an update available"@;
            slack(
                text,
                seq![
                    header(text),
                    section(slack_target(swarm_name, server_name) + "image: *"@ + image@ + "*"@),
                    section(link),
                ],
            )
        },
        MessageData::DeploymentAutoUpdated { name, swarm_name, server_name, image } => {
            let text = "⬆ Deployment *"@ + name@ + "* was updated automatically ⏫"@;
            slack(
                text,
                seq![
                    header(text),
                    section(slack_target(swarm_name, server_name) + "image: *"@ + image@ + "*"@),
                    section(link),
                ],
            )
        },
        MessageData::StackStateChange { name, swarm_name, server_name, from, to } => {
            let text = "🥞 Stack *"@ + name@ + "* is now *"@ + to@ + "*"@;
            slack(
                text,
                seq![
                    header(text),
                    section(slack_target(swarm_name, server_name) + "previous: *"@ + from@ + "*"@),
                    section(link),
                ],
            )
        },
        MessageData::StackImageUpdateAvailable { name, swarm_name, server_name, service, image } => {
            let text = "⬆ Stack *"@ + name@ + "* has an update available"@;
            slack(
                text,
                seq![
                    header(text),
                    section(
                        slack_target(swarm_name, server_name) + "service: *"@ + service@ + "*\nimage: *"@ + image@
                            + "*"@,
                    ),
                    section(link),
                ],
            )
        },
        MessageData::StackAutoUpdated { name, swarm_name, server_name, images } => {
            let text = "⬆ Stack *"@ + name@ + "* was updated automatically ⏫"@;
            slack(
                text,
                seq![
                    header(text),
                    section(
                        slack_target(swarm_name, server_name) + images_label(images@.len()) + ": *"@ + joined(
                            string_views(images@),
                            ", "@,
                        ) + "*"@,
                    ),
                    section(link),
                ],
            )
        },
        _ => slack(Seq::empty(), Seq::empty()),
    }
}

/// The Slack message for the remaining alerts.
pub open spec fn slack_other_message(lv: Seq<char>, link: Seq<char>, data: MessageData) -> SlackMessageView {
    match data {
        MessageData::AwsBuilderTerminationFailed { instance_id, message } => {
            let text = lv + " | Failed to terminated AWS builder instance "@;
            slack(text, seq![header(text), section("instance id: *"@ + instance_id@ + "*\n"@ + message@)])
        },
        MessageData::ResourceSyncPendingUpdates { id, name } => {
            let text = lv + " | Pending resource sync updates on *"@ + name@ + "*"@;
            slack(
                text,
                seq![header(text), section("sync id: *"@ + id@ + "*\nsync name: *"@ + name@ + "*"@), section(link)],
            )
        },
        MessageData::BuildFailed { name, version } => {
            let text = lv + " | Build "@ + name@ + " has failed"@;
            slack(text, seq![header(text), section("version: *v"@ + version@ + "*"@), section(link)])
        },
        MessageData::RepoBuildFailed { name } => {
            let text = lv + " | Repo build for *"@ + name@ + "* has *failed*"@;
            slack(text, seq![header(text), section(link)])
        },
        MessageData::ProcedureFailed { name } => {
            let text = lv + " | Procedure *"@ + name@ + "* has *failed*"@;
            slack(text, seq![header(text), section(link)])
        },
        MessageData::ActionFailed { name } => {
            let text = lv + " | Action *"@ + name@ + "* has *failed*"@;
            slack(text, seq![header(text), section(link)])
        },
        MessageData::ScheduleRun { name, resource_type } => {
            let text = lv + " | *"@ + name@ + "* ("@ + resource_type@ + ") | Scheduled run started 🕝"@;
            slack(text, seq![header(text), section(link)])
        },
        MessageData::Custom { message, details } => {
            let text = lv + " | "@ + message@;
            slack(text, seq![header(text), section(details@)])
        },
        _ => slack(Seq::empty(), Seq::empty()),
    }
}

/// The Slack message for an alert, given its level, the level's label
/// and the link to its resource; with empty text and no blocks for an
/// alert without data, which is then not sent.
pub open spec fn slack_message_spec(
    level: SeverityLevel,
    lv: Seq<char>,
    link: Seq<char>,
    data: MessageData,
) -> SlackMessageView {
    if is_server_kind(data) {
        slack_server_message(level, lv, link, data)
    } else if is_resource_kind(data) {
        slack_resource_message(link, data)
    } else {
        slack_other_message(lv, link, data)
    }
}

fn slack_server(level: SeverityLevel, lv: &str, link: &str, data: &MessageData) -> (m: SlackMessage)
    requires
        is_server_kind(*data),
        level_supported(level, *data),
    ensures
        m@ == slack_server_message(level, lv@, link@, *data),
{
    match data {
        MessageData::Test { name } => {
            let text = lv.to_owned().concat(" | If you see this message, then Alerter *").concat(name.as_str()).concat(
                "* is *working*",
            );
            let body = "If you see this message, then Alerter *".to_owned().concat(name.as_str()).concat(
                "* is *working*",
            );
            message3(
                text,
                SlackBlock::Header(lv.to_owned()),
                SlackBlock::Section(body),
                SlackBlock::Section(link.to_owned()),
            )
        },
        MessageData::SwarmUnhealthy { name, err } => {
            if level == SeverityLevel::Normal {
                let text = lv.to_owned().concat(" | Swarm *").concat(name.as_str()).concat("* is now *healthy*");
                let body = "Swarm *".to_owned().concat(name.as_str()).concat("* is now *healthy*");
                message2(text, SlackBlock::Header(lv.to_owned()), SlackBlock::Section(body))
            } else {
                let text = lv.to_owned().concat(" | Swarm *").concat(name.as_str()).concat("* is *unhealthy* ❌");
                let e = slack_error_line(err);
                let body = "Swarm *".to_owned().concat(name.as_str()).concat("* is *unhealthy* ❌").concat(
                    e.as_str(),
                );
                message3(
                    text,
                    SlackBlock::Header(lv.to_owned()),
                    SlackBlock::Section(body),
                    SlackBlock::Section(link.to_owned()),
                )
            }
        },
        MessageData::ServerUnreachable { name, region, err } => {
            if level == SeverityLevel::Normal {
                let text = lv.to_owned().concat(" | *").concat(name.as_str()).concat("*").concat(
                    region.as_str(),
                ).concat(" is now *connected*");
                let body = "*".to_owned().concat(name.as_str()).concat("*").concat(region.as_str()).concat(
                    " is now *connected*",
                );
                message2(text, SlackBlock::Header(lv.to_owned()), SlackBlock::Section(body))
            } else {
                let text = lv.to_owned().concat(" | *").concat(name.as_str()).concat("*").concat(
                    region.as_str(),
                ).concat(" is *unreachable* ❌");
                let e = slack_error_line(err);
                let body = "*".to_owned().concat(name.as_str()).concat("*").concat(region.as_str()).concat(
                    " is *unreachable* ❌",
                ).concat(e.as_str());
                message3(
                    text,
                    SlackBlock::Header(lv.to_owned()),
                    SlackBlock::Section(body),
                    SlackBlock::Section(link.to_owned()),
                )
            }
        },
        MessageData::ServerVersionMismatch { name, region, server_version, core_version } => {
            let text = if level == SeverityLevel::Normal {
                lv.to_owned().concat(" | *").concat(name.as_str()).concat("*").concat(region.as_str()).concat(
                    " | Periphery version now matches Core version ✅",
                )
            } else {
                lv.to_owned().concat(" | *").concat(name.as_str()).concat("*").concat(region.as_str()).concat(
                    " | Version mismatch detected ⚠️\nPeriphery: ",
                ).concat(server_version.as_str()).concat(" | Core: ").concat(core_version.as_str())
            };
            let head = text.clone();
            message2(text, SlackBlock::Header(head), SlackBlock::Section(link.to_owned()))
        },
        _ => SlackMessage { text: String::new(), blocks: Vec::new() },
    }
}

fn slack_resource(link: &str, data: &MessageData) -> (m: SlackMessage)
    requires
        is_resource_kind(*data),
    ensures
        m@ == slack_resource_message(link@, *data),
{
    match data {
        MessageData::ContainerStateChange { name, swarm_name, server_name, from, to } => {
            let text = "📦 Container *".to_owned().concat(name.as_str()).concat("* is now *").concat(
                to.as_str(),
            ).concat("*");
            let target = slack_target_line(swarm_name, server_name);
            let body = target.concat("previous: ").concat(from.as_str());
            let head = text.clone();
            message3(
                text,
                SlackBlock::Header(head),
                SlackBlock::Section(body),
                SlackBlock::Section(link.to_owned()),
            )
        },
        MessageData::DeploymentImageUpdateAvailable { name, swarm_name, server_name, image } => {
            let text = "⬆ Deployment *".to_owned().concat(name.as_str()).concat("* has an update available");
            let target = slack_target_line(swarm_name, server_name);
            let body = target.concat("image: *").concat(image.as_str()).concat("*");
            let head = text.clone();
            message3(
                text,
                SlackBlock::Header(head),
                SlackBlock::Section(body),
                SlackBlock::Section(link.to_owned()),
            )
        },
        MessageData::DeploymentAutoUpdated { name, swarm_name, server_name, image } => {
            let text = "⬆ Deployment *".to_owned().concat(name.as_str()).concat("* was updated automatically ⏫");
            let target = slack_target_line(swarm_name, server_name);
            let body = target.concat("image: *").concat(image.as_str()).concat("*");
            let head = text.clone();
            message3(
                text,
                SlackBlock::Header(head),
                SlackBlock::Section(body),
                SlackBlock::Section(link.to_owned()),
            )
        },
        MessageData::StackStateChange { name, swarm_name, server_name, from, to } => {
            let text = "🥞 Stack *".to_owned().concat(name.as_str()).concat("* is now *").concat(to.as_str()).concat(
                "*",
            );
            let target = slack_target_line(swarm_name, server_name);
            let body = target.concat("previous: *").concat(from.as_str()).concat("*");
            let head = text.clone();
            message3(
                text,
                SlackBlock::Header(head),
                SlackBlock::Section(body),
                SlackBlock::Section(link.to_owned()),
            )
        },
        MessageData::StackImageUpdateAvailable { name, swarm_name, server_name, service, image } => {
            let text = "⬆ Stack *".to_owned().concat(name.as_str()).concat("* has an update available");
            let target = slack_target_line(swarm_name, server_name);
            let body = target.concat("service: *").concat(service.as_str()).concat("*\nimage: *").concat(
                image.as_str(),
            ).concat("*");
            let head = text.clone();
            message3(
                text,
                SlackBlock::Header(head),
                SlackBlock::Section(body),
                SlackBlock::Section(link.to_owned()),
            )
        },
        MessageData::StackAutoUpdated { name, swarm_name, server_name, images } => {
            let text = "⬆ Stack *".to_owned().concat(name.as_str()).concat("* was updated automatically ⏫");
            let label = if images.len() > 1 {
                "images"
            } else {
                "image"
            };
            let list = join_strings(images, ", ");
            let target = slack_target_line(swarm_name, server_name);
            let body = target.concat(label).concat(": *").concat(list.as_str()).concat("*");
            let head = text.clone();
            message3(
                text,
                SlackBlock::Header(head),
                SlackBlock::Section(body),
                SlackBlock::Section(link.to_owned()),
            )
        },
        _ => SlackMessage { text: String::new(), blocks: Vec::new() },
    }
}

fn slack_other(lv: &str, link: &str, data: &MessageData) -> (m: SlackMessage)
    ensures
        m@ == slack_other_message(lv@, link@, *data),
{
    match data {
        MessageData::AwsBuilderTerminationFailed { instance_id, message } => {
            let text = lv.to_owned().concat(" | Failed to terminated AWS builder instance ");
            let body = "instance id: *".to_owned().concat(instance_id.as_str()).concat("*\n").concat(
                message.as_str(),
            );
            let head = text.clone();
            message2(text, SlackBlock::Header(head), SlackBlock::Section(body))
        },
        MessageData::ResourceSyncPendingUpdates { id, name } => {
            let text = lv.to_owned().concat(" | Pending resource sync updates on *").concat(name.as_str()).concat(
                "*",
            );
            let body = "sync id: *".to_owned().concat(id.as_str()).concat("*\nsync name: *").concat(
                name.as_str(),
            ).concat("*");
            let head = text.clone();
            message3(
                text,
                SlackBlock::Header(head),
                SlackBlock::Section(body),
                SlackBlock::Section(link.to_owned()),
            )
        },
        MessageData::BuildFailed { name, version } => {
            let text = lv.to_owned().concat(" | Build ").concat(name.as_str()).concat(" has failed");
            let body = "version: *v".to_owned().concat(version.as_str()).concat("*");
            let head = text.clone();
            message3(
                text,
                SlackBlock::Header(head),
                SlackBlock::Section(body),
                SlackBlock::Section(link.to_owned()),
            )
        },
        MessageData::RepoBuildFailed { name } => {
            let text = lv.to_owned().concat(" | Repo build for *").concat(name.as_str()).concat("* has *failed*");
            let head = text.clone();
            message2(text, SlackBlock::Header(head), SlackBlock::Section(link.to_owned()))
        },
        MessageData::ProcedureFailed { name } => {
            let text = lv.to_owned().concat(" | Procedure *").concat(name.as_str()).concat("* has *failed*");
            let head = text.clone();
            message2(text, SlackBlock::Header(head), SlackBlock::Section(link.to_owned()))
        },
        MessageData::ActionFailed { name } => {
            let text = lv.to_owned().concat(" | Action *").concat(name.as_str()).concat("* has *failed*");
            let head = text.clone();
            message2(text, SlackBlock::Header(head), SlackBlock::Section(link.to_owned()))
        },
        MessageData::ScheduleRun { name, resource_type } => {
            let text = lv.to_owned().concat(" | *").concat(name.as_str()).concat("* (").concat(
                resource_type.as_str(),
            ).concat(") | Scheduled run started 🕝");
            let head = text.clone();
            message2(text, SlackBlock::Header(head), SlackBlock::Section(link.to_owned()))
        },
        MessageData::Custom { message, details } => {
            let text = lv.to_owned().concat(" | ").concat(message.as_str());
            let head = text.clone();
            message2(text, SlackBlock::Header(head), SlackBlock::Section(details.clone()))
        },
        _ => SlackMessage { text: String::new(), blocks: Vec::new() },
    }
}

/// The Slack message for an alert; with empty text and no blocks (and
/// then not sent) for an alert without data.
pub fn slack_message(level: SeverityLevel, level_text: &str, link: &str, data: &MessageData) -> (m: SlackMessage)
    requires
        level_supported(level, *data),
    ensures
        m@ == slack_message_spec(level, level_text@, link@, *data),
{
    if matches!(
        data,
        MessageData::Test { .. } | MessageData::SwarmUnhealthy { .. } | MessageData::ServerUnreachable { .. }
            | MessageData::ServerVersionMismatch { .. }
    ) {
        slack_server(level, level_text, link, data)
    } else if matches!(
        data,
        MessageData::ContainerStateChange { .. } | MessageData::DeploymentImageUpdateAvailable { .. }
            | MessageData::DeploymentAutoUpdated { .. } | MessageData::StackStateChange { .. }
            | MessageData::StackImageUpdateAvailable { .. } | MessageData::StackAutoUpdated { .. }
    ) {
        slack_resource(link, data)
    } else {
        slack_other(level_text, link, data)
    }
}

// ---------------------------------------------------------------------
// Delivery
// ---------------------------------------------------------------------

/// The Discord content to send for an alert: none when it is empty.
pub fn discord_delivery(level: SeverityLevel, level_text: &str, link: &str, data: &MessageData) -> (r: Option<
    String,
>)
    requires
        level_supported(level, *data),
    ensures
        discord_content_spec(level, level_text@, link@, *data).len() == 0 ==> r is None,
        discord_content_spec(level, level_text@, link@, *data).len() > 0 ==> (r matches Some(c) && c@
            == discord_content_spec(level, level_text@, link@, *data)),
{
    let content = discord_content(level, level_text, link, data);
    if content.unicode_len() == 0 {
        None
    } else {
        Some(content)
    }
}

/// The Slack message to send for an alert: none when its text is empty.
pub fn slack_delivery(level: SeverityLevel, level_text: &str, link: &str, data: &MessageData) -> (r: Option<
    SlackMessage,
>)
    requires
        level_supported(level, *data),
    ensures
        slack_message_spec(level, level_text@, link@, *data).text.len() == 0 ==> r is None,
        slack_message_spec(level, level_text@, link@, *data).text.len() > 0 ==> (r matches Some(m) && m@
            == slack_message_spec(level, level_text@, link@, *data)),
{
    let message = slack_message(level, level_text, link, data);
    if message.text.unicode_len() == 0 {
        None
    } else {
        Some(message)
    }
}

/// The chat platforms an alert can be sent to.
#[derive(Clone, Copy, Debug, PartialEq, Eq, Structural)]
pub enum AlertPlatform {
    Discord,
    Slack,
    Pushover,
}

impl AlertPlatform {
    /// The platform's name as errors show it.
    pub open spec fn spec_name(self) -> Seq<char> {
        match self {
            AlertPlatform::Discord => "Discord"@,
            AlertPlatform::Slack => "Slack"@,
            AlertPlatform::Pushover => "Pushover"@,
        }
    }

    /// The platform's name as errors show it.
    pub fn name(&self) -> (s: &'static str)
        ensures
            s@ == self.spec_name(),
    {
        match self {
            AlertPlatform::Discord => "Discord",
            AlertPlatform::Slack => "Slack",
            AlertPlatform::Pushover => "Pushover",
        }
    }
}

/// The values of a list of string pairs.
pub open spec fn pair_views(s: Seq<(String, String)>) -> Seq<(Seq<char>, Seq<char>)> {
    s.map_values(|p: (String, String)| (p.0@, p.1@))
}

/// The input with its secrets hidden, as `svi::replace_in_string` does
/// it: one replacer after the other, every match of the value to hide
/// (the first of the pair) is replaced by the replacer's name (the
/// second) in angle brackets.
pub open spec fn secrets_replaced(input: Seq<char>, replacers: Seq<(Seq<char>, Seq<char>)>) -> Seq<char>
    decreases replacers.len(),
{
    if replacers.len() == 0 {
        input
    } else {
        let last = replacers.last();
        replaced(secrets_replaced(input, replacers.drop_last()), last.0, "<"@ + last.1 + ">"@)
    }
}

/// `svi::replace_in_string`: for each replacer in turn, every match of
/// its value is replaced by its name in angle brackets (a
/// `str::replace` each).
#[verifier::external_body]
fn replace_in_string(input: &str, replacers: &Vec<(String, String)>) -> (r: String)
    ensures
        r@ == secrets_replaced(input@, pair_views(replacers@)),
{
    svi::replace_in_string(input, replacers)
}

/// The error reported when a request to a chat platform fails, with the
/// secrets interpolated into the request hidden from the platform's
/// error text.
pub fn request_error(platform: AlertPlatform, error_text: &str, replacers: &Vec<(String, String)>) -> (r: String)
    ensures
        r@ == "Error with request to "@ + platform.spec_name() + ": "@ + secrets_replaced(
            error_text@,
            pair_views(replacers@),
        ),
        replacers@.len() == 0 ==> r@ == "Error with request to "@ + platform.spec_name() + ": "@ + error_text@,
{
    let sanitized = replace_in_string(error_text, replacers);
    "Error with request to ".to_owned().concat(platform.name()).concat(": ").concat(sanitized.as_str())
}

/// A state change is reported with the new state as the current one
/// and the old state as the previous one: on Discord the stack's
/// message says it "is now" in `to` and names `from` as "previous"; the
/// message does not depend on the alert's level.
pub proof fn law_stack_state_change_discord(
    level: SeverityLevel,
    lv: Seq<char>,
    link: Seq<char>,
    name: String,
    swarm_name: Option<String>,
    server_name: Option<String>,
    from: String,
    to: String,
)
    ensures
        discord_content_spec(level, lv, link, MessageData::StackStateChange { name, swarm_name, server_name, from, to })
            == "🥞 Stack **"@ + name@ + "** is now "@ + to@ + discord_target(swarm_name, server_name)
            + "\nprevious: **"@ + from@ + "**\n"@ + link,
{
}

/// A deployment's container state change names the new state as current
/// and the old one as previous, on Discord.
pub proof fn law_container_state_change_discord(
    level: SeverityLevel,
    lv: Seq<char>,
    link: Seq<char>,
    name: String,
    swarm_name: Option<String>,
    server_name: Option<String>,
    from: String,
    to: String,
)
    ensures
        discord_content_spec(level, lv, link, MessageData::ContainerStateChange { name, swarm_name, server_name, from, to })
            == "📦 Deployment **"@ + name@ + "** is now **"@ + to@ + "**"@ + discord_target(swarm_name, server_name)
            + "\nprevious: **"@ + from@ + "**\n"@ + link,
{
}

/// On Slack, a stack's state change has the new state in its text and
/// header, and the old one in the section that follows, as "previous".
pub proof fn law_stack_state_change_slack(
    level: SeverityLevel,
    lv: Seq<char>,
    link: Seq<char>,
    name: String,
    swarm_name: Option<String>,
    server_name: Option<String>,
    from: String,
    to: String,
)
    ensures
        ({
            let m = slack_message_spec(level, lv, link, MessageData::StackStateChange { name, swarm_name, server_name, from, to });
            &&& m.text == "🥞 Stack *"@ + name@ + "* is now *"@ + to@ + "*"@
            &&& m.blocks.len() == 3
            &&& m.blocks[0] == SlackBlockView::Header(m.text)
            &&& m.blocks[1] == SlackBlockView::Section(slack_target(swarm_name, server_name) + "previous: *"@ + from@ + "*"@)
            &&& m.blocks[2] == SlackBlockView::Section(link)
        }),
{
}

/// On Slack, a container's state change has the new state in its text
/// and header, and the old one in the section that follows.
pub proof fn law_container_state_change_slack(
    level: SeverityLevel,
    lv: Seq<char>,
    link: Seq<char>,
    name: String,
    swarm_name: Option<String>,
    server_name: Option<String>,
    from: String,
    to: String,
)
    ensures
        ({
            let m = slack_message_spec(level, lv, link, MessageData::ContainerStateChange { name, swarm_name, server_name, from, to });
            &&& m.text == "📦 Container *"@ + name@ + "* is now *"@ + to@ + "*"@
            &&& m.blocks.len() == 3
            &&& m.blocks[0] == SlackBlockView::Header(m.text)
            &&& m.blocks[1] == SlackBlockView::Section(slack_target(swarm_name, server_name) + "previous: "@ + from@)
            &&& m.blocks[2] == SlackBlockView::Section(link)
        }),
{
}

/// A swarm's health alert reads as a recovery at the normal level and
/// as a failure, with its error, at the critical one.
pub proof fn law_swarm_health_discord(lv: Seq<char>, link: Seq<char>, name: String, err: Option<String>)
    ensures
        discord_content_spec(SeverityLevel::Normal, lv, link, MessageData::SwarmUnhealthy { name, err })
            == lv + " | Swarm **"@ + name@ + "** is now **healthy**\n"@ + link,
        discord_content_spec(SeverityLevel::Critical, lv, link, MessageData::SwarmUnhealthy { name, err })
            == lv + " | Swarm **"@ + name@ + "** is **unhealthy** ❌\n"@ + link + discord_error(err),
{
}

/// A server's reachability alert reads as a reconnection at the normal
/// level and as a failure, with its error, at the critical one.
pub proof fn law_server_reachability_discord(
    lv: Seq<char>,
    link: Seq<char>,
    name: String,
    region: String,
    err: Option<String>,
)
    ensures
        discord_content_spec(SeverityLevel::Normal, lv, link, MessageData::ServerUnreachable { name, region, err })
            == lv + " | **"@ + name@ + "**"@ + region@ + " is now **connected**\n"@ + link,
        discord_content_spec(SeverityLevel::Critical, lv, link, MessageData::ServerUnreachable { name, region, err })
            == lv + " | **"@ + name@ + "**"@ + region@ + " is **unreachable** ❌\n"@ + link + discord_error(err),
{
}

} // verus!
