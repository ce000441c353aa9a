//! Alerts: the buffer that holds back alerts on transient issues, and
//! the rules that open, update and close swarm and stack alerts.
use crate::connection::str_eq;
use crate::target::ResourceTarget;
use vstd::prelude::*;

verus! {

/// The kinds of alert data.
#[derive(Clone, Copy, Debug, PartialEq, Eq, Hash, Structural)]
pub enum AlertDataVariant {
    Test,
    SwarmUnhealthy,
    ServerUnreachable,
    ServerCpu,
    ServerMem,
    ServerDisk,
    ServerVersionMismatch,
    ContainerStateChange,
    DeploymentImageUpdateAvailable,
    DeploymentAutoUpdated,
    StackStateChange,
    StackImageUpdateAvailable,
    StackAutoUpdated,
    AwsBuilderTerminationFailed,
    ResourceSyncPendingUpdates,
    BuildFailed,
    RepoBuildFailed,
    ProcedureFailed,
    ActionFailed,
    ScheduleRun,
    Custom,
    NoData,
}

/// How severe an alert is.
#[derive(Clone, Copy, Debug, PartialEq, Eq, Hash, Structural)]
pub enum SeverityLevel {
    /// Nothing wrong (any more).
    Normal,
    Warning,
    Critical,
}

/// The state of a swarm.
#[derive(Clone, Copy, Debug, PartialEq, Eq, Hash, Structural)]
pub enum SwarmState {
    Healthy,
    Unhealthy,
    Down,
    Unknown,
}

/// The state of a stack.
#[derive(Clone, Copy, Debug, PartialEq, Eq, Hash, Structural)]
pub enum StackState {
    Deploying,
    Running,
    Paused,
    Stopped,
    Created,
    Restarting,
    Dead,
    Removing,
    Unhealthy,
    Down,
    Unknown,
}

/// What an alert is about.
#[derive(Debug)]
pub enum AlertData {
    /// A swarm is unhealthy.
    SwarmUnhealthy { id: String, name: String, err: Option<String> },
    /// A stack changed state.
    StackStateChange {
        id: String,
        name: String,
        swarm_id: Option<String>,
        swarm_name: Option<String>,
        server_id: Option<String>,
        server_name: Option<String>,
        from: StackState,
        to: StackState,
    },
    /// A newer image is available for a deployment.
    DeploymentImageUpdateAvailable {
        id: String,
        name: String,
        swarm_id: Option<String>,
        swarm_name: Option<String>,
        server_id: Option<String>,
        server_name: Option<String>,
        image: String,
    },
    /// A deployment was redeployed with a newer image.
    DeploymentAutoUpdated {
        id: String,
        name: String,
        swarm_id: Option<String>,
        swarm_name: Option<String>,
        server_id: Option<String>,
        server_name: Option<String>,
        image: String,
    },
}

/// An alert.
#[derive(Debug)]
pub struct Alert {
    /// The id given by the database; empty until stored.
    pub id: String,
    pub ts: i64,
    pub resolved: bool,
    pub resolved_ts: Option<i64>,
    pub level: SeverityLevel,
    pub target: ResourceTarget,
    pub data: AlertData,
}

// ---------------------------------------------------------------------
// Alert buffer
// ---------------------------------------------------------------------

/// One remembered resource and alert kind.
struct BufferEntry {
    id: String,
    variant: AlertDataVariant,
    ready: bool,
}

/// The key of a buffer entry.
pub type BufferKey = (Seq<char>, AlertDataVariant);

/// The value of one buffer entry.
pub open spec fn entry_view(e: (Seq<char>, AlertDataVariant, bool)) -> (BufferKey, bool) {
    ((e.0, e.1), e.2)
}

/// The flag of `key` in a list of entries: the last entry with the key
/// decides.
pub open spec fn lookup(entries: Seq<(Seq<char>, AlertDataVariant, bool)>, key: BufferKey) -> Option<bool>
    decreases entries.len(),
{
    if entries.len() == 0 {
        None
    } else if (entries.last().0, entries.last().1) == key {
        Some(entries.last().2)
    } else {
        lookup(entries.drop_last(), key)
    }
}

/// The entries without those of `key`.
pub open spec fn without(entries: Seq<(Seq<char>, AlertDataVariant, bool)>, key: BufferKey) -> Seq<
    (Seq<char>, AlertDataVariant, bool),
>
    decreases entries.len(),
{
    if entries.len() == 0 {
        entries
    } else {
        let rest = without(entries.drop_last(), key);
        if (entries.last().0, entries.last().1) == key {
            rest
        } else {
            rest.push(entries.last())
        }
    }
}

/// Removing the entries of `key` forgets `key` and keeps every other key.
pub proof fn lemma_lookup_without(
    entries: Seq<(Seq<char>, AlertDataVariant, bool)>,
    key: BufferKey,
    other: BufferKey,
)
    ensures
        lookup(without(entries, key), other) == if other == key {
            None
        } else {
            lookup(entries, other)
        },
    decreases entries.len(),
{
    if entries.len() > 0 {
        lemma_lookup_without(entries.drop_last(), key, other);
        let rest = without(entries.drop_last(), key);
        if (entries.last().0, entries.last().1) != key {
            assert(rest.push(entries.last()).drop_last() =~= rest);
        }
    }
}

/// Holds back alerts on transient issues: an alert opens only on the
/// second consecutive report of the same issue.
pub struct AlertBuffer {
    entries: Vec<BufferEntry>,
}

/// Whether the report finds the issue already reported once: the
/// alert is then ready to open.
pub open spec fn ready_result(flag: Option<bool>) -> bool {
    flag == Some(true)
}

/// The flag after a report: set by a first report, cleared when the
/// alert opens.
pub open spec fn ready_next(flag: Option<bool>) -> Option<bool> {
    Some(!ready_result(flag))
}

impl AlertBuffer {
    /// The entries as values.
    closed spec fn entries_view(&self) -> Seq<(Seq<char>, AlertDataVariant, bool)> {
        self.entries@.map_values(|e: BufferEntry| (e.id@, e.variant, e.ready))
    }

    /// The remembered flag of a resource and alert kind, if any.
    pub closed spec fn flag(&self, key: BufferKey) -> Option<bool> {
        lookup(self.entries_view(), key)
    }

    /// An empty buffer.
    pub fn new() -> (b: AlertBuffer)
        ensures
            forall|k: BufferKey| #[trigger] b.flag(k) is None,
    {
        let b = AlertBuffer { entries: Vec::new() };
        assert(b.entries_view() =~= Seq::empty());
        b
    }

    /// Forgets every entry of `key`.
    fn remove_key(&mut self, id: &str, variant: AlertDataVariant)
        ensures
            final(self).entries_view() == without(old(self).entries_view(), (id@, variant)),
    {
        let ghost old_view = self.entries_view();
        let mut kept: Vec<BufferEntry> = Vec::new();
        let mut i: usize = 0;
        while i < self.entries.len()
            invariant
                i <= self.entries.len(),
                self.entries_view() == old_view,
                kept@.map_values(|e: BufferEntry| (e.id@, e.variant, e.ready)) == without(
                    old_view.take(i as int),
                    (id@, variant),
                ),
            decreases self.entries.len() - i,
        {
            let e = &self.entries[i];
            assert(old_view.take(i + 1).drop_last() =~= old_view.take(i as int));
            assert(old_view.take(i + 1).last() == old_view[i as int]);
            if !(str_eq(e.id.as_str(), id) && e.variant == variant) {
                let ghost before = kept@;
                kept.push(BufferEntry { id: e.id.clone(), variant: e.variant, ready: e.ready });
                assert(kept@.map_values(|e: BufferEntry| (e.id@, e.variant, e.ready)) =~= before.map_values(
                    |e: BufferEntry| (e.id@, e.variant, e.ready),
                ).push(old_view[i as int]));
            }
            i = i + 1;
        }
        assert(old_view.take(self.entries.len() as int) =~= old_view);
        self.entries = kept;
    }

    /// Reports an issue of kind `variant` on resource `id`: returns
    /// whether the alert should open, which it does on the second
    /// consecutive report; the flag then starts over.
    pub fn ready_to_open(&mut self, id: String, variant: AlertDataVariant) -> (ready: bool)
        ensures
            ready == ready_result(old(self).flag((id@, variant))),
            forall|k: BufferKey| #[trigger]
                final(self).flag(k) == if k == (id@, variant) {
                    ready_next(old(self).flag((id@, variant)))
                } else {
                    old(self).flag(k)
                },
    {
        let ghost old_view = self.entries_view();
        let mut found: Option<bool> = None;
        let mut i: usize = self.entries.len();
        assert(old_view.take(i as int) =~= old_view);
        while i > 0 && found.is_none()
            invariant
                i <= self.entries.len(),
                self.entries_view() == old_view,
                found is None ==> lookup(old_view, (id@, variant)) == lookup(old_view.take(i as int), (id@, variant)),
                found is Some ==> lookup(old_view, (id@, variant)) == found,
            decreases i,
        {
            let e = &self.entries[i - 1];
            assert(old_view.take(i as int).drop_last() =~= old_view.take(i - 1));
            assert(old_view.take(i as int).last() == old_view[i - 1]);
            if str_eq(e.id.as_str(), id.as_str()) && e.variant == variant {
                found = Some(e.ready);
            }
            i = i - 1;
        }
        proof {
            if found is None {
                assert(old_view.take(0) =~= Seq::<(Seq<char>, AlertDataVariant, bool)>::empty());
            }
        }
        let ready = match found {
            Some(flag) => flag,
            None => false,
        };
        self.remove_key(id.as_str(), variant);
        let ghost removed = self.entries_view();
        self.entries.push(BufferEntry { id, variant, ready: !ready });
        proof {
            assert(self.entries_view() =~= removed.push((id@, variant, !ready)));
            assert forall|k: BufferKey| #[trigger]
                self.flag(k) == if k == (id@, variant) {
                    ready_next(old(self).flag((id@, variant)))
                } else {
                    old(self).flag(k)
                } by {
                assert(self.entries_view().drop_last() =~= removed);
                lemma_lookup_without(old_view, (id@, variant), k);
            }
        }
        ready
    }

    /// Forgets the reports of kind `variant` on resource `id`.
    pub fn reset(&mut self, id: String, variant: AlertDataVariant)
        ensures
            forall|k: BufferKey| #[trigger]
                final(self).flag(k) == if k == (id@, variant) {
                    None
                } else {
                    old(self).flag(k)
                },
    {
        let ghost old_view = self.entries_view();
        self.remove_key(id.as_str(), variant);
        proof {
            assert forall|k: BufferKey| #[trigger]
                self.flag(k) == if k == (id@, variant) {
                    None
                } else {
                    old(self).flag(k)
                } by {
                lemma_lookup_without(old_view, (id@, variant), k);
            }
        }
    }
}

// ---------------------------------------------------------------------
// Swarm health alerts
// ---------------------------------------------------------------------

/// What to do with a swarm's health alert. The flag says whether the
/// alert is to be sent to the alerters.
#[derive(Debug)]
pub enum SwarmAlertAction {
    /// Leave alerts as they are.
    Nothing,
    /// Open a new alert.
    Open(Alert, bool),
    /// Update the open alert.
    Update(Alert, bool),
    /// Close the open alert.
    Close(Alert, bool),
}

/// Whether `alert` is the alert opened for an unhealthy swarm: not yet
/// stored, unresolved, critical, about the swarm.
pub open spec fn is_swarm_unhealthy_alert(alert: Alert, ts: i64, id: String, name: String, err: Option<String>) -> bool {
    &&& alert.id@ == Seq::<char>::empty()
    &&& alert.ts == ts
    &&& !alert.resolved
    &&& alert.resolved_ts is None
    &&& alert.level == SeverityLevel::Critical
    &&& alert.target == ResourceTarget::Swarm(id)
    &&& alert.data == AlertData::SwarmUnhealthy { id, name, err }
}

/// The decision on a swarm's health alert, from the swarm's state, the
/// open health alert if any, and whether unhealthy alerts are enabled
/// for the swarm.
///
/// - Unhealthy (or down, or unknown) with no open alert: when alerts
///   are enabled and the swarm is not in maintenance, the report goes
///   to the buffer, and the alert opens (and is sent) on the second
///   consecutive report.
/// - Unhealthy with an open alert: with alerts enabled, the alert's
///   error is updated (never sent again); with alerts disabled, the
///   alert is closed without being sent.
/// - Healthy: an open alert is closed (sent if alerts are enabled);
///   with none open, the buffer forgets the swarm.
pub fn swarm_health_alert(
    ts: i64,
    id: String,
    name: String,
    state: SwarmState,
    status_err: Option<String>,
    open_alert: Option<Alert>,
    send_unhealthy_alerts: bool,
    in_maintenance: bool,
    buffer: &mut AlertBuffer,
) -> (action: SwarmAlertAction)
    ensures
        ({
            let key = (id@, AlertDataVariant::SwarmUnhealthy);
            let unhealthy = state != SwarmState::Healthy;
            let buffered = unhealthy && open_alert is None && send_unhealthy_alerts && !in_maintenance;
            let reset = !unhealthy && open_alert is None;
            &&& buffered ==> forall|k: BufferKey| #[trigger]
                final(buffer).flag(k) == if k == key {
                    ready_next(old(buffer).flag(key))
                } else {
                    old(buffer).flag(k)
                }
            &&& reset ==> forall|k: BufferKey| #[trigger]
                final(buffer).flag(k) == if k == key {
                    None
                } else {
                    old(buffer).flag(k)
                }
            &&& !buffered && !reset ==> forall|k: BufferKey| #[trigger] final(buffer).flag(k) == old(buffer).flag(k)
            &&& buffered && ready_result(old(buffer).flag(key)) ==> (action matches SwarmAlertAction::Open(a, send)
                && send && is_swarm_unhealthy_alert(a, ts, id, name, status_err))
            &&& buffered && !ready_result(old(buffer).flag(key)) ==> action is Nothing
            &&& !buffered ==> action == {
                match open_alert {
                    None => SwarmAlertAction::Nothing,
                    Some(alert) => if !unhealthy {
                        SwarmAlertAction::Close(alert, send_unhealthy_alerts)
                    } else if !send_unhealthy_alerts {
                        SwarmAlertAction::Close(alert, false)
                    } else {
                        match alert.data {
                            AlertData::SwarmUnhealthy { id: alert_id, name: alert_name, .. } => SwarmAlertAction::Update(
                                Alert {
                                    data: AlertData::SwarmUnhealthy { id: alert_id, name: alert_name, err: status_err },
                                    ..alert
                                },
                                false,
                            ),
                            _ => SwarmAlertAction::Nothing,
                        }
                    },
                }
            }
        }),
{
    let unhealthy = match state {
        SwarmState::Healthy => false,
        _ => true,
    };
    match open_alert {
        None => {
            if unhealthy {
                if send_unhealthy_alerts && !in_maintenance {
                    let ready = buffer.ready_to_open(id.clone(), AlertDataVariant::SwarmUnhealthy);
                    if ready {
                        let alert = Alert {
                            id: String::new(),
                            ts,
                            resolved: false,
                            resolved_ts: None,
                            level: SeverityLevel::Critical,
                            target: ResourceTarget::Swarm(id.clone()),
                            data: AlertData::SwarmUnhealthy { id, name, err: status_err },
                        };
                        proof {
                            assert(alert.id@ == Seq::<char>::empty());
                        }
                        return SwarmAlertAction::Open(alert, true);
                    }
                }
                SwarmAlertAction::Nothing
            } else {
                buffer.reset(id, AlertDataVariant::SwarmUnhealthy);
                SwarmAlertAction::Nothing
            }
        },
        Some(alert) => {
            if !unhealthy {
                SwarmAlertAction::Close(alert, send_unhealthy_alerts)
            } else if !send_unhealthy_alerts {
                SwarmAlertAction::Close(alert, false)
            } else {
                match alert.data {
                    AlertData::SwarmUnhealthy { id: alert_id, name: alert_name, err: _ } => {
                        SwarmAlertAction::Update(
                            Alert {
                                id: alert.id,
                                ts: alert.ts,
                                resolved: alert.resolved,
                                resolved_ts: alert.resolved_ts,
                                level: alert.level,
                                target: alert.target,
                                data: AlertData::SwarmUnhealthy { id: alert_id, name: alert_name, err: status_err },
                            },
                            false,
                        )
                    },
                    _ => SwarmAlertAction::Nothing,
                }
            }
        },
    }
}

// ---------------------------------------------------------------------
// Stack state alerts
// ---------------------------------------------------------------------

/// `None` for an empty string, else the string.
pub fn optional_string(s: String) -> (r: Option<String>)
    ensures
        s@.len() == 0 ==> r is None,
        s@.len() != 0 ==> r == Some(s),
{
    if s.as_str().unicode_len() == 0 {
        None
    } else {
        Some(s)
    }
}

/// The value of an optional string, empty strings read as unset.
pub open spec fn optional_view(s: String) -> Option<String> {
    if s@.len() == 0 {
        None
    } else {
        Some(s)
    }
}

/// The name recorded for `id`: the first entry with that id.
pub open spec fn name_of(names: Seq<(String, String)>, id: Seq<char>) -> Option<String>
    decreases names.len(),
{
    if names.len() == 0 {
        None
    } else if names[0].0@ == id {
        Some(names[0].1)
    } else {
        name_of(names.skip(1), id)
    }
}

/// The name recorded for a resource id, from a list of (id, name).
pub fn lookup_name(names: &Vec<(String, String)>, id: &str) -> (name: Option<String>)
    ensures
        name == name_of(names@, id@),
{
    let mut i: usize = 0;
    assert(names@.skip(0) =~= names@);
    while i < names.len()
        invariant
            i <= names.len(),
            name_of(names@, id@) == name_of(names@.skip(i as int), id@),
        decreases names.len() - i,
    {
        assert(names@.skip(i as int).skip(1) =~= names@.skip(i + 1));
        assert(names@.skip(i as int)[0] == names@[i as int]);
        if str_eq(names[i].0.as_str(), id) {
            return Some(names[i].1.clone());
        }
        i = i + 1;
    }
    assert(names@.skip(i as int) =~= Seq::<(String, String)>::empty());
    None
}

/// Whether a stack's state change calls for an alert, before looking
/// at the stack itself: there is a previous state, neither state is
/// unknown (the server is then unreachable, which alerts already), no
/// deploy is running, and the state changed. Returns the previous state.
pub fn stack_state_changed(prev: Option<StackState>, curr: StackState, deploying: bool) -> (changed:
    Option<StackState>)
    ensures
        changed == match prev {
            Some(p) => if p != StackState::Unknown && curr != StackState::Unknown && !deploying && curr != p {
                Some(p)
            } else {
                None
            },
            None => None,
        },
{
    match prev {
        None => None,
        Some(p) => {
            if curr == StackState::Unknown || p == StackState::Unknown {
                return None;
            }
            if deploying {
                return None;
            }
            if curr != p {
                Some(p)
            } else {
                None
            }
        },
    }
}

/// What the alert on a stack's state change records of the stack.
pub struct StackAlertInfo {
    pub id: String,
    pub name: String,
    pub swarm_id: String,
    pub server_id: String,
    pub send_alerts: bool,
}

/// Whether `alert` is the alert recording a stack's state change: a
/// warning, already resolved at `ts`, naming the stack's swarm and
/// server where set.
pub open spec fn is_stack_state_alert(
    alert: Alert,
    ts: i64,
    stack: StackAlertInfo,
    swarm_names: Seq<(String, String)>,
    server_names: Seq<(String, String)>,
    from: StackState,
    to: StackState,
) -> bool {
    &&& alert.id@ == Seq::<char>::empty()
    &&& alert.ts == ts
    &&& alert.resolved
    &&& alert.resolved_ts == Some(ts)
    &&& alert.level == SeverityLevel::Warning
    &&& alert.target == ResourceTarget::Stack(stack.id)
    &&& alert.data == AlertData::StackStateChange {
        id: stack.id,
        name: stack.name,
        swarm_id: optional_view(stack.swarm_id),
        swarm_name: name_of(swarm_names, stack.swarm_id@),
        server_id: optional_view(stack.server_id),
        server_name: name_of(server_names, stack.server_id@),
        from,
        to,
    }
}

/// The alert on a stack's state change from `from` to `to`, unless the
/// stack does not send alerts.
pub fn stack_state_alert(
    ts: i64,
    stack: StackAlertInfo,
    swarm_names: &Vec<(String, String)>,
    server_names: &Vec<(String, String)>,
    from: StackState,
    to: StackState,
) -> (alert: Option<Alert>)
    ensures
        !stack.send_alerts ==> alert is None,
        stack.send_alerts ==> (alert matches Some(a) && is_stack_state_alert(
            a,
            ts,
            stack,
            swarm_names@,
            server_names@,
            from,
            to,
        )),
{
    if !stack.send_alerts {
        return None;
    }
    let swarm_name = lookup_name(swarm_names, stack.swarm_id.as_str());
    let server_name = lookup_name(server_names, stack.server_id.as_str());
    let target = ResourceTarget::Stack(stack.id.clone());
    let alert = Alert {
        id: String::new(),
        ts,
        resolved: true,
        resolved_ts: Some(ts),
        level: SeverityLevel::Warning,
        target,
        data: AlertData::StackStateChange {
            id: stack.id,
            name: stack.name,
            swarm_id: optional_string(stack.swarm_id),
            swarm_name,
            server_id: optional_string(stack.server_id),
            server_name,
            from,
            to,
        },
    };
    Some(alert)
}

// ---------------------------------------------------------------------
// Updating and closing alerts
// ---------------------------------------------------------------------

/// The alerts among `alerts` that are marked to be sent.
pub open spec fn marked_to_send(alerts: Seq<(Alert, bool)>) -> Seq<Alert>
    decreases alerts.len(),
{
    if alerts.len() == 0 {
        Seq::empty()
    } else {
        let rest = marked_to_send(alerts.drop_last());
        if alerts.last().1 {
            rest.push(alerts.last().0)
        } else {
            rest
        }
    }
}

/// An alert as sent when it closes: resolved at `ts`, back to normal.
pub open spec fn closed_alert(alert: Alert, ts: i64) -> Alert {
    Alert { resolved: true, resolved_ts: Some(ts), level: SeverityLevel::Normal, ..alert }
}

/// The alerts to send of a batch of updated alerts: those marked to be
/// sent, in order.
pub fn alerts_to_send(alerts: Vec<(Alert, bool)>) -> (sent: Vec<Alert>)
    ensures
        sent@ == marked_to_send(alerts@),
{
    let ghost all = alerts@;
    let mut rest = alerts;
    let mut sent: Vec<Alert> = Vec::new();
    let n = rest.len();
    let mut i: usize = 0;
    assert(all.skip(0) =~= all);
    while rest.len() > 0
        invariant
            i + rest@.len() == all.len(),
            all.len() == n,
            rest@ == all.skip(i as int),
            sent@ == marked_to_send(all.take(i as int)),
        decreases rest.len(),
    {
        let (alert, send) = rest.remove(0);
        assert(all.take(i + 1).drop_last() =~= all.take(i as int));
        assert(all.take(i + 1).last() == all[i as int]);
        assert(rest@ =~= all.skip(i + 1));
        if send {
            sent.push(alert);
        }
        i = i + 1;
    }
    assert(all.take(i as int) =~= all);
    sent
}

/// The alerts to send of a batch of alerts being closed: those marked
/// to be sent, each resolved at `ts` and back to normal.
pub fn closed_alerts_to_send(alerts: Vec<(Alert, bool)>, ts: i64) -> (sent: Vec<Alert>)
    ensures
        sent@ == marked_to_send(alerts@).map_values(|a: Alert| closed_alert(a, ts)),
{
    let ghost all = alerts@;
    let mut rest = alerts;
    let mut sent: Vec<Alert> = Vec::new();
    let n = rest.len();
    let mut i: usize = 0;
    assert(all.skip(0) =~= all);
    while rest.len() > 0
        invariant
            i + rest@.len() == all.len(),
            all.len() == n,
            rest@ == all.skip(i as int),
            sent@ == marked_to_send(all.take(i as int)).map_values(|a: Alert| closed_alert(a, ts)),
        decreases rest.len(),
    {
        let (alert, send) = rest.remove(0);
        assert(all.take(i + 1).drop_last() =~= all.take(i as int));
        assert(all.take(i + 1).last() == all[i as int]);
        assert(rest@ =~= all.skip(i + 1));
        if send {
            let closed = Alert {
                id: alert.id,
                ts: alert.ts,
                resolved: true,
                resolved_ts: Some(ts),
                level: SeverityLevel::Normal,
                target: alert.target,
                data: alert.data,
            };
            let ghost before = sent@;
            sent.push(closed);
            assert(sent@ =~= marked_to_send(all.take(i + 1)).map_values(|a: Alert| closed_alert(a, ts)));
        }
        i = i + 1;
    }
    assert(all.take(i as int) =~= all);
    sent
}

/// Consecutive reports of an issue alternate: a report that does not
/// open the alert is followed by one that does, and one that opens it
/// starts the count over. The first report of an issue (or the first
/// after a reset) never opens the alert.
pub proof fn law_buffer_opens_on_second_report(flag: Option<bool>)
    ensures
        ready_result(ready_next(flag)) == !ready_result(flag),
        !ready_result(None),
{
}

/// A stack's state-change alert records the previous state as `from` and
/// the new one as `to`, about that stack, as a warning already resolved
/// when it is raised.
pub proof fn law_stack_alert_records_the_change(
    alert: Alert,
    ts: i64,
    stack: StackAlertInfo,
    swarm_names: Seq<(String, String)>,
    server_names: Seq<(String, String)>,
    from: StackState,
    to: StackState,
)
    requires
        is_stack_state_alert(alert, ts, stack, swarm_names, server_names, from, to),
    ensures
        alert.data is StackStateChange,
        alert.data->StackStateChange_from == from,
        alert.data->StackStateChange_to == to,
        alert.data->StackStateChange_id == stack.id,
        alert.target == ResourceTarget::Stack(stack.id),
        alert.level == SeverityLevel::Warning,
        alert.resolved,
{
}

} // verus!
