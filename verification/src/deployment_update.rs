//! The check of a deployment for a newer image: when a registry is
//! asked, whether the deployment is redeployed, and when an alert is
//! sent.
use crate::alerts::{Alert, AlertData, SeverityLevel};
use crate::image_digest::{update_available_spec, ImageDigest, ImageDigestView};
use crate::deployment::{DeploymentImage, DeploymentState};
use crate::target::ResourceTarget;
use vstd::prelude::*;

verus! {

/// Whether `s` holds the character `c`.
pub fn str_has_char(s: &str, c: char) -> (r: bool)
    ensures
        r == s@.contains(c),
{
    let n = s.unicode_len();
    let mut i: usize = 0;
    while i < n
        invariant
            n == s@.len(),
            i <= n,
            forall|j: int| 0 <= j < i ==> s@[j] != c,
        decreases n - i,
    {
        if s.get_char(i) == c {
            proof {
                assert(s@[i as int] == c);
            }
            return true;
        }
        i = i + 1;
    }
    false
}

/// How a check for a newer image starts.
#[derive(Debug, PartialEq, Eq, Structural)]
pub enum UpdateCheckStart {
    /// No update is possible; `forget_alert` says whether the record
    /// of an alert already sent for the deployment is dropped.
    NoUpdate { forget_alert: bool },
    /// The registry is asked for the latest digest of the image.
    AskRegistry,
}

/// How a check for a newer image starts: deployments of builds are not
/// checked this way (and forget any alert sent), images pinned to a
/// digest (`@`) cannot have updates, and other images are looked up.
pub fn update_check_start(image: &DeploymentImage) -> (start: UpdateCheckStart)
    ensures
        start == match image {
            DeploymentImage::Build { .. } => UpdateCheckStart::NoUpdate { forget_alert: true },
            DeploymentImage::Image { image } => if image@.contains('@') {
                UpdateCheckStart::NoUpdate { forget_alert: false }
            } else {
                UpdateCheckStart::AskRegistry
            },
        },
{
    match image {
        DeploymentImage::Build { .. } => UpdateCheckStart::NoUpdate { forget_alert: true },
        DeploymentImage::Image { image } => {
            if str_has_char(image.as_str(), '@') {
                UpdateCheckStart::NoUpdate { forget_alert: false }
            } else {
                UpdateCheckStart::AskRegistry
            }
        },
    }
}

/// What follows once the latest digest is known.
#[derive(Clone, Copy, Debug, PartialEq, Eq, Structural)]
pub enum UpdateCheckAction {
    /// Nothing is done.
    Nothing,
    /// The deployment is redeployed with the newer image.
    AutoUpdate,
    /// An alert that an update is available is sent.
    SendAlert,
}

/// How the record of alerts already sent for the deployment changes.
#[derive(Clone, Copy, Debug, PartialEq, Eq, Structural)]
pub enum AlertRecordChange {
    Keep,
    Forget,
    Remember,
}

/// The outcome of a check for a newer image.
#[derive(Clone, Copy, Debug, PartialEq, Eq, Structural)]
pub struct UpdateCheckOutcome {
    pub action: UpdateCheckAction,
    pub alert_record: AlertRecordChange,
    /// What the check answers: whether an update is available and the
    /// deployment does not deploy it automatically.
    pub update_available: bool,
}

/// The outcome of the check, given what the status cache knows of the
/// running container, whether the check may redeploy, and whether an
/// alert was already sent for this update.
///
/// Without a running container whose digests are known, or when the
/// latest digest is among them, there is no update. Otherwise an
/// auto-updating deployment is redeployed (unless skipped); else an
/// alert is sent once, and repeated checks stay quiet until the update
/// goes away. The answer is true exactly when an update is available and
/// the deployment does not deploy automatically, whether or not the
/// alert was sent already.
pub open spec fn update_check_outcome_spec(
    state: Option<DeploymentState>,
    current: Option<Seq<ImageDigest>>,
    latest: ImageDigestView,
    skip_auto_update: bool,
    auto_update: bool,
    alert_already_sent: bool,
) -> UpdateCheckOutcome {
    let no_update = UpdateCheckOutcome {
        action: UpdateCheckAction::Nothing,
        alert_record: AlertRecordChange::Forget,
        update_available: false,
    };
    match (state, current) {
        (Some(s), Some(digests)) => if s != DeploymentState::Running || !update_available_spec(latest, digests) {
            no_update
        } else if !skip_auto_update && auto_update {
            UpdateCheckOutcome {
                action: UpdateCheckAction::AutoUpdate,
                alert_record: AlertRecordChange::Forget,
                update_available: false,
            }
        } else if alert_already_sent {
            UpdateCheckOutcome {
                action: UpdateCheckAction::Nothing,
                alert_record: AlertRecordChange::Keep,
                update_available: !auto_update,
            }
        } else {
            UpdateCheckOutcome {
                action: UpdateCheckAction::SendAlert,
                alert_record: AlertRecordChange::Remember,
                update_available: !auto_update,
            }
        },
        _ => no_update,
    }
}

/// The outcome of a check for a newer image (see
/// [update_check_outcome_spec]).
pub fn update_check_outcome(
    state: Option<DeploymentState>,
    current: Option<&Vec<ImageDigest>>,
    latest: &ImageDigest,
    skip_auto_update: bool,
    auto_update: bool,
    alert_already_sent: bool,
) -> (outcome: UpdateCheckOutcome)
    ensures
        outcome == update_check_outcome_spec(
            state,
            match current {
                Some(c) => Some(c@),
                None => None,
            },
            latest@,
            skip_auto_update,
            auto_update,
            alert_already_sent,
        ),
{
    let no_update = UpdateCheckOutcome {
        action: UpdateCheckAction::Nothing,
        alert_record: AlertRecordChange::Forget,
        update_available: false,
    };
    let (s, digests) = match (state, current) {
        (Some(s), Some(digests)) => (s, digests),
        _ => {
            return no_update;
        },
    };
    if s != DeploymentState::Running || !latest.update_available(digests) {
        return no_update;
    }
    if !skip_auto_update && auto_update {
        return UpdateCheckOutcome {
            action: UpdateCheckAction::AutoUpdate,
            alert_record: AlertRecordChange::Forget,
            update_available: false,
        };
    }
    if alert_already_sent {
        return UpdateCheckOutcome {
            action: UpdateCheckAction::Nothing,
            alert_record: AlertRecordChange::Keep,
            update_available: !auto_update,
        };
    }
    UpdateCheckOutcome {
        action: UpdateCheckAction::SendAlert,
        alert_record: AlertRecordChange::Remember,
        update_available: !auto_update,
    }
}

/// Where a deployment runs, by id and name.
pub struct DeploymentPlacement {
    pub swarm_id: Option<String>,
    pub swarm_name: Option<String>,
    pub server_id: Option<String>,
    pub server_name: Option<String>,
}

/// Whether `alert` records a deployment's image update: resolved at
/// `ts`, at normal level, about the deployment; `auto_updated` tells
/// whether it was redeployed or only has an update available.
pub open spec fn is_image_update_alert(
    alert: Alert,
    ts: i64,
    auto_updated: bool,
    id: String,
    name: String,
    placement: DeploymentPlacement,
    image: String,
) -> bool {
    &&& alert.id@ == Seq::<char>::empty()
    &&& alert.ts == ts
    &&& alert.resolved
    &&& alert.resolved_ts == Some(ts)
    &&& alert.level == SeverityLevel::Normal
    &&& alert.target == ResourceTarget::Deployment(id)
    &&& alert.data == if auto_updated {
        AlertData::DeploymentAutoUpdated {
            id,
            name,
            swarm_id: placement.swarm_id,
            swarm_name: placement.swarm_name,
            server_id: placement.server_id,
            server_name: placement.server_name,
            image,
        }
    } else {
        AlertData::DeploymentImageUpdateAvailable {
            id,
            name,
            swarm_id: placement.swarm_id,
            swarm_name: placement.swarm_name,
            server_id: placement.server_id,
            server_name: placement.server_name,
            image,
        }
    }
}

/// The alert recording a deployment's image update.
pub fn image_update_alert(
    ts: i64,
    auto_updated: bool,
    id: String,
    name: String,
    placement: DeploymentPlacement,
    image: String,
) -> (alert: Alert)
    ensures
        is_image_update_alert(alert, ts, auto_updated, id, name, placement, image),
{
    let target = ResourceTarget::Deployment(id.clone());
    let data = if auto_updated {
        AlertData::DeploymentAutoUpdated {
            id,
            name,
            swarm_id: placement.swarm_id,
            swarm_name: placement.swarm_name,
            server_id: placement.server_id,
            server_name: placement.server_name,
            image,
        }
    } else {
        AlertData::DeploymentImageUpdateAvailable {
            id,
            name,
            swarm_id: placement.swarm_id,
            swarm_name: placement.swarm_name,
            server_id: placement.server_id,
            server_name: placement.server_name,
            image,
        }
    };
    Alert {
        id: String::new(),
        ts,
        resolved: true,
        resolved_ts: Some(ts),
        level: SeverityLevel::Normal,
        target,
        data,
    }
}

/// Whether the check finds an update: the container runs, and the
/// latest digest is not among its digests.
pub open spec fn update_found(
    state: Option<DeploymentState>,
    current: Option<Seq<ImageDigest>>,
    latest: ImageDigestView,
) -> bool {
    match (state, current) {
        (Some(s), Some(digests)) => s == DeploymentState::Running && update_available_spec(latest, digests),
        _ => false,
    }
}

/// An alert for an available update is sent once: a second check that
/// finds the same update, with the alert recorded, stays quiet, and the
/// record is dropped when no update is found. Whether the alert was sent
/// already never changes the answer: it is true exactly when the running
/// container lags the latest digest and auto update is off.
pub proof fn law_update_alert_sent_once(
    state: Option<DeploymentState>,
    current: Option<Seq<ImageDigest>>,
    latest: ImageDigestView,
    skip_auto_update: bool,
    auto_update: bool,
)
    ensures
        update_check_outcome_spec(state, current, latest, skip_auto_update, auto_update, false).action
            == UpdateCheckAction::SendAlert ==> ({
            let again = update_check_outcome_spec(state, current, latest, skip_auto_update, auto_update, true);
            again.action == UpdateCheckAction::Nothing && again.alert_record == AlertRecordChange::Keep
        }),
        !update_found(state, current, latest) ==> update_check_outcome_spec(
            state,
            current,
            latest,
            skip_auto_update,
            auto_update,
            true,
        ).alert_record == AlertRecordChange::Forget,
        update_check_outcome_spec(state, current, latest, skip_auto_update, auto_update, true).update_available
            == update_check_outcome_spec(state, current, latest, skip_auto_update, auto_update, false).update_available,
        update_check_outcome_spec(state, current, latest, skip_auto_update, auto_update, true).update_available
            <==> (!auto_update && update_found(state, current, latest)),
{
}

} // verus!
