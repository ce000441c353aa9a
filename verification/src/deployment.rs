//! Deployments: how a deployment is listed, whether deleting it
//! removes a container or service, and the cleanup of its extra
//! arguments.
use crate::deploy::{version_text, Version};
use crate::image_digest::{update_available_spec, ImageDigest, ImageDigestView};
use vstd::prelude::*;

verus! {

/// Where a deployment's image comes from.
#[derive(Debug)]
pub enum DeploymentImage {
    /// An image from a registry.
    Image { image: String },
    /// The image of a build of this system.
    Build { build_id: String, version: Version },
}

/// The state of a deployment's container.
#[derive(Clone, Copy, Debug, PartialEq, Eq, Hash, Structural)]
pub enum DeploymentState {
    Unknown,
    NotDeployed,
    Created,
    Restarting,
    Running,
    Removing,
    Paused,
    Exited,
    Dead,
    Deploying,
}

/// The build a deployment of a build runs, as found: name, id, version.
#[derive(Debug)]
pub struct BuildRef {
    pub name: String,
    pub id: String,
    pub version: Version,
}

/// What the status cache knows of a deployment.
#[derive(Debug)]
pub struct DeploymentStatus {
    pub state: DeploymentState,
    /// The image of the swarm service, if the deployment runs as one
    /// (`None` inside when the service reports no image).
    pub service_image: Option<Option<String>>,
    /// The image of the container, if the deployment runs as one.
    pub container_image: Option<Option<String>>,
    /// The container's status text.
    pub container_status: Option<String>,
    /// The digests of the images running, if known.
    pub image_digests: Option<Vec<ImageDigest>>,
}

/// How a deployment is listed.
#[derive(Debug)]
pub struct DeploymentListInfo {
    pub state: DeploymentState,
    pub status: Option<String>,
    pub image: String,
    pub update_available: bool,
    pub build_id: Option<String>,
}

/// The text shown for an image that is not reported.
pub open spec fn unknown_text() -> Seq<char> {
    "Unknown"@
}

/// The image of a deployment of a build: `{build}:{version}`, the
/// deployment's version or else the build's; `unknown` (version unset)
/// when the build is not found.
pub open spec fn build_image_label(build: Option<BuildRef>, version: Version) -> Seq<char> {
    let (name, build_version) = match build {
        Some(b) => (b.name@, b.version),
        None => ("unknown"@, Version { major: 0, minor: 0, patch: 0 }),
    };
    let v = if version.major == 0 && version.minor == 0 && version.patch == 0 {
        build_version
    } else {
        version
    };
    name + seq![':'] + version_text(v)
}

/// The image a running deployment reports: the service's, else the
/// container's (`Unknown` when either reports none).
pub open spec fn reported_image(status: Option<DeploymentStatus>) -> Option<Seq<char>> {
    match status {
        None => None,
        Some(s) => match s.service_image {
            Some(img) => Some(
                match img {
                    Some(i) => i@,
                    None => unknown_text(),
                },
            ),
            None => match s.container_image {
                Some(img) => Some(
                    match img {
                        Some(i) => i@,
                        None => unknown_text(),
                    },
                ),
                None => None,
            },
        },
    }
}

/// The text of an optional string, `Unknown` when unset.
fn image_or_unknown(img: &Option<String>) -> (s: String)
    ensures
        s@ == match img {
            Some(i) => i@,
            None => unknown_text(),
        },
{
    match img {
        Some(i) => i.clone(),
        None => {
            "Unknown".to_owned()
        },
    }
}

/// How a deployment is listed: deploying while a deploy runs, else the
/// cached state (`Unknown` without one); the image reported by the
/// service or container, else the configured image (for a build,
/// `{build}:{version}`); whether the latest digest differs from every
/// running one; and the build's id for deployments of builds.
pub fn deployment_list_info(
    deploying: bool,
    status: Option<DeploymentStatus>,
    image: DeploymentImage,
    build: Option<BuildRef>,
    latest_digest: &ImageDigest,
) -> (info: DeploymentListInfo)
    ensures
        info.state == if deploying {
            DeploymentState::Deploying
        } else {
            match status {
                Some(s) => s.state,
                None => DeploymentState::Unknown,
            }
        },
        info.status == match status {
            Some(s) => s.container_status,
            None => None,
        },
        info.image@ == match reported_image(status) {
            Some(i) => i,
            None => match image {
                DeploymentImage::Image { image } => image@,
                DeploymentImage::Build { version, .. } => build_image_label(build, version),
            },
        },
        info.update_available == match status {
            Some(DeploymentStatus { image_digests: Some(d), .. }) => update_available_spec(latest_digest@, d@),
            _ => false,
        },
        image is Image ==> info.build_id is None,
        image is Build ==> (info.build_id matches Some(id) && id@ == match build {
            Some(b) => b.id@,
            None => Seq::<char>::empty(),
        }),
{
    let state = if deploying {
        DeploymentState::Deploying
    } else {
        match &status {
            Some(s) => s.state,
            None => DeploymentState::Unknown,
        }
    };
    let (configured_image, build_id) = match image {
        DeploymentImage::Build { version, .. } => {
            let (name, id, build_version) = match build {
                Some(b) => (b.name, b.id, b.version),
                None => ("unknown".to_owned(), String::new(), Version { major: 0, minor: 0, patch: 0 }),
            };
            let v = if version.is_none() {
                build_version
            } else {
                version
            };
            let mut label = name;
            crate::deploy::string_push(&mut label, ':');
            let text = v.to_text();
            let label = label.concat(text.as_str());
            (label, Some(id))
        },
        DeploymentImage::Image { image } => (image, None),
    };
    let (reported, container_status, update_available) = match &status {
        None => (None, None, false),
        Some(s) => {
            let reported = match &s.service_image {
                Some(img) => Some(image_or_unknown(img)),
                None => match &s.container_image {
                    Some(img) => Some(image_or_unknown(img)),
                    None => None,
                },
            };
            let container_status = match &s.container_status {
                Some(c) => Some(c.clone()),
                None => None,
            };
            let update_available = match &s.image_digests {
                Some(d) => latest_digest.update_available(d),
                None => false,
            };
            (reported, container_status, update_available)
        },
    };
    let image = match reported {
        Some(i) => i,
        None => configured_image,
    };
    DeploymentListInfo { state, status: container_status, image, update_available, build_id }
}

/// Whether deleting a deployment removes its container or service:
/// only when it is placed on a swarm or server and is deployed.
pub fn needs_removal_on_delete(swarm_id: &str, server_id: &str, state: DeploymentState) -> (r: bool)
    ensures
        r == ((swarm_id@.len() != 0 || server_id@.len() != 0) && state != DeploymentState::NotDeployed && state
            != DeploymentState::Unknown),
{
    if swarm_id.unicode_len() == 0 && server_id.unicode_len() == 0 {
        return false;
    }
    match state {
        DeploymentState::NotDeployed | DeploymentState::Unknown => false,
        _ => true,
    }
}

/// Whether an argument is empty or made of spaces only.
pub open spec fn blank(arg: Seq<char>) -> bool {
    forall|i: int| 0 <= i < arg.len() ==> #[trigger] arg[i] == ' '
}

/// The arguments that are not blank, in order.
pub open spec fn kept_args(args: Seq<Seq<char>>) -> Seq<Seq<char>>
    decreases args.len(),
{
    if args.len() == 0 {
        Seq::empty()
    } else {
        let rest = kept_args(args.drop_last());
        if blank(args.last()) {
            rest
        } else {
            rest.push(args.last())
        }
    }
}

/// Whether `arg` is empty or made of spaces only.
pub fn empty_or_only_spaces(arg: &str) -> (r: bool)
    ensures
        r == blank(arg@),
{
    let n = arg.unicode_len();
    let mut i: usize = 0;
    while i < n
        invariant
            n == arg@.len(),
            i <= n,
            forall|j: int| 0 <= j < i ==> #[trigger] arg@[j] == ' ',
        decreases n - i,
    {
        if arg.get_char(i) != ' ' {
            return false;
        }
        i = i + 1;
    }
    true
}

/// Drops the blank extra arguments of a deployment's configuration,
/// keeping the others in order.
pub fn clean_extra_args(extra_args: &mut Vec<String>)
    ensures
        final(extra_args)@.map_values(|a: String| a@) == kept_args(old(extra_args)@.map_values(|a: String| a@)),
{
    let ghost before = extra_args@.map_values(|a: String| a@);
    let mut kept: Vec<String> = Vec::new();
    let mut i: usize = 0;
    while i < extra_args.len()
        invariant
            before == extra_args@.map_values(|a: String| a@),
            i <= extra_args.len(),
            kept@.map_values(|a: String| a@) == kept_args(before.take(i as int)),
        decreases extra_args.len() - i,
    {
        assert(before.take(i + 1).drop_last() =~= before.take(i as int));
        assert(before.take(i + 1).last() == extra_args@[i as int]@);
        if !empty_or_only_spaces(extra_args[i].as_str()) {
            let ghost prev = kept@.map_values(|a: String| a@);
            kept.push(extra_args[i].clone());
            assert(kept@.map_values(|a: String| a@) =~= prev.push(extra_args@[i as int]@));
        }
        i = i + 1;
    }
    assert(before.take(extra_args.len() as int) =~= before);
    *extra_args = kept;
}

} // verus!
