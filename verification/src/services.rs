//! The services of a stack: which are deployed, and how the services
//! declared in compose files are merged into the list.
use crate::connection::str_eq;
use crate::image_digest::{ImageDigest, ImageDigestView};
use vstd::prelude::*;

verus! {

/// The names and image of one service of a stack.
#[derive(Debug)]
pub struct StackServiceNames {
    pub service_name: String,
    pub container_name: String,
    pub image: String,
    pub image_digest: Option<ImageDigest>,
}

/// The value of a service entry.
pub struct ServiceView {
    pub service_name: Seq<char>,
    pub container_name: Seq<char>,
    pub image: Seq<char>,
    pub image_digest: Option<ImageDigestView>,
}

/// The value of an optional digest.
pub open spec fn digest_view(d: Option<ImageDigest>) -> Option<ImageDigestView> {
    match d {
        Some(d) => Some(d@),
        None => None,
    }
}

impl View for StackServiceNames {
    type V = ServiceView;

    open spec fn view(&self) -> ServiceView {
        ServiceView {
            service_name: self.service_name@,
            container_name: self.container_name@,
            image: self.image@,
            image_digest: digest_view(self.image_digest),
        }
    }
}

/// The values of a list of services.
pub open spec fn services_view(s: Seq<StackServiceNames>) -> Seq<ServiceView> {
    s.map_values(|x: StackServiceNames| x@)
}

/// A copy of an optional digest.
fn duplicate_digest(d: &Option<ImageDigest>) -> (r: Option<ImageDigest>)
    ensures
        r == *d,
{
    match d {
        Some(d) => Some(d.duplicate()),
        None => None,
    }
}

impl StackServiceNames {
    /// A copy of the entry.
    pub fn duplicate(&self) -> (s: StackServiceNames)
        ensures
            s == *self,
    {
        StackServiceNames {
            service_name: self.service_name.clone(),
            container_name: self.container_name.clone(),
            image: self.image.clone(),
            image_digest: duplicate_digest(&self.image_digest),
        }
    }
}

/// The image of the first service named `name` in `services`, or the
/// empty string when there is none.
pub open spec fn first_image(services: Seq<ServiceView>, name: Seq<char>) -> Seq<char>
    decreases services.len(),
{
    if services.len() == 0 {
        Seq::empty()
    } else if services[0].service_name == name {
        services[0].image
    } else {
        first_image(services.skip(1), name)
    }
}

/// A deployed service, its image filled in from the latest services
/// when it has none.
pub open spec fn with_filled_image(service: ServiceView, latest: Seq<ServiceView>) -> ServiceView {
    if service.image.len() == 0 {
        ServiceView { image: first_image(latest, service.service_name), ..service }
    } else {
        service
    }
}

/// The image of the first service named `name`, or an empty string.
fn find_image(latest: &Vec<StackServiceNames>, name: &str) -> (image: String)
    ensures
        image@ == first_image(services_view(latest@), name@),
{
    let ghost all = services_view(latest@);
    let mut i: usize = 0;
    assert(all.skip(0) =~= all);
    while i < latest.len()
        invariant
            i <= latest.len(),
            all == services_view(latest@),
            first_image(all, name@) == first_image(all.skip(i as int), name@),
        decreases latest.len() - i,
    {
        assert(all.skip(i as int).skip(1) =~= all.skip(i + 1));
        assert(all.skip(i as int)[0] == latest@[i as int]@);
        if str_eq(latest[i].service_name.as_str(), name) {
            return latest[i].image.clone();
        }
        i = i + 1;
    }
    assert(all.skip(i as int) =~= Seq::<ServiceView>::empty());
    String::new()
}

/// The services of a stack: the deployed ones, each without an image
/// taking the image of the latest service of the same name (or none);
/// when nothing is deployed, the latest services.
pub fn extract_services_from_stack(
    deployed_services: Option<Vec<StackServiceNames>>,
    latest_services: &Vec<StackServiceNames>,
) -> (services: Vec<StackServiceNames>)
    ensures
        deployed_services matches Some(deployed) ==> services_view(services@) == services_view(deployed@).map_values(
            |s: ServiceView| with_filled_image(s, services_view(latest_services@)),
        ),
        deployed_services is None ==> services_view(services@) == services_view(latest_services@),
{
    match deployed_services {
        Some(deployed) => {
            let ghost deployed_view = services_view(deployed@);
            let ghost latest_view = services_view(latest_services@);
            let mut out: Vec<StackServiceNames> = Vec::new();
            let mut i: usize = 0;
            while i < deployed.len()
                invariant
                    i <= deployed.len(),
                    deployed_view == services_view(deployed@),
                    latest_view == services_view(latest_services@),
                    services_view(out@) == deployed_view.take(i as int).map_values(
                        |s: ServiceView| with_filled_image(s, latest_view),
                    ),
                decreases deployed.len() - i,
            {
                let s = &deployed[i];
                let image = if s.image.as_str().unicode_len() == 0 {
                    find_image(latest_services, s.service_name.as_str())
                } else {
                    s.image.clone()
                };
                let filled = StackServiceNames {
                    service_name: s.service_name.clone(),
                    container_name: s.container_name.clone(),
                    image,
                    image_digest: duplicate_digest(&s.image_digest),
                };
                let ghost before = services_view(out@);
                out.push(filled);
                assert(services_view(out@) =~= before.push(with_filled_image(deployed_view[i as int], latest_view)));
                assert(deployed_view.take(i + 1).map_values(|s: ServiceView| with_filled_image(s, latest_view))
                    =~= deployed_view.take(i as int).map_values(
                    |s: ServiceView| with_filled_image(s, latest_view),
                ).push(with_filled_image(deployed_view[i as int], latest_view)));
                i = i + 1;
            }
            assert(deployed_view.take(deployed.len() as int) =~= deployed_view);
            out
        },
        None => {
            let mut out: Vec<StackServiceNames> = Vec::new();
            let mut i: usize = 0;
            while i < latest_services.len()
                invariant
                    i <= latest_services.len(),
                    services_view(out@) == services_view(latest_services@).take(i as int),
                decreases latest_services.len() - i,
            {
                let ghost before = services_view(out@);
                let d = latest_services[i].duplicate();
                assert(d@ == services_view(latest_services@)[i as int]);
                out.push(d);
                assert(services_view(out@) =~= before.push(d@));
                assert(services_view(latest_services@).take(i + 1) =~= services_view(latest_services@).take(
                    i as int,
                ).push(services_view(latest_services@)[i as int]));
                assert(services_view(out@) =~= services_view(latest_services@).take(i + 1));
                i = i + 1;
            }
            assert(services_view(latest_services@).take(latest_services.len() as int) =~= services_view(
                latest_services@,
            ));
            out
        },
    }
}

/// A service as declared in a compose file.
#[derive(Debug)]
pub struct ComposeService {
    pub service_name: String,
    pub container_name: Option<String>,
    pub image: Option<String>,
}

/// The value of a declared service.
pub struct ComposeServiceView {
    pub service_name: Seq<char>,
    pub container_name: Option<Seq<char>>,
    pub image: Option<Seq<char>>,
}

/// The value of an optional string.
pub open spec fn opt_view(s: Option<String>) -> Option<Seq<char>> {
    match s {
        Some(s) => Some(s@),
        None => None,
    }
}

impl View for ComposeService {
    type V = ComposeServiceView;

    open spec fn view(&self) -> ComposeServiceView {
        ComposeServiceView {
            service_name: self.service_name@,
            container_name: opt_view(self.container_name),
            image: opt_view(self.image),
        }
    }
}

/// The index of the first service named `name`, if any.
pub open spec fn first_index(services: Seq<ServiceView>, name: Seq<char>) -> Option<int>
    decreases services.len(),
{
    if services.len() == 0 {
        None
    } else if services[0].service_name == name {
        Some(0)
    } else {
        match first_index(services.skip(1), name) {
            Some(i) => Some(i + 1),
            None => None,
        }
    }
}

/// The digest recorded for a service, from a list of (service, digest).
pub open spec fn digest_for(digests: Seq<(String, ImageDigest)>, name: Seq<char>) -> Option<ImageDigestView>
    decreases digests.len(),
{
    if digests.len() == 0 {
        None
    } else if digests[0].0@ == name {
        Some(digests[0].1@)
    } else {
        digest_for(digests.skip(1), name)
    }
}

/// The list after merging one declared service: a service of the same
/// name takes the declared container name and image where given;
/// otherwise the service is added, named `{project}-{service}` unless a
/// container name is given, with its recorded digest and its image (or
/// none).
pub open spec fn merge_service(
    res: Seq<ServiceView>,
    project_name: Seq<char>,
    digests: Seq<(String, ImageDigest)>,
    svc: ComposeServiceView,
) -> Seq<ServiceView> {
    match first_index(res, svc.service_name) {
        Some(i) => res.update(
            i,
            ServiceView {
                container_name: match svc.container_name {
                    Some(c) => c,
                    None => res[i].container_name,
                },
                image: match svc.image {
                    Some(img) => img,
                    None => res[i].image,
                },
                ..res[i]
            },
        ),
        None => res.push(
            ServiceView {
                service_name: svc.service_name,
                container_name: match svc.container_name {
                    Some(c) => c,
                    None => project_name + seq!['-'] + svc.service_name,
                },
                image: match svc.image {
                    Some(img) => img,
                    None => Seq::empty(),
                },
                image_digest: digest_for(digests, svc.service_name),
            },
        ),
    }
}

/// The list after merging each declared service in turn.
pub open spec fn merge_services(
    res: Seq<ServiceView>,
    project_name: Seq<char>,
    digests: Seq<(String, ImageDigest)>,
    services: Seq<ComposeServiceView>,
) -> Seq<ServiceView>
    decreases services.len(),
{
    if services.len() == 0 {
        res
    } else {
        merge_service(
            merge_services(res, project_name, digests, services.drop_last()),
            project_name,
            digests,
            services.last(),
        )
    }
}

/// The index of the first service named `name`.
fn find_service(res: &Vec<StackServiceNames>, name: &str) -> (idx: Option<usize>)
    ensures
        idx is None <==> first_index(services_view(res@), name@) is None,
        idx matches Some(k) ==> first_index(services_view(res@), name@) == Some(k as int) && k < res@.len(),
{
    let ghost all = services_view(res@);
    let mut i: usize = 0;
    assert(all.skip(0) =~= all);
    while i < res.len()
        invariant
            i <= res.len(),
            all == services_view(res@),
            first_index(all, name@) == match first_index(all.skip(i as int), name@) {
                Some(j) => Some(j + i),
                None => None,
            },
        decreases res.len() - i,
    {
        assert(all.skip(i as int).skip(1) =~= all.skip(i + 1));
        assert(all.skip(i as int)[0] == res@[i as int]@);
        if str_eq(res[i].service_name.as_str(), name) {
            return Some(i);
        }
        i = i + 1;
    }
    assert(all.skip(i as int) =~= Seq::<ServiceView>::empty());
    None
}

/// The recorded digest of a service, copied.
fn find_digest(digests: &Vec<(String, ImageDigest)>, name: &str) -> (d: Option<ImageDigest>)
    ensures
        digest_view(d) == digest_for(digests@, name@),
{
    let mut i: usize = 0;
    assert(digests@.skip(0) =~= digests@);
    while i < digests.len()
        invariant
            i <= digests.len(),
            digest_for(digests@, name@) == digest_for(digests@.skip(i as int), name@),
        decreases digests.len() - i,
    {
        assert(digests@.skip(i as int).skip(1) =~= digests@.skip(i + 1));
        assert(digests@.skip(i as int)[0] == digests@[i as int]);
        if str_eq(digests[i].0.as_str(), name) {
            return Some(digests[i].1.duplicate());
        }
        i = i + 1;
    }
    assert(digests@.skip(i as int) =~= Seq::<(String, ImageDigest)>::empty());
    None
}

/// Merges the services declared in a compose file into `res`, in
/// declaration order (see [merge_service]).
pub fn extract_services_into_res(
    project_name: &str,
    compose_services: Vec<ComposeService>,
    service_image_digests: &Vec<(String, ImageDigest)>,
    res: &mut Vec<StackServiceNames>,
)
    ensures
        services_view(final(res)@) == merge_services(
            services_view(old(res)@),
            project_name@,
            service_image_digests@,
            compose_services@.map_values(|c: ComposeService| c@),
        ),
{
    let ghost start = services_view(res@);
    let ghost all = compose_services@.map_values(|c: ComposeService| c@);
    let mut rest = compose_services;
    let n = rest.len();
    let mut i: usize = 0;
    assert(all.skip(0) =~= all);
    while rest.len() > 0
        invariant
            i + rest@.len() == all.len(),
            all.len() == n,
            rest@.map_values(|c: ComposeService| c@) == all.skip(i as int),
            services_view(res@) == merge_services(start, project_name@, service_image_digests@, all.take(i as int)),
        decreases rest.len(),
    {
        let ghost old_rest = rest@;
        let svc = rest.remove(0);
        let ghost svc_view = svc@;
        assert(old_rest.map_values(|c: ComposeService| c@)[0] == svc_view);
        assert(all.skip(i as int)[0] == svc_view);
        assert(rest@ =~= old_rest.subrange(1, old_rest.len() as int));
        let ghost rv = rest@.map_values(|c: ComposeService| c@);
        let ghost ov = old_rest.map_values(|c: ComposeService| c@);
        assert forall|k: int| 0 <= k < rv.len() implies #[trigger] rv[k] == all.skip(i + 1)[k] by {
            assert(rest@[k] == old_rest[k + 1]);
            assert(ov[k + 1] == all.skip(i as int)[k + 1]);
        }
        assert(rest@.map_values(|c: ComposeService| c@) =~= all.skip(i + 1));
        assert(all.take(i + 1).drop_last() =~= all.take(i as int));
        assert(all.take(i + 1).last() == svc_view);
        let ghost before = services_view(res@);
        match find_service(res, svc.service_name.as_str()) {
            Some(idx) => {
                let mut existing = res[idx].duplicate();
                match svc.container_name {
                    Some(c) => {
                        existing.container_name = c;
                    },
                    None => {},
                }
                match svc.image {
                    Some(img) => {
                        existing.image = img;
                    },
                    None => {},
                }
                let ghost existing_view = existing@;
                assert(first_index(before, svc_view.service_name) == Some(idx as int));
                assert(existing_view.service_name == before[idx as int].service_name);
                assert(existing_view.image_digest == before[idx as int].image_digest);
                res.set(idx, existing);
                assert(services_view(res@) =~= before.update(idx as int, existing_view));
                assert(services_view(res@) =~= merge_service(before, project_name@, service_image_digests@, svc_view));
            },
            None => {
                let container_name = match svc.container_name {
                    Some(c) => c,
                    None => {
                        let name = project_name.to_owned();
                        let name = name.concat("-");
                        proof {
                            reveal_strlit("-");
                        }
                        name.concat(svc.service_name.as_str())
                    },
                };
                let image = match svc.image {
                    Some(img) => img,
                    None => String::new(),
                };
                let image_digest = find_digest(service_image_digests, svc.service_name.as_str());
                proof {
                    reveal_strlit("-");
                }
                assert(first_index(before, svc_view.service_name) is None);
                assert(svc_view.container_name is None ==> container_name@ == project_name@ + seq!['-']
                    + svc_view.service_name);
                let entry = StackServiceNames { container_name, image_digest, image, service_name: svc.service_name };
                let ghost entry_view = entry@;
                res.push(entry);
                assert(services_view(res@) =~= before.push(entry_view));
                assert(services_view(res@) =~= merge_service(before, project_name@, service_image_digests@, svc_view));
            },
        }
        i = i + 1;
    }
    assert(all.take(i as int) =~= all);
}

} // verus!
