//! The resources that updates, alerts and permissions point at.
use vstd::prelude::*;

verus! {

/// The kinds of resources.
#[derive(Clone, Copy, Debug, PartialEq, Eq, Hash, Structural)]
pub enum ResourceTargetVariant {
    System,
    Swarm,
    Server,
    Stack,
    Deployment,
    Build,
    Repo,
    Procedure,
    Action,
    Builder,
    Alerter,
    ResourceSync,
}

/// A resource, by kind and id.
#[derive(Debug)]
pub enum ResourceTarget {
    System(String),
    Swarm(String),
    Server(String),
    Stack(String),
    Deployment(String),
    Build(String),
    Repo(String),
    Procedure(String),
    Action(String),
    Builder(String),
    Alerter(String),
    ResourceSync(String),
}

/// The kind and id of a target.
pub open spec fn target_parts(target: ResourceTarget) -> (ResourceTargetVariant, Seq<char>) {
    match target {
        ResourceTarget::System(id) => (ResourceTargetVariant::System, id@),
        ResourceTarget::Swarm(id) => (ResourceTargetVariant::Swarm, id@),
        ResourceTarget::Server(id) => (ResourceTargetVariant::Server, id@),
        ResourceTarget::Stack(id) => (ResourceTargetVariant::Stack, id@),
        ResourceTarget::Deployment(id) => (ResourceTargetVariant::Deployment, id@),
        ResourceTarget::Build(id) => (ResourceTargetVariant::Build, id@),
        ResourceTarget::Repo(id) => (ResourceTargetVariant::Repo, id@),
        ResourceTarget::Procedure(id) => (ResourceTargetVariant::Procedure, id@),
        ResourceTarget::Action(id) => (ResourceTargetVariant::Action, id@),
        ResourceTarget::Builder(id) => (ResourceTargetVariant::Builder, id@),
        ResourceTarget::Alerter(id) => (ResourceTargetVariant::Alerter, id@),
        ResourceTarget::ResourceSync(id) => (ResourceTargetVariant::ResourceSync, id@),
    }
}

impl ResourceTarget {
    /// The kind of the target and its id.
    pub fn extract_variant_id(&self) -> (r: (ResourceTargetVariant, &String))
        ensures
            (r.0, r.1@) == target_parts(*self),
    {
        match self {
            ResourceTarget::System(id) => (ResourceTargetVariant::System, id),
            ResourceTarget::Swarm(id) => (ResourceTargetVariant::Swarm, id),
            ResourceTarget::Server(id) => (ResourceTargetVariant::Server, id),
            ResourceTarget::Stack(id) => (ResourceTargetVariant::Stack, id),
            ResourceTarget::Deployment(id) => (ResourceTargetVariant::Deployment, id),
            ResourceTarget::Build(id) => (ResourceTargetVariant::Build, id),
            ResourceTarget::Repo(id) => (ResourceTargetVariant::Repo, id),
            ResourceTarget::Procedure(id) => (ResourceTargetVariant::Procedure, id),
            ResourceTarget::Action(id) => (ResourceTargetVariant::Action, id),
            ResourceTarget::Builder(id) => (ResourceTargetVariant::Builder, id),
            ResourceTarget::Alerter(id) => (ResourceTargetVariant::Alerter, id),
            ResourceTarget::ResourceSync(id) => (ResourceTargetVariant::ResourceSync, id),
        }
    }

    /// A copy of the target.
    pub fn duplicate(&self) -> (t: ResourceTarget)
        ensures
            t == *self,
    {
        match self {
            ResourceTarget::System(id) => ResourceTarget::System(id.clone()),
            ResourceTarget::Swarm(id) => ResourceTarget::Swarm(id.clone()),
            ResourceTarget::Server(id) => ResourceTarget::Server(id.clone()),
            ResourceTarget::Stack(id) => ResourceTarget::Stack(id.clone()),
            ResourceTarget::Deployment(id) => ResourceTarget::Deployment(id.clone()),
            ResourceTarget::Build(id) => ResourceTarget::Build(id.clone()),
            ResourceTarget::Repo(id) => ResourceTarget::Repo(id.clone()),
            ResourceTarget::Procedure(id) => ResourceTarget::Procedure(id.clone()),
            ResourceTarget::Action(id) => ResourceTarget::Action(id.clone()),
            ResourceTarget::Builder(id) => ResourceTarget::Builder(id.clone()),
            ResourceTarget::Alerter(id) => ResourceTarget::Alerter(id.clone()),
            ResourceTarget::ResourceSync(id) => ResourceTarget::ResourceSync(id.clone()),
        }
    }
}

/// Why access to a target's updates was refused outright.
#[derive(Clone, Copy, Debug, PartialEq, Eq, Structural)]
pub enum TargetAccessError {
    /// Only admins see system updates.
    SystemRequiresAdmin,
}

/// Which resource a user's access to a target is checked on: system
/// targets are refused (only admins see them); any other target is
/// checked on its resource, by kind and id.
pub fn check_user_target_access(target: &ResourceTarget) -> (r: Result<(ResourceTargetVariant, &String), TargetAccessError>)
    ensures
        target is System ==> r == Err::<(ResourceTargetVariant, &String), TargetAccessError>(
            TargetAccessError::SystemRequiresAdmin,
        ),
        !(target is System) ==> (r matches Ok(p) && (p.0, p.1@) == target_parts(*target)),
{
    match target {
        ResourceTarget::System(_) => Err(TargetAccessError::SystemRequiresAdmin),
        _ => Ok(target.extract_variant_id()),
    }
}

// ---------------------------------------------------------------------
// Which targets' updates and alerts a user may list
// ---------------------------------------------------------------------

/// The kinds of resources whose updates and alerts a user may list, in
/// the order their filters are given.
pub open spec fn listed_variants() -> Seq<ResourceTargetVariant> {
    seq![
        ResourceTargetVariant::Swarm,
        ResourceTargetVariant::Server,
        ResourceTargetVariant::Stack,
        ResourceTargetVariant::Deployment,
        ResourceTargetVariant::Build,
        ResourceTargetVariant::Repo,
        ResourceTargetVariant::Procedure,
        ResourceTargetVariant::Action,
        ResourceTargetVariant::Builder,
        ResourceTargetVariant::Alerter,
        ResourceTargetVariant::ResourceSync,
    ]
}

/// The kinds of resources whose updates and alerts a user may list, in
/// the order their filters are given.
pub fn listed_target_variants() -> (v: Vec<ResourceTargetVariant>)
    ensures
        v@ == listed_variants(),
{
    let v = vec![
        ResourceTargetVariant::Swarm,
        ResourceTargetVariant::Server,
        ResourceTargetVariant::Stack,
        ResourceTargetVariant::Deployment,
        ResourceTargetVariant::Build,
        ResourceTargetVariant::Repo,
        ResourceTargetVariant::Procedure,
        ResourceTargetVariant::Action,
        ResourceTargetVariant::Builder,
        ResourceTargetVariant::Alerter,
        ResourceTargetVariant::ResourceSync,
    ];
    assert(v@ =~= listed_variants());
    v
}

/// One alternative of a target query: targets of this kind, either all
/// of them (`ids` is `None`) or only those with one of these ids.
#[derive(Debug)]
pub struct TargetFilter {
    pub variant: ResourceTargetVariant,
    pub ids: Option<Vec<String>>,
}

/// Which targets a user may see updates and alerts of.
#[derive(Debug)]
pub enum TargetQuery {
    /// Every target (the caller's own query applies unchanged).
    Unrestricted,
    /// Targets that one of these filters admits (and that the caller's
    /// own query admits).
    AnyOf(Vec<TargetFilter>),
}

/// Whether a filter admits the target of this kind and id.
pub open spec fn filter_admits(f: TargetFilter, variant: ResourceTargetVariant, id: Seq<char>) -> bool {
    f.variant == variant && match f.ids {
        None => true,
        Some(ids) => exists|i: int| 0 <= i < ids@.len() && #[trigger] ids@[i]@ == id,
    }
}

/// Whether a query admits the target of this kind and id.
pub open spec fn query_admits(q: TargetQuery, variant: ResourceTargetVariant, id: Seq<char>) -> bool {
    match q {
        TargetQuery::Unrestricted => true,
        TargetQuery::AnyOf(fs) => exists|i: int| 0 <= i < fs@.len() && filter_admits(#[trigger] fs@[i], variant, id),
    }
}

/// Whether the updates and alerts a user may list must be filtered by
/// target: not for admins, nor for anyone in transparent mode.
pub fn target_query_restricted(admin: bool, transparent_mode: bool) -> (r: bool)
    ensures
        r == !(admin || transparent_mode),
{
    !(admin || transparent_mode)
}

/// The query of the targets a user may see, from the ids of the
/// resources of each listed kind that the user may read (`None` where
/// the user may read them all), given in the order of
/// [listed_target_variants]: one filter per kind.
pub fn user_resource_target_query(admin: bool, transparent_mode: bool, readable_ids: Vec<Option<Vec<String>>>) -> (q:
    TargetQuery)
    requires
        !(admin || transparent_mode) ==> readable_ids@.len() == listed_variants().len(),
    ensures
        (admin || transparent_mode) ==> q is Unrestricted,
        !(admin || transparent_mode) ==> (q matches TargetQuery::AnyOf(fs) && fs@.len() == listed_variants().len()
            && forall|i: int|
            0 <= i < fs@.len() ==> #[trigger] fs@[i].variant == listed_variants()[i] && fs@[i].ids
                == readable_ids@[i]),
{
    if !target_query_restricted(admin, transparent_mode) {
        return TargetQuery::Unrestricted;
    }
    let variants = listed_target_variants();
    let mut filters: Vec<TargetFilter> = Vec::new();
    let mut rest = readable_ids;
    let ghost ids_by_kind = rest@;
    let mut i: usize = 0;
    while i < variants.len()
        invariant
            variants@ == listed_variants(),
            ids_by_kind.len() == listed_variants().len(),
            i <= variants.len(),
            rest@ == ids_by_kind.skip(i as int),
            filters@.len() == i,
            forall|j: int|
                0 <= j < i ==> #[trigger] filters@[j].variant == listed_variants()[j] && filters@[j].ids
                    == ids_by_kind[j],
        decreases variants.len() - i,
    {
        let entry = rest.remove(0);
        assert(rest@ =~= ids_by_kind.skip(i + 1));
        filters.push(TargetFilter { variant: variants[i], ids: entry });
        i = i + 1;
    }
    TargetQuery::AnyOf(filters)
}

/// Outside transparent mode, a user who is not an admin never sees the
/// updates and alerts of the system target.
pub proof fn law_system_target_hidden(q: TargetQuery, id: Seq<char>)
    requires
        q matches TargetQuery::AnyOf(fs) && forall|i: int|
            0 <= i < fs@.len() ==> #[trigger] fs@[i].variant == listed_variants()[i],
        q matches TargetQuery::AnyOf(fs) && fs@.len() == listed_variants().len(),
    ensures
        !query_admits(q, ResourceTargetVariant::System, id),
{
    if let TargetQuery::AnyOf(fs) = q {
        assert forall|i: int| 0 <= i < fs@.len() implies !filter_admits(#[trigger] fs@[i], ResourceTargetVariant::System, id) by {
            assert(fs@[i].variant == listed_variants()[i]);
        }
    }
}

/// A filter that lists no ids admits every target of its kind, and
/// only those.
pub proof fn law_unlisted_ids_admit_kind(f: TargetFilter, variant: ResourceTargetVariant, id: Seq<char>)
    requires
        f.ids is None,
    ensures
        filter_admits(f, variant, id) <==> f.variant == variant,
{
}

/// The query of a restricted user admits the target of a listed kind
/// exactly when the user may read that resource: all of its kind (no
/// ids), or it is among the ids.
pub proof fn law_readable_target_admitted(
    q: TargetQuery,
    readable_ids: Seq<Option<Vec<String>>>,
    k: int,
    id: Seq<char>,
)
    requires
        0 <= k < listed_variants().len(),
        q matches TargetQuery::AnyOf(fs) && fs@.len() == listed_variants().len() && forall|i: int|
            0 <= i < fs@.len() ==> #[trigger] fs@[i].variant == listed_variants()[i] && fs@[i].ids
                == readable_ids[i],
    ensures
        query_admits(q, listed_variants()[k], id) <==> match readable_ids[k] {
            None => true,
            Some(ids) => exists|j: int| 0 <= j < ids@.len() && #[trigger] ids@[j]@ == id,
        },
{
    if let TargetQuery::AnyOf(fs) = q {
        assert(fs@[k].variant == listed_variants()[k]);
        assert forall|i: int| 0 <= i < fs@.len() && i != k implies #[trigger] fs@[i].variant != listed_variants()[k] by {
            assert(fs@[i].variant == listed_variants()[i]);
        }
        if query_admits(q, listed_variants()[k], id) {
            let i = choose|i: int| 0 <= i < fs@.len() && filter_admits(#[trigger] fs@[i], listed_variants()[k], id);
            assert(i == k);
        }
        if filter_admits(fs@[k], listed_variants()[k], id) {
            assert(query_admits(q, listed_variants()[k], id));
        }
    }
}

} // verus!
