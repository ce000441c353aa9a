//! Permission levels, specific permissions, and the rules that decide
//! what a user may do on a resource.
use crate::specifics::{
    lemma_seq_extend_contains, seq_extend, specific_items, specific_set_clone, specific_set_contains,
    specific_set_extend, specific_set_get, specific_set_insert, specific_set_len, specific_set_new,
    SpecificPermission,
};
use indexmap::IndexSet;
use vstd::prelude::*;

verus! {

/// The level of access to a resource, from weakest to strongest.
#[derive(Clone, Copy, Debug, PartialEq, Eq, Hash, Structural)]
pub enum PermissionLevel {
    /// No access at all.
    NoAccess,
    Read,
    Execute,
    Write,
}

impl PermissionLevel {
    /// The position of the level in `NoAccess < Read < Execute < Write`.
    pub open spec fn rank(self) -> int {
        match self {
            PermissionLevel::NoAccess => 0,
            PermissionLevel::Read => 1,
            PermissionLevel::Execute => 2,
            PermissionLevel::Write => 3,
        }
    }

    /// The position of the level in `NoAccess < Read < Execute < Write`.
    pub fn rank_of(&self) -> (r: u8)
        ensures
            r == self.rank(),
    {
        match self {
            PermissionLevel::NoAccess => 0,
            PermissionLevel::Read => 1,
            PermissionLevel::Execute => 2,
            PermissionLevel::Write => 3,
        }
    }

    /// Whether `self` is at least as strong as `other`.
    pub fn at_least(&self, other: &PermissionLevel) -> (r: bool)
        ensures
            r == (self.rank() >= other.rank()),
    {
        self.rank_of() >= other.rank_of()
    }

    /// The level with this rank and no specific permissions.
    pub fn into_permission(self) -> (p: PermissionLevelAndSpecifics)
        ensures
            p.level == self,
            p@.specific == Seq::<SpecificPermission>::empty(),
    {
        PermissionLevelAndSpecifics { level: self, specific: specific_set_new() }
    }

    /// The level together with the given specific permission.
    pub fn with_specific(self, specific: SpecificPermission) -> (p: PermissionLevelAndSpecifics)
        ensures
            p.level == self,
            p@.specific == seq![specific],
    {
        let mut set = specific_set_new();
        specific_set_insert(&mut set, specific);
        assert(Seq::<SpecificPermission>::empty().push(specific) =~= seq![specific]);
        PermissionLevelAndSpecifics { level: self, specific: set }
    }

    /// The level together with the `Terminal` specific permission.
    pub fn terminal(self) -> (p: PermissionLevelAndSpecifics)
        ensures
            p.level == self,
            p@.specific == seq![SpecificPermission::Terminal],
    {
        self.with_specific(SpecificPermission::Terminal)
    }

    /// The level together with every specific permission.
    pub fn all(self) -> (p: PermissionLevelAndSpecifics)
        ensures
            p.level == self,
            p@.specific == all_specifics(),
    {
        let mut set = specific_set_new();
        specific_set_insert(&mut set, SpecificPermission::Terminal);
        specific_set_insert(&mut set, SpecificPermission::Attach);
        specific_set_insert(&mut set, SpecificPermission::Inspect);
        specific_set_insert(&mut set, SpecificPermission::Logs);
        specific_set_insert(&mut set, SpecificPermission::Processes);
        assert(specific_items(set) =~= all_specifics());
        PermissionLevelAndSpecifics { level: self, specific: set }
    }
}

/// Every specific permission, in declaration order.
pub open spec fn all_specifics() -> Seq<SpecificPermission> {
    seq![
        SpecificPermission::Terminal,
        SpecificPermission::Attach,
        SpecificPermission::Inspect,
        SpecificPermission::Logs,
        SpecificPermission::Processes,
    ]
}

/// The stronger of two levels.
pub open spec fn max_level(a: PermissionLevel, b: PermissionLevel) -> PermissionLevel {
    if b.rank() > a.rank() {
        b
    } else {
        a
    }
}

/// A permission level together with specific permissions.
#[derive(Debug)]
pub struct PermissionLevelAndSpecifics {
    pub level: PermissionLevel,
    pub specific: IndexSet<SpecificPermission>,
}

/// The mathematical value of a permission: its level and the
/// sequence of its specific permissions.
pub struct PermissionView {
    pub level: PermissionLevel,
    pub specific: Seq<SpecificPermission>,
}

impl View for PermissionLevelAndSpecifics {
    type V = PermissionView;

    open spec fn view(&self) -> PermissionView {
        PermissionView { level: self.level, specific: specific_items(self.specific) }
    }
}

/// Whether `have` holds every item of `need`.
pub open spec fn holds_all(have: Seq<SpecificPermission>, need: Seq<SpecificPermission>) -> bool {
    forall|i: int| 0 <= i < need.len() ==> have.contains(#[trigger] need[i])
}

/// Whether permission `p` is enough for what `required` asks.
pub open spec fn fulfills(p: PermissionView, required: PermissionView) -> bool {
    p.level.rank() >= required.level.rank() && holds_all(p.specific, required.specific)
}

/// `acc` raised to at least `other`: the stronger level and the
/// specific permissions of both.
pub open spec fn elevate_view(acc: PermissionView, other: PermissionView) -> PermissionView {
    PermissionView {
        level: max_level(acc.level, other.level),
        specific: seq_extend(acc.specific, other.specific),
    }
}

/// `acc` raised in turn by each permission of `others`.
pub open spec fn elevate_all(acc: PermissionView, others: Seq<PermissionView>) -> PermissionView
    decreases others.len(),
{
    if others.len() == 0 {
        acc
    } else {
        elevate_view(elevate_all(acc, others.drop_last()), others.last())
    }
}

/// The permission that a missing entry contributes: nothing.
pub open spec fn no_permission() -> PermissionView {
    PermissionView { level: PermissionLevel::NoAccess, specific: Seq::empty() }
}

/// The view of an optional permission, a missing one granting nothing.
pub open spec fn option_view(p: Option<PermissionLevelAndSpecifics>) -> PermissionView {
    match p {
        Some(p) => p@,
        None => no_permission(),
    }
}

/// The views of a list of optional permissions.
pub open spec fn option_views(ps: Seq<Option<PermissionLevelAndSpecifics>>) -> Seq<PermissionView> {
    ps.map_values(|p: Option<PermissionLevelAndSpecifics>| option_view(p))
}

/// The views of a list of permissions.
pub open spec fn views(ps: Seq<PermissionLevelAndSpecifics>) -> Seq<PermissionView> {
    ps.map_values(|p: PermissionLevelAndSpecifics| p@)
}

/// The level every user starts from: `Read` in transparent mode, else `NoAccess`.
pub open spec fn base_level(transparent_mode: bool) -> PermissionLevel {
    if transparent_mode {
        PermissionLevel::Read
    } else {
        PermissionLevel::NoAccess
    }
}

impl PermissionLevelAndSpecifics {
    /// Whether `self` holds every specific permission in `specific`.
    pub fn fulfills_specific(&self, specific: &IndexSet<SpecificPermission>) -> (r: bool)
        ensures
            r == holds_all(self@.specific, specific_items(*specific)),
    {
        let ghost need = specific_items(*specific);
        let n = specific_set_len(specific);
        let mut i: usize = 0;
        while i < n
            invariant
                n == need.len(),
                need == specific_items(*specific),
                i <= n,
                forall|j: int| 0 <= j < i ==> self@.specific.contains(#[trigger] need[j]),
            decreases n - i,
        {
            match specific_set_get(specific, i) {
                Some(item) => {
                    if !specific_set_contains(&self.specific, &item) {
                        return false;
                    }
                },
                None => {},
            }
            i = i + 1;
        }
        true
    }

    /// Whether `self` is enough for what `other` asks: a level at least
    /// as strong, and every specific permission of `other`.
    pub fn fulfills(&self, other: &PermissionLevelAndSpecifics) -> (r: bool)
        ensures
            r == fulfills(self@, other@),
    {
        if !self.level.at_least(&other.level) {
            return false;
        }
        self.fulfills_specific(&other.specific)
    }

    /// Raises `self` to at least `other`.
    pub fn elevate(&mut self, other: &PermissionLevelAndSpecifics)
        ensures
            final(self)@ == elevate_view(old(self)@, other@),
    {
        if other.level.rank_of() > self.level.rank_of() {
            self.level = other.level;
        }
        specific_set_extend(&mut self.specific, &other.specific);
    }

    /// A new permission: `self` raised to at least `other`.
    pub fn join(&self, other: &PermissionLevelAndSpecifics) -> (p: PermissionLevelAndSpecifics)
        ensures
            p@ == elevate_view(self@, other@),
    {
        let mut p = PermissionLevelAndSpecifics {
            level: self.level,
            specific: specific_set_clone(&self.specific),
        };
        p.elevate(other);
        p
    }

    /// A copy of `self`.
    pub fn duplicate(&self) -> (p: PermissionLevelAndSpecifics)
        ensures
            p@ == self@,
    {
        PermissionLevelAndSpecifics { level: self.level, specific: specific_set_clone(&self.specific) }
    }
}

/// Raises `acc` by each optional permission in turn.
fn elevate_by_options(acc: &mut PermissionLevelAndSpecifics, others: &Vec<Option<PermissionLevelAndSpecifics>>)
    ensures
        final(acc)@ == elevate_all(old(acc)@, option_views(others@)),
{
    let ghost start = acc@;
    let ghost all = option_views(others@);
    let mut i: usize = 0;
    while i < others.len()
        invariant
            i <= others.len(),
            all == option_views(others@),
            acc@ == elevate_all(start, all.take(i as int)),
        decreases others.len() - i,
    {
        assert(all.take(i + 1).drop_last() =~= all.take(i as int));
        match &others[i] {
            Some(p) => {
                acc.elevate(p);
            },
            None => {
                assert(seq_extend(acc@.specific, Seq::empty()) == acc@.specific);
                assert(elevate_view(acc@, no_permission()) =~= acc@);
            },
        }
        i = i + 1;
    }
    assert(all.take(others.len() as int) =~= all);
}

/// Raises `acc` by each permission in turn.
fn elevate_by_all(acc: &mut PermissionLevelAndSpecifics, others: &Vec<PermissionLevelAndSpecifics>)
    ensures
        final(acc)@ == elevate_all(old(acc)@, views(others@)),
{
    let ghost start = acc@;
    let ghost all = views(others@);
    let mut i: usize = 0;
    while i < others.len()
        invariant
            i <= others.len(),
            all == views(others@),
            acc@ == elevate_all(start, all.take(i as int)),
        decreases others.len() - i,
    {
        assert(all.take(i + 1).drop_last() =~= all.take(i as int));
        acc.elevate(&others[i]);
        i = i + 1;
    }
    assert(all.take(others.len() as int) =~= all);
}

/// What a non-admin user holds on a resource: the start level, raised
/// by the resource's base permission, the user's permission on all
/// resources of the type, each user group's permission on all
/// resources of the type, and each permission recorded for the
/// resource itself.
pub open spec fn user_permission_spec(
    transparent_mode: bool,
    inherited_specific: Seq<SpecificPermission>,
    resource_base: PermissionView,
    user_all: PermissionView,
    group_alls: Seq<PermissionView>,
    resource_permissions: Seq<PermissionView>,
) -> PermissionView {
    let start = PermissionView { level: base_level(transparent_mode), specific: inherited_specific };
    elevate_all(
        elevate_all(elevate_view(elevate_view(start, resource_base), user_all), group_alls),
        resource_permissions,
    )
}

/// The permission of a user on one resource. An admin holds `Write`
/// with every specific permission. Anyone else starts from `Read` in
/// transparent mode (else `NoAccess`) with the specific permissions
/// inherited from another target, and is raised by the resource's base
/// permission, the user's and each user group's permission on all
/// resources of the type (`NoAccess` where there is none), and each
/// permission recorded on the resource for the user or a group.
pub fn get_user_permission_on_resource(
    admin: bool,
    transparent_mode: bool,
    inherited_specific: IndexSet<SpecificPermission>,
    resource_base: &PermissionLevelAndSpecifics,
    user_all: &Option<PermissionLevelAndSpecifics>,
    group_alls: &Vec<Option<PermissionLevelAndSpecifics>>,
    resource_permissions: &Vec<PermissionLevelAndSpecifics>,
) -> (p: PermissionLevelAndSpecifics)
    ensures
        admin ==> p@ == (PermissionView { level: PermissionLevel::Write, specific: all_specifics() }),
        !admin ==> p@ == user_permission_spec(
            transparent_mode,
            specific_items(inherited_specific),
            resource_base@,
            option_view(*user_all),
            option_views(group_alls@),
            views(resource_permissions@),
        ),
{
    if admin {
        return PermissionLevel::Write.all();
    }
    let level = if transparent_mode {
        PermissionLevel::Read
    } else {
        PermissionLevel::NoAccess
    };
    let mut permission = PermissionLevelAndSpecifics { level, specific: inherited_specific };
    permission.elevate(resource_base);
    match user_all {
        Some(all) => permission.elevate(all),
        None => {
            assert(seq_extend(permission@.specific, Seq::empty()) == permission@.specific);
            assert(elevate_view(permission@, no_permission()) =~= permission@);
        },
    }
    elevate_by_options(&mut permission, group_alls);
    elevate_by_all(&mut permission, resource_permissions);
    permission
}

/// Why a permission check refused.
#[derive(Clone, Copy, Debug, PartialEq, Eq, Structural)]
pub enum PermissionError {
    /// The user lacks the required level or specific permissions.
    Insufficient,
}

/// Whether a user passes a permission check on a resource: admins
/// always; others when the required level is open to them (`Read` or
/// below in transparent mode, or at most the resource's base level)
/// and they hold the required specific permissions, or when their own
/// permission on the resource fulfills the requirement.
pub open spec fn permission_check_passes(
    admin: bool,
    transparent_mode: bool,
    resource_base_level: PermissionLevel,
    user_permission: PermissionView,
    required: PermissionView,
) -> bool {
    ||| admin
    ||| (((required.level.rank() <= PermissionLevel::Read.rank() && transparent_mode)
        || resource_base_level.rank() >= required.level.rank())
        && holds_all(user_permission.specific, required.specific))
    ||| fulfills(user_permission, required)
}

/// The decision of a permission check on a resource, given the user's
/// permission on it (see [get_user_permission_on_resource]).
pub fn check_permissions(
    admin: bool,
    transparent_mode: bool,
    resource_base: &PermissionLevelAndSpecifics,
    user_permission: &PermissionLevelAndSpecifics,
    required: &PermissionLevelAndSpecifics,
) -> (r: Result<(), PermissionError>)
    ensures
        r is Ok <==> permission_check_passes(
            admin,
            transparent_mode,
            resource_base.level,
            user_permission@,
            required@,
        ),
        r is Err ==> r == Err::<(), PermissionError>(PermissionError::Insufficient),
{
    if admin {
        return Ok(());
    }
    let open_level = (required.level.rank_of() <= 1 && transparent_mode) || resource_base.level.at_least(
        &required.level,
    );
    if open_level && user_permission.fulfills_specific(&required.specific) {
        return Ok(());
    }
    if user_permission.fulfills(required) {
        Ok(())
    } else {
        Err(PermissionError::Insufficient)
    }
}

/// Which resources of a type a user may list.
#[derive(Debug)]
pub enum ListingScope {
    /// Every resource of the type.
    All,
    /// Only those whose own permission, joined with this base, fulfills
    /// the requirement.
    Filtered(PermissionLevelAndSpecifics),
}

/// The base permission a user holds on every resource of a type: the
/// start level raised by the user's and each user group's permission
/// on all resources of the type.
pub open spec fn listing_base_spec(
    transparent_mode: bool,
    user_all: PermissionView,
    group_alls: Seq<PermissionView>,
) -> PermissionView {
    elevate_all(
        elevate_view(
            PermissionView { level: base_level(transparent_mode), specific: Seq::empty() },
            user_all,
        ),
        group_alls,
    )
}

/// Whether the user may list all resources of a type without looking
/// at each one, and otherwise the base permission to join with each.
pub fn listing_scope(
    admin: bool,
    transparent_mode: bool,
    user_all: &Option<PermissionLevelAndSpecifics>,
    group_alls: &Vec<Option<PermissionLevelAndSpecifics>>,
    required: &PermissionLevelAndSpecifics,
) -> (scope: ListingScope)
    ensures
        scope is All <==> (admin || fulfills(
            listing_base_spec(transparent_mode, option_view(*user_all), option_views(group_alls@)),
            required@,
        )),
        scope matches ListingScope::Filtered(base) ==> base@ == listing_base_spec(
            transparent_mode,
            option_view(*user_all),
            option_views(group_alls@),
        ),
{
    if admin {
        return ListingScope::All;
    }
    let level = if transparent_mode {
        PermissionLevel::Read
    } else {
        PermissionLevel::NoAccess
    };
    let mut base = level.into_permission();
    let ghost start = base@;
    assert(start == (PermissionView { level: base_level(transparent_mode), specific: Seq::empty() }));
    if base.fulfills(required) {
        proof {
            lemma_elevate_all_keeps(
                elevate_view(start, option_view(*user_all)),
                option_views(group_alls@),
                start,
            );
            lemma_elevate_keeps(start, option_view(*user_all));
            lemma_fulfills_transitive(
                listing_base_spec(transparent_mode, option_view(*user_all), option_views(group_alls@)),
                start,
                required@,
            );
        }
        return ListingScope::All;
    }
    match user_all {
        Some(all) => {
            base.elevate(all);
            if base.fulfills(required) {
                proof {
                    lemma_elevate_all_keeps(base@, option_views(group_alls@), base@);
                    lemma_fulfills_transitive(
                        elevate_all(base@, option_views(group_alls@)),
                        base@,
                        required@,
                    );
                }
                return ListingScope::All;
            }
        },
        None => {
            assert(seq_extend(base@.specific, Seq::empty()) == base@.specific);
            assert(elevate_view(base@, no_permission()) =~= base@);
        },
    }
    let ghost after_user = base@;
    let ghost all = option_views(group_alls@);
    let mut i: usize = 0;
    while i < group_alls.len()
        invariant
            i <= group_alls.len(),
            all == option_views(group_alls@),
            base@ == elevate_all(after_user, all.take(i as int)),
            after_user == elevate_view(start, option_view(*user_all)),
            start == (PermissionView { level: base_level(transparent_mode), specific: Seq::empty() }),
            !fulfills(base@, required@),
        decreases group_alls.len() - i,
    {
        assert(all.take(i + 1).drop_last() =~= all.take(i as int));
        match &group_alls[i] {
            Some(p) => {
                base.elevate(p);
                if base.fulfills(required) {
                    proof {
                        assert(all[i as int] == option_view(group_alls@[i as int]));
                        assert(all.take(i + 1).last() == all[i as int]);
                        assert(base@ == elevate_all(after_user, all.take(i + 1)));
                        let rest = all.skip(i + 1);
                        lemma_elevate_all_split(after_user, all, i + 1);
                        lemma_elevate_all_keeps(base@, rest, base@);
                        lemma_fulfills_transitive(elevate_all(after_user, all), base@, required@);
                    }
                    return ListingScope::All;
                }
            },
            None => {
                assert(seq_extend(base@.specific, Seq::empty()) == base@.specific);
                assert(elevate_view(base@, no_permission()) =~= base@);
            },
        }
        i = i + 1;
    }
    assert(all.take(group_alls.len() as int) =~= all);
    ListingScope::Filtered(base)
}

/// What the listing of one resource needs next.
#[derive(Clone, Copy, Debug, PartialEq, Eq, Structural)]
pub enum ResourceVisibility {
    /// The resource is listed.
    Visible,
    /// The specific permissions inherited from another target decide.
    NeedsInherited,
    /// The resource is not listed.
    Hidden,
}

/// The permission of a user on one resource while listing: the base
/// joined with the permission recorded for the resource, if any.
pub fn listing_permission(
    base: &PermissionLevelAndSpecifics,
    recorded: &Option<PermissionLevelAndSpecifics>,
) -> (p: PermissionLevelAndSpecifics)
    ensures
        recorded is Some ==> p@ == elevate_view(base@, option_view(*recorded)),
        recorded is None ==> p@ == base@,
{
    match recorded {
        Some(r) => base.join(r),
        None => base.duplicate(),
    }
}

/// Whether a resource is listed from the user's permission on it, or
/// whether the specific permissions inherited from another target must
/// be looked up first (when the resource names such a target).
pub fn resource_visibility(
    permission: &PermissionLevelAndSpecifics,
    required: &PermissionLevelAndSpecifics,
    has_inherit_target: bool,
) -> (v: ResourceVisibility)
    ensures
        v == (if fulfills(permission@, required@) {
            ResourceVisibility::Visible
        } else if has_inherit_target {
            ResourceVisibility::NeedsInherited
        } else {
            ResourceVisibility::Hidden
        }),
{
    if permission.fulfills(required) {
        ResourceVisibility::Visible
    } else if has_inherit_target {
        ResourceVisibility::NeedsInherited
    } else {
        ResourceVisibility::Hidden
    }
}

/// Whether a resource is listed once the inherited specific
/// permissions are added to the user's permission on it.
pub fn visible_with_inherited(
    permission: &mut PermissionLevelAndSpecifics,
    inherited: &IndexSet<SpecificPermission>,
    required: &PermissionLevelAndSpecifics,
) -> (visible: bool)
    ensures
        final(permission)@ == (PermissionView {
            level: old(permission)@.level,
            specific: seq_extend(old(permission)@.specific, specific_items(*inherited)),
        }),
        visible == fulfills(final(permission)@, required@),
{
    specific_set_extend(&mut permission.specific, inherited);
    permission.fulfills(required)
}

// ---------------------------------------------------------------------
// Laws
// ---------------------------------------------------------------------

/// Everything held by `acc` is still held after raising it by `other`,
/// and so is everything of `other`.
pub proof fn lemma_elevate_keeps(acc: PermissionView, other: PermissionView)
    ensures
        fulfills(elevate_view(acc, other), acc),
        fulfills(elevate_view(acc, other), other),
{
    let e = elevate_view(acc, other);
    assert forall|i: int| 0 <= i < acc.specific.len() implies e.specific.contains(#[trigger] acc.specific[i]) by {
        lemma_seq_extend_contains(acc.specific, other.specific, acc.specific[i]);
        assert(acc.specific.contains(acc.specific[i]));
    }
    assert forall|i: int| 0 <= i < other.specific.len() implies e.specific.contains(#[trigger] other.specific[i]) by {
        lemma_seq_extend_contains(acc.specific, other.specific, other.specific[i]);
        assert(other.specific.contains(other.specific[i]));
    }
}

/// Fulfilling is transitive.
pub proof fn lemma_fulfills_transitive(a: PermissionView, b: PermissionView, c: PermissionView)
    requires
        fulfills(a, b),
        fulfills(b, c),
    ensures
        fulfills(a, c),
{
    assert forall|i: int| 0 <= i < c.specific.len() implies a.specific.contains(#[trigger] c.specific[i]) by {
        assert(b.specific.contains(c.specific[i]));
        let j = choose|j: int| 0 <= j < b.specific.len() && b.specific[j] == c.specific[i];
        assert(a.specific.contains(b.specific[j]));
    }
}

/// Every permission fulfills itself.
pub proof fn lemma_fulfills_reflexive(a: PermissionView)
    ensures
        fulfills(a, a),
{
    assert forall|i: int| 0 <= i < a.specific.len() implies a.specific.contains(#[trigger] a.specific[i]) by {}
}

/// Raising by a list of permissions never loses anything that `keep`
/// demands of the starting permission.
pub proof fn lemma_elevate_all_keeps(acc: PermissionView, others: Seq<PermissionView>, keep: PermissionView)
    requires
        fulfills(acc, keep),
    ensures
        fulfills(elevate_all(acc, others), keep),
    decreases others.len(),
{
    if others.len() > 0 {
        lemma_elevate_all_keeps(acc, others.drop_last(), keep);
        let prev = elevate_all(acc, others.drop_last());
        lemma_elevate_keeps(prev, others.last());
        lemma_fulfills_transitive(elevate_view(prev, others.last()), prev, keep);
    }
}

/// Raising by a list is raising by its first part, then by the rest.
pub proof fn lemma_elevate_all_split(acc: PermissionView, others: Seq<PermissionView>, k: int)
    requires
        0 <= k <= others.len(),
    ensures
        elevate_all(acc, others) == elevate_all(elevate_all(acc, others.take(k)), others.skip(k)),
    decreases others.len(),
{
    if others.len() == k {
        assert(others.take(k) =~= others);
        assert(others.skip(k) =~= Seq::<PermissionView>::empty());
    } else {
        lemma_elevate_all_split(acc, others.drop_last(), k);
        assert(others.drop_last().take(k) =~= others.take(k));
        assert(others.skip(k).drop_last() =~= others.drop_last().skip(k));
        assert(others.skip(k).last() == others.last());
    }
}

/// The result of raising by a list fulfills each permission of the list.
pub proof fn lemma_elevate_all_fulfills_each(acc: PermissionView, others: Seq<PermissionView>, i: int)
    requires
        0 <= i < others.len(),
    ensures
        fulfills(elevate_all(acc, others), others[i]),
    decreases others.len(),
{
    let prev = elevate_all(acc, others.drop_last());
    lemma_elevate_keeps(prev, others.last());
    if i < others.len() - 1 {
        lemma_elevate_all_fulfills_each(acc, others.drop_last(), i);
        lemma_fulfills_transitive(elevate_view(prev, others.last()), prev, others[i]);
    }
}

/// Admins pass every permission check.
pub proof fn law_admin_passes_every_check(
    transparent_mode: bool,
    resource_base_level: PermissionLevel,
    user_permission: PermissionView,
    required: PermissionView,
)
    ensures
        permission_check_passes(true, transparent_mode, resource_base_level, user_permission, required),
{
}

/// An admin's permission on a resource fulfills every requirement.
pub proof fn law_admin_permission_fulfills_all(required: PermissionView)
    ensures
        fulfills(PermissionView { level: PermissionLevel::Write, specific: all_specifics() }, required),
{
    assert forall|i: int| 0 <= i < required.specific.len() implies all_specifics().contains(
        #[trigger] required.specific[i],
    ) by {
        let s = required.specific[i];
        match s {
            SpecificPermission::Terminal => assert(all_specifics()[0] == s),
            SpecificPermission::Attach => assert(all_specifics()[1] == s),
            SpecificPermission::Inspect => assert(all_specifics()[2] == s),
            SpecificPermission::Logs => assert(all_specifics()[3] == s),
            SpecificPermission::Processes => assert(all_specifics()[4] == s),
        }
    }
}

/// A user whose own permission fulfills the requirement passes the check.
pub proof fn law_fulfilling_permission_passes(
    transparent_mode: bool,
    resource_base_level: PermissionLevel,
    user_permission: PermissionView,
    required: PermissionView,
)
    requires
        fulfills(user_permission, required),
    ensures
        permission_check_passes(false, transparent_mode, resource_base_level, user_permission, required),
{
}

/// Each source of permission only raises a user's permission on a
/// resource: the result fulfills the resource's base permission, the
/// user's permission on all resources of the type, every user group's,
/// and every permission recorded on the resource.
pub proof fn law_user_permission_covers_every_grant(
    transparent_mode: bool,
    inherited_specific: Seq<SpecificPermission>,
    resource_base: PermissionView,
    user_all: PermissionView,
    group_alls: Seq<PermissionView>,
    resource_permissions: Seq<PermissionView>,
)
    ensures
        ({
            let p = user_permission_spec(
                transparent_mode,
                inherited_specific,
                resource_base,
                user_all,
                group_alls,
                resource_permissions,
            );
            &&& fulfills(p, resource_base)
            &&& fulfills(p, user_all)
            &&& forall|i: int| 0 <= i < group_alls.len() ==> fulfills(p, #[trigger] group_alls[i])
            &&& forall|i: int| 0 <= i < resource_permissions.len() ==> fulfills(p, #[trigger] resource_permissions[i])
            &&& p.level.rank() >= base_level(transparent_mode).rank()
        }),
{
    let start = PermissionView { level: base_level(transparent_mode), specific: inherited_specific };
    let a = elevate_view(start, resource_base);
    let b = elevate_view(a, user_all);
    let c = elevate_all(b, group_alls);
    let p = elevate_all(c, resource_permissions);
    lemma_elevate_keeps(start, resource_base);
    lemma_elevate_keeps(a, user_all);
    lemma_fulfills_transitive(b, a, resource_base);
    lemma_fulfills_transitive(b, a, start);
    lemma_fulfills_reflexive(b);
    lemma_elevate_all_keeps(b, group_alls, b);
    lemma_fulfills_reflexive(c);
    lemma_elevate_all_keeps(c, resource_permissions, c);
    lemma_fulfills_transitive(c, b, resource_base);
    lemma_fulfills_transitive(c, b, user_all);
    lemma_fulfills_transitive(p, c, resource_base);
    lemma_fulfills_transitive(p, c, user_all);
    lemma_fulfills_transitive(c, b, start);
    lemma_fulfills_transitive(p, c, start);
    assert forall|i: int| 0 <= i < group_alls.len() implies fulfills(p, #[trigger] group_alls[i]) by {
        lemma_elevate_all_fulfills_each(b, group_alls, i);
        lemma_fulfills_transitive(p, c, group_alls[i]);
    }
    assert forall|i: int| 0 <= i < resource_permissions.len() implies fulfills(p, #[trigger] resource_permissions[i]) by {
        lemma_elevate_all_fulfills_each(c, resource_permissions, i);
    }
}

/// Joining keeps both sides: the joined permission fulfills each.
pub proof fn law_join_fulfills_both(a: PermissionView, b: PermissionView)
    ensures
        fulfills(elevate_view(a, b), a),
        fulfills(elevate_view(a, b), b),
{
    lemma_elevate_keeps(a, b);
}

/// Joining is symmetric up to the order of specific permissions: each
/// joined permission fulfills the other.
pub proof fn law_join_symmetric(a: PermissionView, b: PermissionView)
    ensures
        fulfills(elevate_view(a, b), elevate_view(b, a)),
        elevate_view(a, b).level == elevate_view(b, a).level || elevate_view(a, b).level.rank() == elevate_view(
            b,
            a,
        ).level.rank(),
{
    let ab = elevate_view(a, b);
    let ba = elevate_view(b, a);
    assert forall|i: int| 0 <= i < ba.specific.len() implies ab.specific.contains(#[trigger] ba.specific[i]) by {
        let x = ba.specific[i];
        assert(ba.specific.contains(x));
        lemma_seq_extend_contains(b.specific, a.specific, x);
        lemma_seq_extend_contains(a.specific, b.specific, x);
    }
}

/// Listing all resources of a type is monotone in the requirement: if
/// the user may list everything for a requirement, then also for any
/// weaker one.
pub proof fn law_listing_all_monotone(base: PermissionView, required: PermissionView, weaker: PermissionView)
    requires
        fulfills(base, required),
        fulfills(required, weaker),
    ensures
        fulfills(base, weaker),
{
    lemma_fulfills_transitive(base, required, weaker);
}

/// Raising keeps the order of permissions: if `a` fulfills `b`, `a`
/// raised by `o` fulfills `b` raised by `o`.
pub proof fn lemma_elevate_monotone(a: PermissionView, b: PermissionView, o: PermissionView)
    requires
        fulfills(a, b),
    ensures
        fulfills(elevate_view(a, o), elevate_view(b, o)),
{
    let ea = elevate_view(a, o);
    let eb = elevate_view(b, o);
    assert forall|i: int| 0 <= i < eb.specific.len() implies ea.specific.contains(#[trigger] eb.specific[i]) by {
        let x = eb.specific[i];
        assert(eb.specific.contains(x));
        lemma_seq_extend_contains(b.specific, o.specific, x);
        lemma_seq_extend_contains(a.specific, o.specific, x);
        if b.specific.contains(x) {
            let j = choose|j: int| 0 <= j < b.specific.len() && b.specific[j] == x;
            assert(a.specific.contains(b.specific[j]));
        }
    }
}

/// Raising by the same list keeps the order of permissions.
pub proof fn lemma_elevate_all_monotone(a: PermissionView, b: PermissionView, others: Seq<PermissionView>)
    requires
        fulfills(a, b),
    ensures
        fulfills(elevate_all(a, others), elevate_all(b, others)),
    decreases others.len(),
{
    if others.len() > 0 {
        lemma_elevate_all_monotone(a, b, others.drop_last());
        lemma_elevate_monotone(elevate_all(a, others.drop_last()), elevate_all(b, others.drop_last()), others.last());
    }
}

/// A user who may list every resource of a type without looking at each
/// one passes the permission check on every resource of that type: the
/// user's permission on any one resource fulfills the listing's base.
pub proof fn law_listing_all_passes_each_check(
    transparent_mode: bool,
    inherited_specific: Seq<SpecificPermission>,
    resource_base: PermissionView,
    user_all: PermissionView,
    group_alls: Seq<PermissionView>,
    resource_permissions: Seq<PermissionView>,
    required: PermissionView,
)
    requires
        fulfills(listing_base_spec(transparent_mode, user_all, group_alls), required),
    ensures
        permission_check_passes(
            false,
            transparent_mode,
            resource_base.level,
            user_permission_spec(
                transparent_mode,
                inherited_specific,
                resource_base,
                user_all,
                group_alls,
                resource_permissions,
            ),
            required,
        ),
{
    let start = PermissionView { level: base_level(transparent_mode), specific: inherited_specific };
    let start0 = PermissionView { level: base_level(transparent_mode), specific: Seq::empty() };
    let a = elevate_view(start, resource_base);
    lemma_elevate_keeps(start, resource_base);
    assert(fulfills(start, start0));
    lemma_fulfills_transitive(a, start, start0);
    lemma_elevate_monotone(a, start0, user_all);
    let b = elevate_view(a, user_all);
    lemma_elevate_all_monotone(b, elevate_view(start0, user_all), group_alls);
    let c = elevate_all(b, group_alls);
    let p = elevate_all(c, resource_permissions);
    lemma_fulfills_reflexive(c);
    lemma_elevate_all_keeps(c, resource_permissions, c);
    let base = listing_base_spec(transparent_mode, user_all, group_alls);
    lemma_fulfills_transitive(p, c, base);
    lemma_fulfills_transitive(p, base, required);
}

/// Whether a user may create a resource of kind `kind`: admins always;
/// others unless creation is restricted to admins, and for a server only
/// with the permission to create servers.
pub fn user_can_create(
    kind: crate::target::ResourceTargetVariant,
    admin: bool,
    disable_non_admin_create: bool,
    create_server_permissions: bool,
) -> (r: bool)
    ensures
        r == (admin || (!disable_non_admin_create && (kind != crate::target::ResourceTargetVariant::Server
            || create_server_permissions))),
{
    match kind {
        crate::target::ResourceTargetVariant::Server => admin || (!disable_non_admin_create && create_server_permissions),
        _ => admin || !disable_non_admin_create,
    }
}

/// Transparent mode opens only reading: a user who is not an admin, and
/// whose own permission and the resource's base level are both below a
/// required level above `Read`, fails the check, with transparent mode
/// or without.
pub proof fn law_check_refuses_without_grant_above_read(
    transparent_mode: bool,
    resource_base_level: PermissionLevel,
    user_permission: PermissionView,
    required: PermissionView,
)
    requires
        required.level == PermissionLevel::Execute || required.level == PermissionLevel::Write,
        user_permission.level.rank() < required.level.rank(),
        resource_base_level.rank() < required.level.rank(),
    ensures
        !permission_check_passes(false, transparent_mode, resource_base_level, user_permission, required),
{
}

/// In transparent mode every user may read a resource (holding the
/// specific permissions asked for); without it, a user with no access of
/// their own on a resource whose base level is no access may not.
pub proof fn law_transparent_mode_opens_reading(user_permission: PermissionView, required: PermissionView)
    requires
        required.level == PermissionLevel::Read,
        holds_all(user_permission.specific, required.specific),
    ensures
        permission_check_passes(false, true, PermissionLevel::NoAccess, user_permission, required),
        user_permission.level == PermissionLevel::NoAccess ==> !permission_check_passes(
            false,
            false,
            PermissionLevel::NoAccess,
            user_permission,
            required,
        ),
{
}

/// The levels are ordered `NoAccess < Read < Execute < Write`.
pub proof fn law_levels_ordered()
    ensures
        PermissionLevel::NoAccess.rank() < PermissionLevel::Read.rank(),
        PermissionLevel::Read.rank() < PermissionLevel::Execute.rank(),
        PermissionLevel::Execute.rank() < PermissionLevel::Write.rank(),
{
}

/// Raising never goes above a level that bounds every source.
proof fn lemma_elevate_all_bounded(acc: PermissionView, others: Seq<PermissionView>, bound: int)
    requires
        acc.level.rank() <= bound,
        forall|i: int| 0 <= i < others.len() ==> (#[trigger] others[i]).level.rank() <= bound,
    ensures
        elevate_all(acc, others).level.rank() <= bound,
    decreases others.len(),
{
    if others.len() > 0 {
        lemma_elevate_all_bounded(acc, others.drop_last(), bound);
        assert(others.last() == others[others.len() - 1]);
    }
}

/// A specific permission held after raising was held before or granted
/// by one of the sources.
proof fn lemma_elevate_all_specific_source(acc: PermissionView, others: Seq<PermissionView>, x: SpecificPermission)
    ensures
        elevate_all(acc, others).specific.contains(x) ==> acc.specific.contains(x) || exists|i: int|
            0 <= i < others.len() && (#[trigger] others[i]).specific.contains(x),
    decreases others.len(),
{
    if others.len() > 0 {
        let prev = elevate_all(acc, others.drop_last());
        lemma_elevate_all_specific_source(acc, others.drop_last(), x);
        lemma_seq_extend_contains(prev.specific, others.last().specific, x);
        if prev.specific.contains(x) && !acc.specific.contains(x) {
            let i = choose|i: int| 0 <= i < others.drop_last().len() && (#[trigger] others.drop_last()[i]).specific.contains(x);
            assert(others[i] == others.drop_last()[i]);
        }
        if others.last().specific.contains(x) {
            assert(others[others.len() - 1] == others.last());
        }
    }
}

/// A user holds no more on a resource than the grants give: the level is
/// at most one that bounds the start level and every grant, and each
/// specific permission held was inherited or granted by one of them.
pub proof fn law_user_permission_grants_nothing_more(
    transparent_mode: bool,
    inherited_specific: Seq<SpecificPermission>,
    resource_base: PermissionView,
    user_all: PermissionView,
    group_alls: Seq<PermissionView>,
    resource_permissions: Seq<PermissionView>,
    bound: int,
    x: SpecificPermission,
)
    requires
        base_level(transparent_mode).rank() <= bound,
        resource_base.level.rank() <= bound,
        user_all.level.rank() <= bound,
        forall|i: int| 0 <= i < group_alls.len() ==> (#[trigger] group_alls[i]).level.rank() <= bound,
        forall|i: int| 0 <= i < resource_permissions.len() ==> (#[trigger] resource_permissions[i]).level.rank() <= bound,
    ensures
        ({
            let p = user_permission_spec(
                transparent_mode,
                inherited_specific,
                resource_base,
                user_all,
                group_alls,
                resource_permissions,
            );
            &&& p.level.rank() <= bound
            &&& p.specific.contains(x) ==> inherited_specific.contains(x) || resource_base.specific.contains(x)
                || user_all.specific.contains(x) || (exists|i: int|
                0 <= i < group_alls.len() && (#[trigger] group_alls[i]).specific.contains(x)) || (exists|i: int|
                0 <= i < resource_permissions.len() && (#[trigger] resource_permissions[i]).specific.contains(x))
        }),
{
    let start = PermissionView { level: base_level(transparent_mode), specific: inherited_specific };
    let a = elevate_view(start, resource_base);
    let b = elevate_view(a, user_all);
    let c = elevate_all(b, group_alls);
    lemma_elevate_all_bounded(b, group_alls, bound);
    lemma_elevate_all_bounded(c, resource_permissions, bound);
    lemma_elevate_all_specific_source(c, resource_permissions, x);
    lemma_elevate_all_specific_source(b, group_alls, x);
    lemma_seq_extend_contains(a.specific, user_all.specific, x);
    lemma_seq_extend_contains(start.specific, resource_base.specific, x);
}

} // verus!
