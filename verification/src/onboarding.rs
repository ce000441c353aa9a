//! Onboarding servers: the keys that let a new Periphery agent register
//! itself, and how an inbound Periphery connection is routed.
use crate::connection::str_eq;
use crate::validations::is_ascii_hex;
use vstd::prelude::*;

verus! {

/// A tag, by id and name.
#[derive(Debug)]
pub struct Tag {
    pub id: String,
    pub name: String,
}

/// The name of the first tag whose id or name is `tag`, if any.
pub open spec fn tag_name(all_tags: Seq<Tag>, tag: Seq<char>) -> Option<Seq<char>>
    decreases all_tags.len(),
{
    if all_tags.len() == 0 {
        None
    } else if all_tags[0].id@ == tag || all_tags[0].name@ == tag {
        Some(all_tags[0].name@)
    } else {
        tag_name(all_tags.skip(1), tag)
    }
}

/// The tags named by `tags`, as names, without those that do not exist.
pub open spec fn fixed_tags(tags: Seq<String>, all_tags: Seq<Tag>) -> Seq<Seq<char>>
    decreases tags.len(),
{
    if tags.len() == 0 {
        Seq::empty()
    } else {
        let rest = fixed_tags(tags.drop_last(), all_tags);
        match tag_name(all_tags, tags.last()@) {
            Some(name) => rest.push(name),
            None => rest,
        }
    }
}

/// The name of the tag `tag` names by id or name.
fn find_tag_name(all_tags: &Vec<Tag>, tag: &str) -> (name: Option<String>)
    ensures
        match name {
            Some(n) => tag_name(all_tags@, tag@) == Some(n@),
            None => tag_name(all_tags@, tag@) is None,
        },
{
    let mut i: usize = 0;
    assert(all_tags@.skip(0) =~= all_tags@);
    while i < all_tags.len()
        invariant
            i <= all_tags.len(),
            tag_name(all_tags@, tag@) == tag_name(all_tags@.skip(i as int), tag@),
        decreases all_tags.len() - i,
    {
        assert(all_tags@.skip(i as int).skip(1) =~= all_tags@.skip(i + 1));
        assert(all_tags@.skip(i as int)[0] == all_tags@[i as int]);
        if str_eq(all_tags[i].id.as_str(), tag) || str_eq(all_tags[i].name.as_str(), tag) {
            return Some(all_tags[i].name.clone());
        }
        i = i + 1;
    }
    assert(all_tags@.skip(i as int) =~= Seq::<Tag>::empty());
    None
}

/// Replaces each tag (given by id or name) with its name, dropping tags
/// that do not exist.
pub fn fix_tags(tags: &Vec<String>, all_tags: &Vec<Tag>) -> (fixed: Vec<String>)
    ensures
        fixed@.map_values(|s: String| s@) == fixed_tags(tags@, all_tags@),
{
    let mut fixed: Vec<String> = Vec::new();
    let mut i: usize = 0;
    while i < tags.len()
        invariant
            i <= tags.len(),
            fixed@.map_values(|s: String| s@) == fixed_tags(tags@.take(i as int), all_tags@),
        decreases tags.len() - i,
    {
        assert(tags@.take(i + 1).drop_last() =~= tags@.take(i as int));
        assert(tags@.take(i + 1).last() == tags@[i as int]);
        match find_tag_name(all_tags, tags[i].as_str()) {
            Some(name) => {
                let ghost before = fixed@.map_values(|s: String| s@);
                let ghost name_view = name@;
                fixed.push(name);
                assert(fixed@.map_values(|s: String| s@) =~= before.push(name_view));
            },
            None => {},
        }
        i = i + 1;
    }
    assert(tags@.take(tags.len() as int) =~= tags@);
    fixed
}

/// The private key of a new onboarding key: the given one, else
/// `O_{random}_O` around the random string supplied.
pub fn onboarding_private_key(given: Option<String>, random: &str) -> (key: String)
    ensures
        given matches Some(k) ==> key@ == k@,
        given is None ==> key@ == "O_"@ + random@ + "_O"@,
{
    match given {
        Some(k) => k,
        None => {
            "O_".to_owned().concat(random).concat("_O")
        },
    }
}

/// The public key of the mutual (X25519) key pair whose private key is
/// given as `private_key`, or `None` where it is no valid private key.
pub uninterp spec fn mutual_public_key(private_key: Seq<char>) -> Option<Seq<char>>;

/// Calls `mogh_pki::EncodedKeyPair::from_private_key` with
/// `PkiKind::Mutual` and hands back the encoded public key of the pair.
/// Claimed: the outcome is `mutual_public_key` of the argument (the
/// derivation depends on the key alone), and an empty key is refused.
/// The error's text is not stated.
#[verifier::external_body]
fn derive_mutual_public_key(private_key: &str) -> (r: Result<String, anyhow::Error>)
    ensures
        match r {
            Ok(public_key) => mutual_public_key(private_key@) == Some(public_key@),
            Err(_) => mutual_public_key(private_key@) is None,
        },
        private_key@.len() == 0 ==> r is Err,
{
    match mogh_pki::EncodedKeyPair::from_private_key(mogh_pki::PkiKind::Mutual, private_key) {
        Ok(keys) => Ok(keys.public.into_inner()),
        Err(e) => Err(e),
    }
}

/// A stored onboarding key.
#[derive(Debug)]
pub struct OnboardingKey {
    pub public_key: String,
    pub name: String,
    pub enabled: bool,
    /// The servers onboarded with the key.
    pub onboarded: Vec<String>,
    pub created_at: i64,
    /// When the key expires, in milliseconds; 0 for never.
    pub expires: i64,
    pub tags: Vec<String>,
    pub privileged: bool,
    /// The server whose configuration new servers copy; empty for none.
    pub copy_server: String,
    pub create_builder: bool,
}

impl OnboardingKey {
    /// Records that the server `server_id` was onboarded with the key.
    pub fn record_onboarded(&mut self, server_id: String)
        ensures
            final(self).onboarded@ == old(self).onboarded@.push(server_id),
            final(self).public_key == old(self).public_key,
            final(self).name == old(self).name,
            final(self).enabled == old(self).enabled,
            final(self).created_at == old(self).created_at,
            final(self).expires == old(self).expires,
            final(self).tags == old(self).tags,
            final(self).privileged == old(self).privileged,
            final(self).copy_server == old(self).copy_server,
            final(self).create_builder == old(self).create_builder,
    {
        self.onboarded.push(server_id);
    }
}

/// A request to create an onboarding key.
#[derive(Debug)]
pub struct CreateOnboardingKey {
    pub name: String,
    pub expires: i64,
    /// The private key to use; a random one is made when absent.
    pub private_key: Option<String>,
    /// Tags, by id or name.
    pub tags: Vec<String>,
    pub privileged: bool,
    pub copy_server: String,
    pub create_builder: bool,
}

/// Why an onboarding key was not created or changed.
#[derive(Debug)]
pub enum OnboardingKeyWriteError {
    /// Only admins manage onboarding keys.
    NotAdmin,
    /// The private key is no valid mutual private key.
    InvalidPrivateKey(anyhow::Error),
}

impl OnboardingKeyWriteError {
    /// The message shown for the error.
    pub fn message(&self) -> (m: String)
        ensures
            self is NotAdmin ==> m@ == "This call is admin only"@,
    {
        match self {
            OnboardingKeyWriteError::NotAdmin => "This call is admin only".to_owned(),
            OnboardingKeyWriteError::InvalidPrivateKey(_) => "Invalid private key".to_owned(),
        }
    }
}

/// Whether `key` is the new record that `request` describes, with the
/// public key `public_key`, its tags fixed against `all_tags`, created
/// at `now`.
pub open spec fn is_new_onboarding_key(
    key: OnboardingKey,
    request: CreateOnboardingKey,
    public_key: Seq<char>,
    all_tags: Seq<Tag>,
    now: i64,
) -> bool {
    &&& key.public_key@ == public_key
    &&& key.name@ == request.name@
    &&& key.enabled
    &&& key.onboarded@.len() == 0
    &&& key.created_at == now
    &&& key.expires == request.expires
    &&& key.tags@.map_values(|s: String| s@) == fixed_tags(request.tags@, all_tags)
    &&& key.privileged == request.privileged
    &&& key.copy_server@ == request.copy_server@
    &&& key.create_builder == request.create_builder
}

/// The record of a new onboarding key with the public key `public_key`:
/// enabled, onboarding no server yet, created at `now`, its tags
/// replaced by the names of the existing tags they name.
pub fn new_onboarding_key(request: &CreateOnboardingKey, public_key: String, all_tags: &Vec<Tag>, now: i64) -> (key:
    OnboardingKey)
    ensures
        is_new_onboarding_key(key, *request, public_key@, all_tags@, now),
{
    OnboardingKey {
        public_key,
        name: request.name.clone(),
        enabled: true,
        onboarded: Vec::new(),
        created_at: now,
        expires: request.expires,
        tags: fix_tags(&request.tags, all_tags),
        privileged: request.privileged,
        copy_server: request.copy_server.clone(),
        create_builder: request.create_builder,
    }
}

/// The private key a creation request ends up with: the given one, else
/// `O_{random}_O`.
pub open spec fn chosen_private_key(request: CreateOnboardingKey, random: Seq<char>) -> Seq<char> {
    match request.private_key {
        Some(k) => k@,
        None => "O_"@ + random + "_O"@,
    }
}

/// Creates an onboarding key for `request` (admins only): its private
/// key is the given one or `O_{random}_O`, its public key the mutual
/// public key of that. Gives back the record and the private key.
pub fn create_onboarding_key(
    admin: bool,
    request: CreateOnboardingKey,
    random: &str,
    all_tags: &Vec<Tag>,
    now: i64,
) -> (r: Result<(OnboardingKey, String), OnboardingKeyWriteError>)
    ensures
        !admin ==> r matches Err(OnboardingKeyWriteError::NotAdmin),
        admin ==> match mutual_public_key(chosen_private_key(request, random@)) {
            None => r matches Err(OnboardingKeyWriteError::InvalidPrivateKey(_)),
            Some(public_key) => r matches Ok((key, private_key)) && private_key@ == chosen_private_key(
                request,
                random@,
            ) && is_new_onboarding_key(key, request, public_key, all_tags@, now),
        },
{
    if !admin {
        return Err(OnboardingKeyWriteError::NotAdmin);
    }
    let private_key = onboarding_private_key(request.private_key.clone(), random);
    match derive_mutual_public_key(private_key.as_str()) {
        Ok(public_key) => {
            let key = new_onboarding_key(&request, public_key, all_tags, now);
            Ok((key, private_key))
        },
        Err(e) => Err(OnboardingKeyWriteError::InvalidPrivateKey(e)),
    }
}

/// A request to change an onboarding key: each field given replaces
/// the stored one.
#[derive(Debug)]
pub struct UpdateOnboardingKey {
    /// The key to change.
    pub public_key: String,
    pub enabled: Option<bool>,
    pub name: Option<String>,
    pub expires: Option<i64>,
    /// Tags, by id or name.
    pub tags: Option<Vec<String>>,
    pub privileged: Option<bool>,
    pub copy_server: Option<String>,
    pub create_builder: Option<bool>,
}

impl UpdateOnboardingKey {
    /// Whether the request changes nothing.
    pub open spec fn changes_nothing(self) -> bool {
        &&& self.enabled is None
        &&& self.name is None
        &&& self.expires is None
        &&& self.tags is None
        &&& self.privileged is None
        &&& self.copy_server is None
        &&& self.create_builder is None
    }

    /// Whether the request changes nothing.
    pub fn is_none(&self) -> (r: bool)
        ensures
            r == self.changes_nothing(),
    {
        self.enabled.is_none() && self.name.is_none() && self.expires.is_none() && self.tags.is_none()
            && self.privileged.is_none() && self.copy_server.is_none() && self.create_builder.is_none()
    }
}

/// The names of `tags` as stored.
pub open spec fn tag_views(tags: Seq<String>) -> Seq<Seq<char>> {
    tags.map_values(|s: String| s@)
}

/// Whether `after` is `before` with the fields `update` gives replaced,
/// its tags fixed against `all_tags`.
pub open spec fn is_updated_onboarding_key(
    before: OnboardingKey,
    after: OnboardingKey,
    update: UpdateOnboardingKey,
    all_tags: Seq<Tag>,
) -> bool {
    &&& after.public_key@ == before.public_key@
    &&& after.onboarded@ == before.onboarded@
    &&& after.created_at == before.created_at
    &&& after.enabled == match update.enabled {
        Some(e) => e,
        None => before.enabled,
    }
    &&& after.name@ == match update.name {
        Some(n) => n@,
        None => before.name@,
    }
    &&& after.expires == match update.expires {
        Some(e) => e,
        None => before.expires,
    }
    &&& tag_views(after.tags@) == match update.tags {
        Some(t) => fixed_tags(t@, all_tags),
        None => tag_views(before.tags@),
    }
    &&& after.privileged == match update.privileged {
        Some(p) => p,
        None => before.privileged,
    }
    &&& after.copy_server@ == match update.copy_server {
        Some(c) => c@,
        None => before.copy_server@,
    }
    &&& after.create_builder == match update.create_builder {
        Some(c) => c,
        None => before.create_builder,
    }
}

/// Applies `update` to the stored key (admins only): each field given
/// replaces the stored one, tags replaced by the names of the existing
/// tags they name. A refused request changes nothing.
pub fn update_onboarding_key(
    admin: bool,
    key: &mut OnboardingKey,
    update: UpdateOnboardingKey,
    all_tags: &Vec<Tag>,
) -> (r: Result<(), OnboardingKeyWriteError>)
    ensures
        !admin ==> (r matches Err(OnboardingKeyWriteError::NotAdmin)) && *final(key) == *old(key),
        admin ==> r is Ok && is_updated_onboarding_key(*old(key), *final(key), update, all_tags@),
{
    if !admin {
        return Err(OnboardingKeyWriteError::NotAdmin);
    }
    let UpdateOnboardingKey {
        public_key: _,
        enabled,
        name,
        expires,
        tags,
        privileged,
        copy_server,
        create_builder,
    } = update;
    if let Some(e) = enabled {
        key.enabled = e;
    }
    if let Some(n) = name {
        key.name = n;
    }
    if let Some(e) = expires {
        key.expires = e;
    }
    if let Some(t) = tags {
        key.tags = fix_tags(&t, all_tags);
    }
    if let Some(p) = privileged {
        key.privileged = p;
    }
    if let Some(c) = copy_server {
        key.copy_server = c;
    }
    if let Some(c) = create_builder {
        key.create_builder = c;
    }
    Ok(())
}

/// An update that changes nothing leaves the key as it was.
pub proof fn law_empty_update_keeps_key(before: OnboardingKey, after: OnboardingKey, update: UpdateOnboardingKey, all_tags: Seq<Tag>)
    requires
        update.changes_nothing(),
        is_updated_onboarding_key(before, after, update, all_tags),
    ensures
        after.public_key@ == before.public_key@,
        after.name@ == before.name@,
        after.enabled == before.enabled,
        after.expires == before.expires,
        tag_views(after.tags@) == tag_views(before.tags@),
        after.privileged == before.privileged,
        after.copy_server@ == before.copy_server@,
        after.create_builder == before.create_builder,
        after.onboarded@ == before.onboarded@,
        after.created_at == before.created_at,
{
}

/// The expiry of a key created from the command line: `days` days after
/// `now` (in milliseconds), or 0 (never) when no days are given.
pub fn expires_after_days(now: i64, days: Option<i64>) -> (expires: i64)
    requires
        days matches Some(d) ==> i64::MIN <= d * 86_400_000 <= i64::MAX,
        days matches Some(d) ==> i64::MIN <= now + d * 86_400_000 <= i64::MAX,
    ensures
        expires == match days {
            Some(d) => now + d * 86_400_000,
            None => 0,
        },
{
    match days {
        Some(d) => now + d * 86_400_000,
        None => 0,
    }
}

/// What validating an onboarding key reads of it.
#[derive(Debug)]
pub struct OnboardingKeyStatus {
    pub enabled: bool,
    /// When the key expires, in milliseconds; 0 for never.
    pub expires: i64,
    /// Whether the key may also repair existing servers.
    pub privileged: bool,
}

/// Why an onboarding key was refused.
#[derive(Clone, Copy, Debug, PartialEq, Eq, Structural)]
pub enum OnboardingKeyError {
    /// Disabled or expired.
    Invalid,
    /// Repairing an existing server needs a privileged key.
    NotPrivileged,
}

/// Whether an onboarding key is accepted at `now`: it must be enabled
/// and unexpired, and privileged when an existing server is repaired.
pub fn validate_onboarding_key(key: &OnboardingKeyStatus, privileged_required: bool, now: i64) -> (r: Result<
    (),
    OnboardingKeyError,
>)
    ensures
        !key.enabled || (key.expires != 0 && key.expires <= now) ==> r == Err::<(), OnboardingKeyError>(
            OnboardingKeyError::Invalid,
        ),
        key.enabled && !(key.expires != 0 && key.expires <= now) && privileged_required && !key.privileged ==> r
            == Err::<(), OnboardingKeyError>(OnboardingKeyError::NotPrivileged),
        r is Ok <==> key.enabled && !(key.expires != 0 && key.expires <= now) && (!privileged_required
            || key.privileged),
{
    if !key.enabled || (key.expires != 0 && key.expires <= now) {
        return Err(OnboardingKeyError::Invalid);
    }
    if privileged_required && !key.privileged {
        return Err(OnboardingKeyError::NotPrivileged);
    }
    Ok(())
}

/// Whether `s` has the shape of a database id: 24 hex digits.
pub open spec fn is_object_id(s: Seq<char>) -> bool {
    s.len() == 24 && forall|i: int| 0 <= i < s.len() ==> is_ascii_hex(#[trigger] s[i])
}

/// Whether `s` has the shape of a database id.
pub fn looks_like_object_id(s: &str) -> (r: bool)
    ensures
        r == is_object_id(s@),
{
    let n = s.unicode_len();
    if n != 24 {
        return false;
    }
    let mut i: usize = 0;
    while i < n
        invariant
            n == s@.len(),
            i <= n,
            forall|j: int| 0 <= j < i ==> is_ascii_hex(#[trigger] s@[j]),
        decreases n - i,
    {
        let c = s.get_char(i);
        let hex = ('0' <= c && c <= '9') || ('a' <= c && c <= 'f') || ('A' <= c && c <= 'F');
        if !hex {
            return false;
        }
        i = i + 1;
    }
    true
}

/// How an inbound Periphery connection is handled.
#[derive(Clone, Copy, Debug, PartialEq, Eq, Structural)]
pub enum ConnectionRoute {
    /// No server was named.
    RejectEmpty,
    /// The named server is connected already; it is not bumped off.
    RejectAlreadyConnected,
    /// The server connects as configured.
    Existing,
    /// The server is repaired (enabled, made inbound) through onboarding.
    RepairExisting,
    /// A new server is created through onboarding.
    OnboardNew,
    /// A new server cannot be named like a database id.
    RejectIdShapedName,
}

/// The route of an inbound connection naming `server_query`: with no
/// such server, a new one is onboarded unless the name has the shape of
/// an id; a server already connected is refused; an enabled server
/// without an address connects; any other is repaired.
pub fn connection_route(
    server_query: &str,
    server_found: bool,
    already_connected: bool,
    enabled: bool,
    address_empty: bool,
) -> (route: ConnectionRoute)
    ensures
        route == if server_query@.len() == 0 {
            ConnectionRoute::RejectEmpty
        } else if server_found {
            if already_connected {
                ConnectionRoute::RejectAlreadyConnected
            } else if enabled && address_empty {
                ConnectionRoute::Existing
            } else {
                ConnectionRoute::RepairExisting
            }
        } else if is_object_id(server_query@) {
            ConnectionRoute::RejectIdShapedName
        } else {
            ConnectionRoute::OnboardNew
        },
{
    if server_query.unicode_len() == 0 {
        return ConnectionRoute::RejectEmpty;
    }
    if server_found {
        if already_connected {
            ConnectionRoute::RejectAlreadyConnected
        } else if enabled && address_empty {
            ConnectionRoute::Existing
        } else {
            ConnectionRoute::RepairExisting
        }
    } else if looks_like_object_id(server_query) {
        ConnectionRoute::RejectIdShapedName
    } else {
        ConnectionRoute::OnboardNew
    }
}

/// What repairing a server through onboarding changes.
#[derive(Debug)]
pub struct RepairPlan {
    /// The stored public key is replaced by the presented one.
    pub update_public_key: bool,
    /// The server is enabled, where it is disabled.
    pub enabled: Option<bool>,
    /// The address is cleared, where one is set.
    pub address: Option<String>,
    /// The address moves to the external address, where that is unset.
    pub external_address: Option<String>,
}

impl RepairPlan {
    /// Whether the server's configuration changes at all.
    pub open spec fn spec_updates_config(&self) -> bool {
        self.enabled is Some || self.address is Some || self.external_address is Some
    }

    /// Whether the server's configuration changes at all.
    pub fn updates_config(&self) -> (r: bool)
        ensures
            r == self.spec_updates_config(),
    {
        self.enabled.is_some() || self.address.is_some() || self.external_address.is_some()
    }
}

/// What repairing a server changes: its public key when it differs; it
/// is enabled when disabled; a set address is cleared, and moved to the
/// external address when that is unset, so that links to the server's
/// published ports keep working.
pub fn repair_plan(
    stored_public_key: &str,
    presented_public_key: &str,
    enabled: bool,
    address: &str,
    external_address: &str,
) -> (plan: RepairPlan)
    ensures
        plan.update_public_key == (stored_public_key@ != presented_public_key@),
        plan.enabled == if enabled {
            None
        } else {
            Some(true)
        },
        address@.len() == 0 ==> plan.address is None,
        address@.len() != 0 ==> (plan.address matches Some(a) && a@.len() == 0),
        address@.len() != 0 && external_address@.len() == 0 ==> (plan.external_address matches Some(e) && e@
            == address@),
        !(address@.len() != 0 && external_address@.len() == 0) ==> plan.external_address is None,
{
    let address_set = address.unicode_len() != 0;
    RepairPlan {
        update_public_key: !str_eq(stored_public_key, presented_public_key),
        enabled: if enabled {
            None
        } else {
            Some(true)
        },
        address: if address_set {
            Some(String::new())
        } else {
            None
        },
        external_address: if address_set && external_address.unicode_len() == 0 {
            Some(address.to_owned())
        } else {
            None
        },
    }
}

// ---------------------------------------------------------------------
// The order onboarding keys are listed in
// ---------------------------------------------------------------------

/// Whether a key expiring at `a` is listed before one expiring at `b`:
/// keys that never expire (0) first, then the latest expiry first.
pub open spec fn expires_before(a: i64, b: i64) -> bool {
    a != b && (a == 0 || (b != 0 && a > b))
}

/// Whether the key at index `i` comes before the one at index `j`:
/// by expiry, and in the order given when they expire together.
pub open spec fn listed_before(expires: Seq<i64>, i: int, j: int) -> bool {
    expires_before(expires[i], expires[j]) || (expires[i] == expires[j] && i < j)
}

/// Whether `order` lists each index of `expires` once, in listing order.
pub open spec fn is_listing_order(expires: Seq<i64>, order: Seq<usize>) -> bool {
    &&& order.len() == expires.len()
    &&& forall|k: int| 0 <= k < order.len() ==> #[trigger] order[k] < expires.len()
    &&& forall|k: int, l: int| 0 <= k < l < order.len() ==> listed_before(expires, #[trigger] order[k] as int, #[trigger] order[l] as int)
}

/// Whether a key expiring at `q` is listed before one expiring at `e`,
/// or together with it.
fn listed_no_later(q: i64, e: i64) -> (r: bool)
    ensures
        r == (q == e || expires_before(q, e)),
{
    q == e || q == 0 || (e != 0 && q > e)
}

/// The order onboarding keys are listed in, as indices into the list of
/// their expiries: keys that never expire first, then by latest expiry,
/// keys expiring together keeping their order.
pub fn onboarding_key_order(expires: &Vec<i64>) -> (order: Vec<usize>)
    ensures
        is_listing_order(expires@, order@),
{
    let mut order: Vec<usize> = Vec::new();
    let mut i: usize = 0;
    while i < expires.len()
        invariant
            i <= expires.len(),
            order@.len() == i,
            forall|k: int| 0 <= k < order@.len() ==> #[trigger] order@[k] < i,
            forall|k: int, l: int|
                0 <= k < l < order@.len() ==> listed_before(expires@, #[trigger] order@[k] as int, #[trigger] order@[l] as int),
        decreases expires.len() - i,
    {
        let e = expires[i];
        // The new key goes after every key listed before it or expiring
        // together with it (those all have smaller indices).
        let mut p: usize = 0;
        while p < order.len() && listed_no_later(expires[order[p]], e)
            invariant
                i < expires.len(),
                e == expires@[i as int],
                p <= order@.len(),
                forall|k: int| 0 <= k < order@.len() ==> #[trigger] order@[k] < i,
                forall|k: int| 0 <= k < p ==> listed_before(expires@, #[trigger] order@[k] as int, i as int),
            decreases order.len() - p,
        {
            p = p + 1;
        }
        let ghost before = order@;
        proof {
            if p < before.len() {
                assert(listed_before(expires@, i as int, before[p as int] as int));
            }
        }
        order.insert(p, i);
        assert(order@ =~= before.insert(p as int, i));
        assert forall|k: int, l: int|
            0 <= k < l < order@.len() implies listed_before(expires@, #[trigger] order@[k] as int, #[trigger] order@[l] as int) by {
            if l < p {
            } else if k < p && l == p {
            } else if k < p && l > p {
                assert(order@[l] == before[l - 1]);
            } else if k == p && l > p {
                assert(order@[l] == before[l - 1]);
                if l - 1 > p {
                    assert(listed_before(expires@, before[p as int] as int, before[l - 1] as int));
                }
            } else {
                assert(order@[k] == before[k - 1]);
                assert(order@[l] == before[l - 1]);
            }
        }
        i = i + 1;
    }
    order
}

} // verus!
