//! Managing users: the recently viewed resources, and who may create
//! and delete users.
use crate::connection::str_eq;
use crate::validations::{string_passes, validate_password, validate_username, InputPattern, ValidationError,
    MAX_PASSWORD_LENGTH, MAX_USERNAME_LENGTH, MIN_USERNAME_LENGTH};
use vstd::prelude::*;

verus! {

/// How many recently viewed resources of a kind are kept.
pub const RECENTLY_VIEWED_MAX: usize = 10;

/// The recently viewed ids after viewing `id`: `id` first, then the
/// others in their order without `id`, at most ten in all.
pub open spec fn recents_after_view(recents: Option<Seq<Seq<char>>>, id: Seq<char>) -> Seq<Seq<char>> {
    match recents {
        None => seq![id],
        Some(r) => {
            let others = r.filter(|x: Seq<char>| x != id);
            let kept = if others.len() > RECENTLY_VIEWED_MAX - 1 {
                others.take(RECENTLY_VIEWED_MAX - 1)
            } else {
                others
            };
            seq![id] + kept
        },
    }
}

/// The values of a list of strings.
pub open spec fn strings_view(s: Seq<String>) -> Seq<Seq<char>> {
    s.map_values(|x: String| x@)
}

/// The recently viewed resources of a kind after viewing `id`.
pub fn push_recently_viewed(recents: Option<&Vec<String>>, id: &str) -> (r: Vec<String>)
    ensures
        strings_view(r@) == recents_after_view(
            match recents {
                Some(v) => Some(strings_view(v@)),
                None => None,
            },
            id@,
        ),
{
    let mut out: Vec<String> = Vec::new();
    out.push(id.to_owned());
    match recents {
        None => {
            assert(strings_view(out@) =~= seq![id@]);
            out
        },
        Some(list) => {
            let ghost all = strings_view(list@);
            let ghost pred = |x: Seq<char>| x != id@;
            let mut i: usize = 0;
            while i < list.len()
                invariant
                    i <= list.len(),
                    all == strings_view(list@),
                    pred == (|x: Seq<char>| x != id@),
                    out@.len() >= 1,
                    strings_view(out@)[0] == id@,
                    ({
                        let f = all.take(i as int).filter(pred);
                        strings_view(out@).skip(1) == if f.len() > RECENTLY_VIEWED_MAX - 1 {
                            f.take(RECENTLY_VIEWED_MAX - 1)
                        } else {
                            f
                        }
                    }),
                decreases list.len() - i,
            {
                let ghost before = strings_view(out@);
                assert(all.take(i + 1) =~= all.take(i as int).push(all[i as int]));
                proof {
                    all.take(i as int).lemma_filter_push(all[i as int], pred);
                }
                if !str_eq(list[i].as_str(), id) && out.len() < RECENTLY_VIEWED_MAX {
                    out.push(list[i].clone());
                    assert(strings_view(out@) =~= before.push(all[i as int]));
                    assert(strings_view(out@).skip(1) =~= before.skip(1).push(all[i as int]));
                } else {
                    assert(strings_view(out@) =~= before);
                }
                i = i + 1;
            }
            assert(all.take(list.len() as int) =~= all);
            assert(strings_view(out@) =~= seq![id@] + strings_view(out@).skip(1));
            out
        },
    }
}

/// What deciding on users reads of a user.
#[derive(Debug)]
pub struct UserRoles {
    pub id: String,
    pub username: String,
    pub admin: bool,
    pub super_admin: bool,
}

/// Why a user management request was refused.
#[derive(Debug)]
pub enum UserManagementError {
    /// Only admins may manage users.
    NotAdmin,
    /// Users cannot delete themselves.
    DeleteSelf,
    /// Super admins cannot be deleted.
    DeleteSuperAdmin,
    /// Only super admins may delete admins.
    DeleteAdminNeedsSuperAdmin,
    /// The new user's username or password is invalid.
    Invalid(ValidationError),
}

/// Whether `caller` may ask to delete the user named by `user` (an id
/// or a username), before the user is looked up: only admins, and not
/// themselves.
pub fn check_delete_request(caller: &UserRoles, user: &str) -> (r: Result<(), UserManagementError>)
    ensures
        !caller.admin ==> r matches Err(UserManagementError::NotAdmin),
        caller.admin && (caller.username@ == user@ || caller.id@ == user@) ==> r matches Err(
            UserManagementError::DeleteSelf,
        ),
        r is Ok <==> caller.admin && caller.username@ != user@ && caller.id@ != user@,
{
    if !caller.admin {
        return Err(UserManagementError::NotAdmin);
    }
    if str_eq(caller.username.as_str(), user) || str_eq(caller.id.as_str(), user) {
        return Err(UserManagementError::DeleteSelf);
    }
    Ok(())
}

/// Whether `caller` may delete the found user `target`: never a super
/// admin, and an admin only by a super admin.
pub fn check_delete_target(caller: &UserRoles, target: &UserRoles) -> (r: Result<(), UserManagementError>)
    ensures
        target.super_admin ==> r matches Err(UserManagementError::DeleteSuperAdmin),
        !target.super_admin && target.admin && !caller.super_admin ==> r matches Err(
            UserManagementError::DeleteAdminNeedsSuperAdmin,
        ),
        r is Ok <==> !target.super_admin && (!target.admin || caller.super_admin),
{
    if target.super_admin {
        return Err(UserManagementError::DeleteSuperAdmin);
    }
    if target.admin && !caller.super_admin {
        return Err(UserManagementError::DeleteAdminNeedsSuperAdmin);
    }
    Ok(())
}

/// Whether `caller` may create a local user with these credentials:
/// only admins, with a valid username and password.
pub fn check_create_local_user(caller: &UserRoles, username: &str, password: &str, min_password_length: usize) -> (r:
    Result<(), UserManagementError>)
    ensures
        !caller.admin ==> r matches Err(UserManagementError::NotAdmin),
        r is Ok <==> caller.admin && string_passes(
            username@,
            MIN_USERNAME_LENGTH,
            Some(MAX_USERNAME_LENGTH),
            Some(InputPattern::Username),
        ) && string_passes(password@, min_password_length, Some(MAX_PASSWORD_LENGTH), None),
{
    if !caller.admin {
        return Err(UserManagementError::NotAdmin);
    }
    match validate_username(username) {
        Ok(()) => {},
        Err(e) => {
            return Err(UserManagementError::Invalid(e));
        },
    }
    match validate_password(password, min_password_length) {
        Ok(()) => Ok(()),
        Err(e) => Err(UserManagementError::Invalid(e)),
    }
}

/// Viewing a resource puts it first among the recently viewed, keeps
/// it there only once, and keeps at most ten.
pub proof fn law_recently_viewed_front_unique_bounded(recents: Option<Seq<Seq<char>>>, id: Seq<char>)
    ensures
        ({
            let r = recents_after_view(recents, id);
            &&& r.len() >= 1
            &&& r[0] == id
            &&& r.len() <= RECENTLY_VIEWED_MAX
            &&& forall|i: int| 1 <= i < r.len() ==> r[i] != id
        }),
{
    match recents {
        None => {},
        Some(list) => {
            let pred = |x: Seq<char>| x != id;
            let others = list.filter(pred);
            let kept = if others.len() > RECENTLY_VIEWED_MAX - 1 {
                others.take(RECENTLY_VIEWED_MAX - 1)
            } else {
                others
            };
            let r = seq![id] + kept;
            list.lemma_filter_len(pred);
            assert forall|i: int| 1 <= i < r.len() implies r[i] != id by {
                assert(r[i] == kept[i - 1]);
                assert(kept[i - 1] == others[i - 1]);
                list.lemma_filter_pred(pred, i - 1);
            }
        },
    }
}

} // verus!
