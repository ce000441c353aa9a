use indexmap::IndexSet;
use komodo_core::permission::{
    check_permissions, listing_permission, listing_scope, resource_visibility, get_user_permission_on_resource,
    visible_with_inherited, ListingScope, PermissionError, PermissionLevel, PermissionLevelAndSpecifics,
    ResourceVisibility,
};
use komodo_core::specifics::SpecificPermission;

fn set(items: &[SpecificPermission]) -> IndexSet<SpecificPermission> {
    let mut s = IndexSet::new();
    for i in items {
        s.insert(*i);
    }
    s
}

fn perm(level: PermissionLevel, items: &[SpecificPermission]) -> PermissionLevelAndSpecifics {
    PermissionLevelAndSpecifics { level, specific: set(items) }
}

fn items(p: &PermissionLevelAndSpecifics) -> Vec<SpecificPermission> {
    p.specific.iter().copied().collect()
}

#[test]
fn level_order_ranks() {
    assert_eq!(PermissionLevel::NoAccess.rank_of(), 0);
    assert_eq!(PermissionLevel::Read.rank_of(), 1);
    assert_eq!(PermissionLevel::Execute.rank_of(), 2);
    assert_eq!(PermissionLevel::Write.rank_of(), 3);
    assert!(PermissionLevel::Write.at_least(&PermissionLevel::Execute));
    assert!(PermissionLevel::Read.at_least(&PermissionLevel::Read));
    assert!(!PermissionLevel::Read.at_least(&PermissionLevel::Execute));
}

#[test]
fn level_builders() {
    let p = PermissionLevel::Execute.into_permission();
    assert_eq!(p.level, PermissionLevel::Execute);
    assert!(items(&p).is_empty());
    let t = PermissionLevel::Read.terminal();
    assert_eq!(items(&t), vec![SpecificPermission::Terminal]);
    let l = PermissionLevel::Read.with_specific(SpecificPermission::Logs);
    assert_eq!(items(&l), vec![SpecificPermission::Logs]);
    let a = PermissionLevel::Write.all();
    assert_eq!(
        items(&a),
        vec![
            SpecificPermission::Terminal,
            SpecificPermission::Attach,
            SpecificPermission::Inspect,
            SpecificPermission::Logs,
            SpecificPermission::Processes
        ]
    );
}

#[test]
fn fulfills_needs_level_and_specifics() {
    let have = perm(PermissionLevel::Execute, &[SpecificPermission::Logs, SpecificPermission::Inspect]);
    assert!(have.fulfills(&perm(PermissionLevel::Read, &[SpecificPermission::Logs])));
    assert!(have.fulfills(&perm(PermissionLevel::Execute, &[])));
    assert!(!have.fulfills(&perm(PermissionLevel::Write, &[])));
    assert!(!have.fulfills(&perm(PermissionLevel::Read, &[SpecificPermission::Terminal])));
    assert!(have.fulfills_specific(&set(&[SpecificPermission::Inspect, SpecificPermission::Logs])));
    assert!(!have.fulfills_specific(&set(&[SpecificPermission::Attach])));
}

#[test]
fn elevate_takes_stronger_level_and_all_specifics() {
    let mut p = perm(PermissionLevel::Read, &[SpecificPermission::Logs]);
    p.elevate(&perm(PermissionLevel::Write, &[SpecificPermission::Terminal, SpecificPermission::Logs]));
    assert_eq!(p.level, PermissionLevel::Write);
    assert_eq!(items(&p), vec![SpecificPermission::Logs, SpecificPermission::Terminal]);
    // A weaker level does not lower it.
    p.elevate(&perm(PermissionLevel::Read, &[]));
    assert_eq!(p.level, PermissionLevel::Write);
}

#[test]
fn join_fulfills_both_sides() {
    let a = perm(PermissionLevel::Execute, &[SpecificPermission::Attach]);
    let b = perm(PermissionLevel::Read, &[SpecificPermission::Processes]);
    let j = a.join(&b);
    assert!(j.fulfills(&a));
    assert!(j.fulfills(&b));
    let k = b.join(&a);
    assert_eq!(j.level, k.level);
    assert!(k.fulfills(&j) && j.fulfills(&k));
    let d = a.duplicate();
    assert_eq!(d.level, a.level);
    assert_eq!(items(&d), items(&a));
}

#[test]
fn inherited_specifics_keep_order_without_duplicates() {
    let mut p = perm(PermissionLevel::Read, &[SpecificPermission::Logs, SpecificPermission::Attach]);
    let required = perm(PermissionLevel::Read, &[SpecificPermission::Terminal]);
    assert!(visible_with_inherited(
        &mut p,
        &set(&[SpecificPermission::Attach, SpecificPermission::Terminal]),
        &required
    ));
    assert_eq!(items(&p), vec![SpecificPermission::Logs, SpecificPermission::Attach, SpecificPermission::Terminal]);
}

#[test]
fn admin_holds_write_with_everything() {
    let p = get_user_permission_on_resource(
        true,
        false,
        IndexSet::new(),
        &perm(PermissionLevel::NoAccess, &[]),
        &None,
        &vec![],
        &vec![],
    );
    assert_eq!(p.level, PermissionLevel::Write);
    assert_eq!(items(&p).len(), 5);
}

#[test]
fn user_permission_takes_the_strongest_grant() {
    let p = get_user_permission_on_resource(
        false,
        true,
        set(&[SpecificPermission::Inspect]),
        &perm(PermissionLevel::NoAccess, &[]),
        &Some(perm(PermissionLevel::Read, &[SpecificPermission::Logs])),
        &vec![None, Some(perm(PermissionLevel::Execute, &[]))],
        &vec![perm(PermissionLevel::Read, &[SpecificPermission::Terminal])],
    );
    assert_eq!(p.level, PermissionLevel::Execute);
    assert_eq!(
        items(&p),
        vec![SpecificPermission::Inspect, SpecificPermission::Logs, SpecificPermission::Terminal]
    );
}

#[test]
fn user_permission_without_grants() {
    let closed = get_user_permission_on_resource(
        false,
        false,
        IndexSet::new(),
        &perm(PermissionLevel::NoAccess, &[]),
        &None,
        &vec![],
        &vec![],
    );
    assert_eq!(closed.level, PermissionLevel::NoAccess);
    let transparent = get_user_permission_on_resource(
        false,
        true,
        IndexSet::new(),
        &perm(PermissionLevel::NoAccess, &[]),
        &None,
        &vec![],
        &vec![],
    );
    assert_eq!(transparent.level, PermissionLevel::Read);
    let base = get_user_permission_on_resource(
        false,
        false,
        IndexSet::new(),
        &perm(PermissionLevel::Execute, &[]),
        &None,
        &vec![],
        &vec![],
    );
    assert_eq!(base.level, PermissionLevel::Execute);
}

#[test]
fn check_permissions_cases() {
    let none = perm(PermissionLevel::NoAccess, &[]);
    let write = perm(PermissionLevel::Write, &[]);
    // Admins always pass.
    assert_eq!(check_permissions(true, false, &none, &none, &write), Ok(()));
    // Read is open in transparent mode.
    assert_eq!(check_permissions(false, true, &none, &none, &perm(PermissionLevel::Read, &[])), Ok(()));
    // but not with a specific permission the user lacks.
    assert_eq!(
        check_permissions(false, true, &none, &none, &perm(PermissionLevel::Read, &[SpecificPermission::Logs])),
        Err(PermissionError::Insufficient)
    );
    // The resource's base level opens it.
    assert_eq!(check_permissions(false, false, &write, &none, &write), Ok(()));
    // The user's own permission.
    assert_eq!(check_permissions(false, false, &none, &write, &perm(PermissionLevel::Execute, &[])), Ok(()));
    assert_eq!(check_permissions(false, false, &none, &none, &write), Err(PermissionError::Insufficient));
}

#[test]
fn listing_scope_cases() {
    let read = perm(PermissionLevel::Read, &[]);
    assert!(matches!(listing_scope(true, false, &None, &vec![], &read), ListingScope::All));
    assert!(matches!(listing_scope(false, true, &None, &vec![], &read), ListingScope::All));
    assert!(matches!(
        listing_scope(false, false, &None, &vec![Some(perm(PermissionLevel::Write, &[]))], &read),
        ListingScope::All
    ));
    match listing_scope(false, false, &Some(perm(PermissionLevel::NoAccess, &[SpecificPermission::Logs])), &vec![None], &read) {
        ListingScope::Filtered(base) => {
            assert_eq!(base.level, PermissionLevel::NoAccess);
            assert_eq!(items(&base), vec![SpecificPermission::Logs]);
        }
        ListingScope::All => panic!("expected a filtered listing"),
    }
}

#[test]
fn resource_visibility_cases() {
    let read = perm(PermissionLevel::Read, &[]);
    let base = perm(PermissionLevel::NoAccess, &[]);
    let p = listing_permission(&base, &Some(perm(PermissionLevel::Read, &[])));
    assert_eq!(p.level, PermissionLevel::Read);
    assert_eq!(resource_visibility(&p, &read, false), ResourceVisibility::Visible);
    let q = listing_permission(&base, &None);
    assert_eq!(q.level, PermissionLevel::NoAccess);
    assert_eq!(resource_visibility(&q, &read, true), ResourceVisibility::NeedsInherited);
    assert_eq!(resource_visibility(&q, &read, false), ResourceVisibility::Hidden);
    let mut r = perm(PermissionLevel::Read, &[]);
    let needs_logs = perm(PermissionLevel::Read, &[SpecificPermission::Logs]);
    assert!(visible_with_inherited(&mut r, &set(&[SpecificPermission::Logs]), &needs_logs));
    assert_eq!(items(&r), vec![SpecificPermission::Logs]);
    let mut s = perm(PermissionLevel::Read, &[]);
    assert!(!visible_with_inherited(&mut s, &set(&[SpecificPermission::Attach]), &needs_logs));
}

#[test]
fn listing_everything_means_each_check_passes() {
    let required = perm(PermissionLevel::Execute, &[SpecificPermission::Logs]);
    let user_all = Some(perm(PermissionLevel::Write, &[SpecificPermission::Logs]));
    assert!(matches!(listing_scope(false, false, &user_all, &vec![], &required), ListingScope::All));
    let resource_base = perm(PermissionLevel::NoAccess, &[]);
    let p = get_user_permission_on_resource(
        false,
        false,
        IndexSet::new(),
        &resource_base,
        &user_all,
        &vec![],
        &vec![perm(PermissionLevel::Read, &[])],
    );
    assert_eq!(check_permissions(false, false, &resource_base, &p, &required), Ok(()));
}
