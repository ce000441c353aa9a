//! Narrowing resource listings to those with an update available.
use vstd::prelude::*;

verus! {

/// The indices of the listed items that stay in the listing: all of them,
/// or with `only_update_available` those whose flag is set, in order.
pub open spec fn listed_indices(update_available: Seq<bool>, only_update_available: bool) -> Seq<usize>
    decreases update_available.len(),
{
    if update_available.len() == 0 {
        Seq::empty()
    } else {
        let rest = listed_indices(update_available.drop_last(), only_update_available);
        if !only_update_available || update_available.last() {
            rest.push((update_available.len() - 1) as usize)
        } else {
            rest
        }
    }
}

/// The items kept in a listing, by index: all, or with
/// `only_update_available` those with an update available.
pub fn filter_update_available(update_available: &Vec<bool>, only_update_available: bool) -> (kept: Vec<usize>)
    ensures
        kept@ == listed_indices(update_available@, only_update_available),
{
    let mut kept: Vec<usize> = Vec::new();
    let mut i: usize = 0;
    while i < update_available.len()
        invariant
            i <= update_available.len(),
            kept@ == listed_indices(update_available@.take(i as int), only_update_available),
        decreases update_available.len() - i,
    {
        assert(update_available@.take(i + 1).drop_last() =~= update_available@.take(i as int));
        if !only_update_available || update_available[i] {
            kept.push(i);
        }
        i = i + 1;
    }
    assert(update_available@.take(update_available.len() as int) =~= update_available@);
    kept
}

/// Whether a stack has an update available: one of its services has.
pub fn stack_update_available(services_update_available: &Vec<bool>) -> (r: bool)
    ensures
        r == exists|k: int| 0 <= k < services_update_available@.len() && #[trigger] services_update_available@[k],
{
    let mut i: usize = 0;
    while i < services_update_available.len()
        invariant
            i <= services_update_available.len(),
            forall|k: int| 0 <= k < i ==> !#[trigger] services_update_available@[k],
        decreases services_update_available.len() - i,
    {
        if services_update_available[i] {
            return true;
        }
        i = i + 1;
    }
    false
}

/// An item stays in a listing narrowed to updates exactly when it has an
/// update available, and a listing that is not narrowed keeps every item.
pub proof fn law_listing_keeps_exactly_updates(update_available: Seq<bool>, only_update_available: bool, i: usize)
    requires
        i < update_available.len(),
        update_available.len() <= usize::MAX,
    ensures
        listed_indices(update_available, only_update_available).contains(i) <==> (!only_update_available
            || update_available[i as int]),
    decreases update_available.len(),
{
    let rest = listed_indices(update_available.drop_last(), only_update_available);
    lemma_listed_below(update_available.drop_last(), only_update_available);
    if i < update_available.len() - 1 {
        law_listing_keeps_exactly_updates(update_available.drop_last(), only_update_available, i);
        if !only_update_available || update_available.last() {
            let n = (update_available.len() - 1) as usize;
            assert(rest.push(n).contains(i) <==> rest.contains(i)) by {
                if rest.push(n).contains(i) {
                    let k = choose|k: int| 0 <= k < rest.push(n).len() && rest.push(n)[k] == i;
                    if k < rest.len() {
                        assert(rest[k] == i);
                    }
                }
                if rest.contains(i) {
                    let k = choose|k: int| 0 <= k < rest.len() && rest[k] == i;
                    assert(rest.push(n)[k] == i);
                }
            }
        }
    } else {
        let n = (update_available.len() - 1) as usize;
        assert(i == n);
        assert(!rest.contains(n));
        if !only_update_available || update_available.last() {
            assert(rest.push(n)[rest.len() as int] == n);
        }
    }
}

/// Every index a listing keeps lies within it.
proof fn lemma_listed_below(update_available: Seq<bool>, only_update_available: bool)
    requires
        update_available.len() <= usize::MAX,
    ensures
        forall|k: int|
            0 <= k < listed_indices(update_available, only_update_available).len() ==> #[trigger] listed_indices(
                update_available,
                only_update_available,
            )[k] < update_available.len(),
    decreases update_available.len(),
{
    if update_available.len() > 0 {
        let rest = listed_indices(update_available.drop_last(), only_update_available);
        lemma_listed_below(update_available.drop_last(), only_update_available);
        let all = listed_indices(update_available, only_update_available);
        assert forall|k: int| 0 <= k < all.len() implies #[trigger] all[k] < update_available.len() by {
            if k < rest.len() {
                assert(all[k] == rest[k]);
            }
        }
    }
}

} // verus!
