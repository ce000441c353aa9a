//! The set of specific permissions, held in an insertion-ordered
//! `indexmap::IndexSet`.
use indexmap::IndexSet;
use vstd::prelude::*;

verus! {

/// Permissions granted beside the plain permission level.
#[derive(Clone, Copy, Debug, PartialEq, Eq, Hash, Structural)]
pub enum SpecificPermission {
    Terminal,
    Attach,
    Inspect,
    Logs,
    Processes,
}

#[verifier::external_type_specification]
#[verifier::external_body]
#[verifier::reject_recursive_types(T)]
#[verifier::reject_recursive_types(S)]
pub struct ExIndexSet<T, S>(IndexSet<T, S>);

/// The items of a set of specific permissions, in insertion order.
pub uninterp spec fn specific_items(set: IndexSet<SpecificPermission>) -> Seq<SpecificPermission>;

/// `IndexSet::new`: an empty set.
#[verifier::external_body]
pub(crate) fn specific_set_new() -> (set: IndexSet<SpecificPermission>)
    ensures
        specific_items(set) == Seq::<SpecificPermission>::empty(),
{
    IndexSet::new()
}

/// `IndexSet::insert`: appends `value` unless an equal item is present;
/// returns whether it was appended.
#[verifier::external_body]
pub(crate) fn specific_set_insert(set: &mut IndexSet<SpecificPermission>, value: SpecificPermission) -> (inserted: bool)
    ensures
        inserted == !specific_items(*old(set)).contains(value),
        specific_items(*final(set)) == if inserted {
            specific_items(*old(set)).push(value)
        } else {
            specific_items(*old(set))
        },
{
    set.insert(value)
}

/// `IndexSet::contains`: whether an equal item is present.
#[verifier::external_body]
pub(crate) fn specific_set_contains(set: &IndexSet<SpecificPermission>, value: &SpecificPermission) -> (found: bool)
    ensures
        found == specific_items(*set).contains(*value),
{
    set.contains(value)
}

/// `IndexSet::len`: the number of items.
#[verifier::external_body]
pub(crate) fn specific_set_len(set: &IndexSet<SpecificPermission>) -> (len: usize)
    ensures
        len == specific_items(*set).len(),
{
    set.len()
}

/// `IndexSet::get_index`: the item at `index` in insertion order.
#[verifier::external_body]
pub(crate) fn specific_set_get(set: &IndexSet<SpecificPermission>, index: usize) -> (item: Option<SpecificPermission>)
    ensures
        index < specific_items(*set).len() ==> item == Some(specific_items(*set)[index as int]),
        index >= specific_items(*set).len() ==> item is None,
{
    set.get_index(index).copied()
}

/// `IndexSet::clone`: a set with the same items in the same order.
#[verifier::external_body]
pub(crate) fn specific_set_clone(set: &IndexSet<SpecificPermission>) -> (copy: IndexSet<SpecificPermission>)
    ensures
        specific_items(copy) == specific_items(*set),
{
    set.clone()
}

/// Appends to `acc` each item of `more` that it does not hold yet,
/// in the order of `more`: what `IndexSet::extend` leaves.
pub open spec fn seq_extend(acc: Seq<SpecificPermission>, more: Seq<SpecificPermission>) -> Seq<SpecificPermission>
    decreases more.len(),
{
    if more.len() == 0 {
        acc
    } else {
        let prefix = seq_extend(acc, more.drop_last());
        if prefix.contains(more.last()) {
            prefix
        } else {
            prefix.push(more.last())
        }
    }
}

/// An item is in an extended sequence exactly when it was in one of the two.
pub proof fn lemma_seq_extend_contains(acc: Seq<SpecificPermission>, more: Seq<SpecificPermission>, x: SpecificPermission)
    ensures
        seq_extend(acc, more).contains(x) <==> (acc.contains(x) || more.contains(x)),
    decreases more.len(),
{
    if more.len() > 0 {
        lemma_seq_extend_contains(acc, more.drop_last(), x);
        let prefix = seq_extend(acc, more.drop_last());
        if more.contains(x) && !more.drop_last().contains(x) {
            let i = choose|i: int| 0 <= i < more.len() && more[i] == x;
            if i < more.len() - 1 {
                assert(more.drop_last()[i] == x);
            }
            assert(x == more.last());
        }
        if more.drop_last().contains(x) {
            let i = choose|i: int| 0 <= i < more.drop_last().len() && more.drop_last()[i] == x;
            assert(more[i] == x);
        }
        if !prefix.contains(more.last()) {
            assert(prefix.push(more.last()).last() == more.last());
            if prefix.contains(x) {
                let i = choose|i: int| 0 <= i < prefix.len() && prefix[i] == x;
                assert(prefix.push(more.last())[i] == x);
            }
            if prefix.push(more.last()).contains(x) && x != more.last() {
                let i = choose|i: int| 0 <= i < prefix.len() + 1 && prefix.push(more.last())[i] == x;
                assert(prefix[i] == x);
            }
        }
    }
}

/// `IndexSet::extend`: inserts each item of `more` in order, so an item
/// already present keeps its place and new ones are appended.
#[verifier::external_body]
pub(crate) fn specific_set_extend(set: &mut IndexSet<SpecificPermission>, more: &IndexSet<SpecificPermission>)
    ensures
        specific_items(*final(set)) == seq_extend(specific_items(*old(set)), specific_items(*more)),
{
    set.extend(more)
}

} // verus!
