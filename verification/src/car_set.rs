//! The set of available car identifiers handed out by the catalog listing,
//! backed by `indexmap::IndexSet` so that callers iterate it in insertion
//! order.

use vstd::prelude::*;

use std::collections::hash_map::RandomState;

verus! {

#[verifier::external_type_specification]
#[verifier::external_body]
#[verifier::reject_recursive_types(T)]
#[verifier::reject_recursive_types(S)]
pub struct ExIndexSet<T, S>(indexmap::IndexSet<T, S>);

/// The car identifiers an `IndexSet` holds.
pub uninterp spec fn car_set_contents(s: indexmap::IndexSet<u64, RandomState>) -> Set<u64>;

/// Relies on indexmap::IndexSet::new: the new set is empty.
#[verifier::external_body]
pub(crate) fn car_set_new() -> (r: indexmap::IndexSet<u64, RandomState>)
    ensures
        car_set_contents(r) == Set::<u64>::empty(),
{
    indexmap::IndexSet::new()
}

/// Relies on indexmap::IndexSet::insert: adds the value, keeps everything
/// already there, and reports whether the value was new.
#[verifier::external_body]
pub(crate) fn car_set_insert(
    s: &mut indexmap::IndexSet<u64, RandomState>,
    value: u64,
) -> (newly_added: bool)
    ensures
        car_set_contents(*final(s)) == car_set_contents(*old(s)).insert(value),
        newly_added == !car_set_contents(*old(s)).contains(value),
{
    s.insert(value)
}

} // verus!
