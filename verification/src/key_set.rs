//! The insertion-ordered set of raw tab keys.
//!
//! The set itself is `indexmap::IndexSet<u64>`. Nothing in this file is
//! proved: every function below is a thin call into `indexmap` whose contract
//! restates that crate's documentation over [`ordered_keys`], the sequence of
//! keys in the order the set holds them.

use vstd::prelude::*;
use indexmap::IndexSet;
use std::collections::hash_map::RandomState;

verus! {

/// `indexmap::IndexSet`, carried as an opaque value.
#[verifier::external_type_specification]
#[verifier::external_body]
#[verifier::reject_recursive_types(T)]
#[verifier::reject_recursive_types(S)]
pub struct ExIndexSet<T, S>(IndexSet<T, S>);

/// The keys of `set`, first inserted first.
pub uninterp spec fn ordered_keys(set: IndexSet<u64, RandomState>) -> Seq<u64>;

/// `IndexSet::new`: a set that holds nothing.
#[verifier::external_body]
pub(crate) fn new_key_set() -> (set: IndexSet<u64, RandomState>)
    ensures
        ordered_keys(set) == Seq::<u64>::empty(),
{
    IndexSet::new()
}

/// `IndexSet::insert`: a key that the set lacks goes to the end and the call
/// returns `true`; a key that it holds leaves the set and its order as they
/// were and the call returns `false`.
#[verifier::external_body]
pub(crate) fn insert_key(set: &mut IndexSet<u64, RandomState>, key: u64) -> (added: bool)
    ensures
        added == !ordered_keys(*old(set)).contains(key),
        added ==> ordered_keys(*final(set)) == ordered_keys(*old(set)).push(key),
        !added ==> ordered_keys(*final(set)) == ordered_keys(*old(set)),
{
    set.insert(key)
}

/// `IndexSet::get_index_of`: the position of `key`, or `None` when the set
/// does not hold it.
#[verifier::external_body]
pub(crate) fn position_of(set: &IndexSet<u64, RandomState>, key: u64) -> (position: Option<usize>)
    ensures
        match position {
            Some(i) => i < ordered_keys(*set).len() && ordered_keys(*set)[i as int] == key,
            None => !ordered_keys(*set).contains(key),
        },
{
    set.get_index_of(&key)
}

/// `IndexSet::get_index`: the key at `index`, or `None` when `index` is not
/// below the number of keys.
#[verifier::external_body]
pub(crate) fn key_at(set: &IndexSet<u64, RandomState>, index: usize) -> (key: Option<u64>)
    ensures
        index < ordered_keys(*set).len() ==> key == Some(ordered_keys(*set)[index as int]),
        index >= ordered_keys(*set).len() ==> key is None,
{
    set.get_index(index).copied()
}

/// `IndexSet::shift_remove_full`: takes `key` out and returns the position it
/// had, the keys behind it moving up by one in unchanged order; returns `None`
/// and changes nothing when the set does not hold `key`.
#[verifier::external_body]
pub(crate) fn remove_key(set: &mut IndexSet<u64, RandomState>, key: u64) -> (position: Option<usize>)
    ensures
        match position {
            Some(i) => {
                &&& i < ordered_keys(*old(set)).len()
                &&& ordered_keys(*old(set))[i as int] == key
                &&& ordered_keys(*final(set)) == ordered_keys(*old(set)).remove(i as int)
            },
            None => {
                &&& !ordered_keys(*old(set)).contains(key)
                &&& ordered_keys(*final(set)) == ordered_keys(*old(set))
            },
        },
{
    set.shift_remove_full(&key).map(|(index, _)| index)
}

/// `IndexSet::clear`: the set holds nothing afterwards.
#[verifier::external_body]
pub(crate) fn clear_keys(set: &mut IndexSet<u64, RandomState>)
    ensures
        ordered_keys(*final(set)) == Seq::<u64>::empty(),
{
    set.clear()
}

} // verus!
