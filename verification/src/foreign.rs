//! What the library takes on trust: the types of `iced_core` that it carries
//! without looking inside them, and the one call into the standard library
//! for which the verifier has no specification of its own.

use vstd::prelude::*;
use std::collections::BTreeMap;

verus! {

/// `iced_core::Point`: a position in logical coordinates. The library stores
/// and returns points and never reads their coordinates.
#[verifier::external_type_specification]
#[verifier::external_body]
#[verifier::reject_recursive_types(T)]
pub struct ExPoint<T>(iced_core::Point<T>);

/// `iced_core::Color`: a colour of an appearance. The library stores and
/// returns colours and never reads their channels.
#[verifier::external_type_specification]
#[verifier::external_body]
pub struct ExColor(iced_core::Color);

/// `BTreeMap::get_mut`: a mutable borrow of the value stored under `key`, or
/// `None` where the map holds no such key.
///
/// The contract claims that the borrow starts out as the stored value, that
/// whatever the borrower leaves behind becomes the value stored under `key`,
/// and that nothing else in the map changes.
#[verifier::external_body]
pub(crate) fn map_get_mut<'a, V>(map: &'a mut BTreeMap<u64, V>, key: u64) -> (slot: Option<
    &'a mut V,
>)
    ensures
        match slot {
            Some(value) => {
                &&& old(map)@.contains_key(key)
                &&& *value == old(map)@[key]
                &&& final(map)@ == old(map)@.insert(key, *final(value))
            },
            None => {
                &&& !old(map)@.contains_key(key)
                &&& final(map)@ == old(map)@
            },
        },
{
    map.get_mut(&key)
}

} // verus!
