//! The record of who has approved, as the ledger keeps it: a map of the
//! ledger's own type, in which a party is marked under the number of its
//! place among the parties of the escrow.
//!
//! What is said here of the ledger's map is taken on trust from its
//! implementation. It holds for as long as the host has the budget to carry
//! an operation out; a host that runs out of budget aborts the whole call.

use vstd::prelude::*;

verus! {

/// The ledger's map, `soroban_sdk::Map`.
#[verifier::external_type_specification]
#[verifier::external_body]
#[verifier::reject_recursive_types(K)]
#[verifier::reject_recursive_types(V)]
pub struct LedgerMap<K, V>(soroban_sdk::Map<K, V>);

/// The places that are marked: the 32-bit unsigned numbers that are keys of
/// the map.
pub uninterp spec fn marked(marks: soroban_sdk::Map<u32, bool>) -> Set<u32>;

/// How many entries the map holds.
pub uninterp spec fn entry_count(marks: soroban_sdk::Map<u32, bool>) -> nat;

/// `soroban_sdk::Map::new`: makes a map without entries in the given
/// environment.
#[verifier::external_body]
pub(crate) fn new_marks(env: &soroban_sdk::Env) -> (marks: soroban_sdk::Map<u32, bool>)
    ensures
        marked(marks) == Set::<u32>::empty(),
        entry_count(marks) == 0,
{
    soroban_sdk::Map::new(env)
}

/// `soroban_sdk::Map::contains_key`: whether the number is a key of the map.
#[verifier::external_body]
pub(crate) fn has_mark(marks: &soroban_sdk::Map<u32, bool>, place: u32) -> (r: bool)
    ensures
        r == marked(*marks).contains(place),
{
    marks.contains_key(place)
}

/// `soroban_sdk::Map::len`: the number of entries.
#[verifier::external_body]
pub(crate) fn count_entries(marks: &soroban_sdk::Map<u32, bool>) -> (n: u32)
    ensures
        n == entry_count(*marks),
{
    marks.len()
}

/// `soroban_sdk::Map::set`, with the value `true`: the number is a key of
/// the map afterwards, the other keys are as before, and the map has one
/// entry more where the number was no key before.
#[verifier::external_body]
pub(crate) fn put_mark(marks: &mut soroban_sdk::Map<u32, bool>, place: u32)
    requires
        entry_count(*old(marks)) < u32::MAX,
    ensures
        marked(*final(marks)) == marked(*old(marks)).insert(place),
        entry_count(*final(marks)) == entry_count(*old(marks)) + (if marked(*old(marks)).contains(
            place,
        ) {
            0nat
        } else {
            1nat
        }),
{
    marks.set(place, true)
}

/// `Clone::clone` of `soroban_sdk::Map`: a second handle on the same map,
/// with the same keys and as many entries.
#[verifier::external_body]
pub(crate) fn copy_marks(marks: &soroban_sdk::Map<u32, bool>) -> (copy: soroban_sdk::Map<u32, bool>)
    ensures
        marked(copy) == marked(*marks),
        entry_count(copy) == entry_count(*marks),
{
    marks.clone()
}

/// Marks the place. A record that is full stays as it is, and the answer
/// says so.
pub fn mark(marks: &mut soroban_sdk::Map<u32, bool>, place: u32) -> (done: bool)
    ensures
        done == (entry_count(*old(marks)) < u32::MAX),
        marked(*final(marks)) == if done {
            marked(*old(marks)).insert(place)
        } else {
            marked(*old(marks))
        },
        entry_count(*final(marks)) == entry_count(*old(marks)) + (if done && !marked(
            *old(marks),
        ).contains(place) {
            1nat
        } else {
            0nat
        }),
{
    if count_entries(marks) < u32::MAX {
        put_mark(marks, place);
        true
    } else {
        false
    }
}

} // verus!
