//! Lists of record identifiers as the ledger keeps them: one list for each
//! party, in the ledger's own vector type. A list is used for enumeration
//! alone; the records are the source of truth.
//!
//! What is said here of the ledger's vector is taken on trust from its
//! implementation. It holds for as long as the host has the budget to carry
//! an operation out; a host that runs out of budget aborts the whole call.

use vstd::prelude::*;
use crate::paging::page_of;

verus! {

/// The ledger environment, `soroban_sdk::Env`. A list lives in an
/// environment and a new list is made in one.
#[verifier::external_type_specification]
#[verifier::external_body]
pub struct LedgerEnvironment(soroban_sdk::Env);

/// The ledger's vector, `soroban_sdk::Vec`.
#[verifier::external_type_specification]
#[verifier::external_body]
#[verifier::reject_recursive_types(T)]
pub struct LedgerVector<T>(soroban_sdk::Vec<T>);

/// What a list holds, position by position: the identifier, or `None`
/// where the entry is no 64-bit unsigned number.
pub uninterp spec fn entries(list: soroban_sdk::Vec<u64>) -> Seq<Option<u64>>;

/// A stored list holds an entry that is no identifier.
#[derive(Clone, Copy, Debug, PartialEq, Eq, Structural)]
pub struct MalformedList;

/// Whether every entry of the list is an identifier.
pub open spec fn is_sound(list: soroban_sdk::Vec<u64>) -> bool {
    forall|i: int| 0 <= i < entries(list).len() ==> (#[trigger] entries(list)[i]) is Some
}

/// The identifiers that a sound list holds.
pub open spec fn identifiers(list: soroban_sdk::Vec<u64>) -> Seq<u64> {
    Seq::new(entries(list).len(), |i: int| entries(list)[i]->Some_0)
}

/// `soroban_sdk::Vec::new`: makes a vector without entries in the given
/// environment.
#[verifier::external_body]
fn new_list(env: &soroban_sdk::Env) -> (list: soroban_sdk::Vec<u64>)
    ensures
        entries(list).len() == 0,
{
    soroban_sdk::Vec::new(env)
}

/// `soroban_sdk::Vec::len`: the number of entries.
#[verifier::external_body]
fn list_len(list: &soroban_sdk::Vec<u64>) -> (n: u32)
    ensures
        n == entries(*list).len(),
{
    list.len()
}

/// `soroban_sdk::Vec::try_get`: nothing past the end; within the list the
/// entry at the position where it converts to a 64-bit unsigned number, and
/// an error, handed on as `MalformedList`, where it does not.
#[verifier::external_body]
fn list_get(list: &soroban_sdk::Vec<u64>, i: u32) -> (r: Result<Option<u64>, MalformedList>)
    ensures
        r == (if i >= entries(*list).len() {
            Ok::<Option<u64>, MalformedList>(None)
        } else {
            match entries(*list)[i as int] {
                Some(id) => Ok::<Option<u64>, MalformedList>(Some(id)),
                None => Err::<Option<u64>, MalformedList>(MalformedList),
            }
        }),
{
    list.try_get(i).map_err(|_| MalformedList)
}

/// `soroban_sdk::Vec::push_back`: lengthens the vector by one entry, the
/// given number, at its end.
#[verifier::external_body]
fn list_push(list: &mut soroban_sdk::Vec<u64>, id: u64)
    requires
        entries(*old(list)).len() < u32::MAX,
    ensures
        entries(*final(list)) == entries(*old(list)).push(Some(id)),
{
    list.push_back(id)
}

/// The page of the list that starts at `offset` and holds at most `limit`
/// identifiers, as a list of its own in the same environment. A list with
/// an entry on that page that is no identifier has no page.
pub fn page_of_list(env: &soroban_sdk::Env, all: &soroban_sdk::Vec<u64>, offset: u32, limit: u32) -> (r:
    Result<soroban_sdk::Vec<u64>, MalformedList>)
    ensures
        match r {
            Ok(page) => page_is_sound(*all, offset, limit) && is_sound(page) && entries(page)
                == entries(*all).subrange(
                page_start(entries(*all).len(), offset),
                page_end(entries(*all).len(), offset, limit),
            ),
            Err(_) => !page_is_sound(*all, offset, limit),
        },
        is_sound(*all) ==> (r matches Ok(page) && identifiers(page) == page_of(
            identifiers(*all),
            offset as nat,
            limit as nat,
        )),
{
    let len: u32 = list_len(all);
    let wide_end: u64 = offset as u64 + limit as u64;
    let start: u32 = if offset <= len { offset } else { len };
    let end: u32 = if wide_end <= len as u64 { wide_end as u32 } else { len };
    let mut page = new_list(env);
    let mut i: u32 = start;
    while i < end
        invariant
            start <= i <= end <= len == entries(*all).len(),
            start == page_start(entries(*all).len(), offset),
            end == page_end(entries(*all).len(), offset, limit),
            entries(page) == entries(*all).subrange(start as int, i as int),
            is_sound(page),
            forall|j: int| start <= j < i ==> (#[trigger] entries(*all)[j]) is Some,
        decreases end - i,
    {
        match list_get(all, i) {
            Ok(Some(id)) => {
                list_push(&mut page, id);
                assert(entries(page) =~= entries(*all).subrange(start as int, i + 1));
            },
            _ => {
                assert(entries(*all)[i as int] is None);
                return Err(MalformedList);
            },
        }
        i = i + 1;
    }
    proof {
        if is_sound(*all) {
            assert(identifiers(page) =~= page_of(identifiers(*all), offset as nat, limit as nat));
        }
    }
    Ok(page)
}

/// Whether every entry on the page is an identifier.
pub open spec fn page_is_sound(list: soroban_sdk::Vec<u64>, offset: u32, limit: u32) -> bool {
    forall|i: int|
        page_start(entries(list).len(), offset) <= i < page_end(entries(list).len(), offset, limit)
            ==> (#[trigger] entries(list)[i]) is Some
}

/// Where the page at `offset` starts in a list of `len` entries.
pub open spec fn page_start(len: nat, offset: u32) -> int {
    if offset <= len { offset as int } else { len as int }
}

/// Where the page at `offset` of at most `limit` entries ends in a list of
/// `len` entries.
pub open spec fn page_end(len: nat, offset: u32, limit: u32) -> int {
    if offset + limit <= len { offset + limit } else { len as int }
}

/// Enters `id` at the end of the list. A list that is full stays as it is,
/// and the answer says so.
pub fn add_to_list(list: &mut soroban_sdk::Vec<u64>, id: u64) -> (added: bool)
    ensures
        added == (entries(*old(list)).len() < u32::MAX),
        entries(*final(list)) == if added {
            entries(*old(list)).push(Some(id))
        } else {
            entries(*old(list))
        },
{
    if list_len(list) < u32::MAX {
        list_push(list, id);
        true
    } else {
        false
    }
}

} // verus!
