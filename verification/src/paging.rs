//! Pages of lists of record identifiers.

use vstd::prelude::*;

verus! {

/// The page of `all` that starts at `offset` and holds at most `limit`
/// entries. Both bounds are clamped to the length of `all`, so an offset past
/// the end gives the empty page.
pub open spec fn page_of(all: Seq<u64>, offset: nat, limit: nat) -> Seq<u64> {
    let start = if offset <= all.len() { offset } else { all.len() };
    let end = if offset + limit <= all.len() { offset + limit } else { all.len() };
    all.subrange(start as int, end as int)
}

/// Cuts the page at `offset` of at most `limit` entries out of `all`.
pub fn page(all: &Vec<u64>, offset: u32, limit: u32) -> (r: Vec<u64>)
    ensures
        r@ == page_of(all@, offset as nat, limit as nat),
{
    let len: usize = all.len();
    let wide_end: u64 = offset as u64 + limit as u64;
    let start: usize = if (offset as u64) <= (len as u64) { offset as usize } else { len };
    let end: usize = if wide_end <= (len as u64) { wide_end as usize } else { len };
    let mut r: Vec<u64> = Vec::new();
    let mut i: usize = start;
    while i < end
        invariant
            start <= i <= end <= all.len(),
            r@ == all@.subrange(start as int, i as int),
        decreases end - i,
    {
        r.push(all[i]);
        i = i + 1;
        assert(r@ =~= all@.subrange(start as int, i as int));
    }
    assert(r@ =~= all@.subrange(start as int, end as int));
    r
}

} // verus!
