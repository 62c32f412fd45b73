//! The identities that the engines deal with.

use vstd::prelude::*;

verus! {

/// An identity on the ledger: a party that can prove authorization for a
/// call, or the asset that an engine holds in custody.
///
/// An address is known by its textual key alone. Two addresses stand for the
/// same identity exactly when their keys hold the same text.
#[derive(Clone, Debug, PartialEq, Eq)]
pub struct Address {
    pub key: String,
}

impl View for Address {
    type V = Seq<char>;

    open spec fn view(&self) -> Seq<char> {
        self.key@
    }
}

impl Address {
    /// The address known by `key`.
    pub fn new(key: &str) -> (a: Address)
        ensures
            a@ == key@,
    {
        Address { key: key.to_owned() }
    }

    /// Whether both addresses stand for the same identity.
    pub fn same(&self, other: &Address) -> (r: bool)
        ensures
            r == (self@ == other@),
    {
        self.key == other.key
    }

    /// A second handle on the same identity.
    pub fn duplicate(&self) -> (a: Address)
        ensures
            a == *self,
    {
        Address { key: self.key.clone() }
    }
}

/// Whether an optional address is present and stands for `who`.
pub open spec fn names(slot: Option<Address>, who: Address) -> bool {
    slot matches Some(a) && a@ == who@
}

} // verus!
