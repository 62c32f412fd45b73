//! What an engine asks its caller to do: the transfer that goes with a
//! state transition.

use vstd::prelude::*;
use crate::address::Address;

verus! {

/// The movement of value that has to accompany a state transition.
///
/// An engine never moves value itself. Every operation that changes what is
/// held in custody hands back the one transfer that the caller has to carry
/// out together with the new state, or `Nothing` where no value moves.
#[derive(Clone, Debug, PartialEq, Eq)]
pub enum Transfer {
    /// No value moves.
    Nothing,
    /// `amount` of `asset` moves from `from` into the engine's custody.
    Deposit { from: Address, asset: Address, amount: u128 },
    /// `amount` of `asset` moves out of the engine's custody to `to`.
    Payout { to: Address, asset: Address, amount: u128 },
}

impl Transfer {
    /// The amount that enters custody.
    pub open spec fn inflow(self) -> nat {
        match self {
            Transfer::Deposit { amount, .. } => amount as nat,
            _ => 0,
        }
    }

    /// The amount that leaves custody.
    pub open spec fn outflow(self) -> nat {
        match self {
            Transfer::Payout { amount, .. } => amount as nat,
            _ => 0,
        }
    }

    /// How much the transfer moves, whichever way.
    pub fn amount(&self) -> (r: u128)
        ensures
            r == self.inflow() + self.outflow(),
    {
        match self {
            Transfer::Nothing => 0,
            Transfer::Deposit { amount, .. } => *amount,
            Transfer::Payout { amount, .. } => *amount,
        }
    }

    /// The transfer that pays `amount` out of custody, or none at all where
    /// there is nothing to pay.
    pub open spec fn payout_of(to: Address, asset: Address, amount: u128) -> Transfer {
        if amount == 0 {
            Transfer::Nothing
        } else {
            Transfer::Payout { to, asset, amount }
        }
    }

    /// Makes the transfer that pays `amount` out of custody.
    pub fn payout(to: &Address, asset: &Address, amount: u128) -> (t: Transfer)
        ensures
            t == Transfer::payout_of(*to, *asset, amount),
            t.inflow() == 0,
            t.outflow() == amount,
    {
        if amount == 0 {
            Transfer::Nothing
        } else {
            Transfer::Payout { to: to.duplicate(), asset: asset.duplicate(), amount }
        }
    }

    /// The transfer that pays `amount` into custody, or none at all where
    /// there is nothing to pay.
    pub open spec fn deposit_of(from: Address, asset: Address, amount: u128) -> Transfer {
        if amount == 0 {
            Transfer::Nothing
        } else {
            Transfer::Deposit { from, asset, amount }
        }
    }

    /// Makes the transfer that pays `amount` into custody.
    pub fn deposit(from: &Address, asset: &Address, amount: u128) -> (t: Transfer)
        ensures
            t == Transfer::deposit_of(*from, *asset, amount),
            t.inflow() == amount,
            t.outflow() == 0,
    {
        if amount == 0 {
            Transfer::Nothing
        } else {
            Transfer::Deposit { from: from.duplicate(), asset: asset.duplicate(), amount }
        }
    }
}

/// What of a signed amount can be moved: the amount where it is positive.
pub open spec fn movable(amount: i128) -> u128 {
    if amount > 0 { amount as u128 } else { 0 }
}

/// Computes `movable`.
pub fn movable_amount(amount: i128) -> (r: u128)
    ensures
        r == movable(amount),
{
    if amount > 0 { amount as u128 } else { 0 }
}

/// Records that differ from what they were at one place at most are what
/// they were with that place replaced, and are what they were where that
/// place is as it was too.
pub proof fn replaced_at<T>(before: Seq<T>, after: Seq<T>, i: int)
    requires
        0 <= i < before.len(),
        after.len() == before.len(),
        forall|j: int| 0 <= j < before.len() && j != i ==> after[j] == before[j],
    ensures
        after == before.update(i, after[i]),
        after[i] == before[i] ==> after == before,
{
    assert(after =~= before.update(i, after[i]));
    if after[i] == before[i] {
        assert(after =~= before);
    }
}

/// Whether an operation on one record did what its step function says.
///
/// `step` is what the operation makes of the record as it was: the record as
/// it is to be afterwards together with the transfer that goes with it, or
/// the reason for which the operation is refused. A refused operation leaves
/// the record as it was.
pub open spec fn moved<S, E>(
    r: Result<Transfer, E>,
    before: S,
    after: S,
    step: Result<(S, Transfer), E>,
) -> bool {
    match step {
        Ok((next, transfer)) => r == Ok::<Transfer, E>(transfer) && after == next,
        Err(e) => r == Err::<Transfer, E>(e) && after == before,
    }
}

/// As `moved`, for an operation that never moves value.
pub open spec fn settled<S, E>(r: Result<(), E>, before: S, after: S, step: Result<S, E>) -> bool {
    match step {
        Ok(next) => r == Ok::<(), E>(()) && after == next,
        Err(e) => r == Err::<(), E>(e) && after == before,
    }
}

} // verus!
