//! Custody under a time lock: a depositor locks an amount for a withdrawer,
//! who may claim it once the lock duration has passed. Where the withdrawer
//! does not claim it, the depositor may take it back once the clawback delay
//! has passed as well. A deposit is on record for as long as it is held:
//! claiming it or taking it back removes the record.

use vstd::prelude::*;
use crate::address::Address;
use crate::custody::{movable, movable_amount, Transfer};

verus! {

/// Why an operation is refused.
#[derive(Clone, Copy, Debug, PartialEq, Eq, Structural)]
pub enum TimelockError {
    /// The amount is not positive.
    InvalidAmount,
    /// The time at which the deposit would unlock cannot be represented.
    UnlockTimeOverflow,
    /// A deposit of this depositor for this withdrawer in this asset is on
    /// record already.
    DuplicateDeposit,
    /// No such deposit is on record.
    NonexistentDeposit,
    /// The deposit cannot be withdrawn before it unlocks.
    LockedDeposit,
    /// The deposit cannot be taken back before the clawback delay has passed.
    LockedClawback,
}

/// An amount that a depositor has locked for a withdrawer.
#[derive(Clone, Debug, PartialEq, Eq)]
pub struct Deposit {
    pub depositor: Address,
    pub withdrawer: Address,
    pub token: Address,
    pub amount: i128,
    pub unlock_timestamp: u64,
}

impl Deposit {
    /// Whether this is the deposit of `depositor` for `withdrawer` in
    /// `token`.
    pub open spec fn is_for(self, depositor: Address, withdrawer: Address, token: Address) -> bool {
        self.depositor@ == depositor@ && self.withdrawer@ == withdrawer@ && self.token@ == token@
    }

    /// Whether this is the deposit of `depositor` for `withdrawer` in `token`.
    pub fn belongs_to(
        &self,
        depositor: &Address,
        withdrawer: &Address,
        token: &Address,
    ) -> (r: bool)
        ensures
            r == self.is_for(*depositor, *withdrawer, *token),
    {
        self.depositor.same(depositor) && self.withdrawer.same(withdrawer) && self.token.same(token)
    }

    /// A copy of the record.
    pub fn duplicate(&self) -> (d: Deposit)
        ensures
            d == *self,
    {
        Deposit {
            depositor: self.depositor.duplicate(),
            withdrawer: self.withdrawer.duplicate(),
            token: self.token.duplicate(),
            amount: self.amount,
            unlock_timestamp: self.unlock_timestamp,
        }
    }
}

/// The position of the first among the first `n` deposits that is the
/// deposit of `depositor` for `withdrawer` in `token`.
pub open spec fn position(
    deposits: Seq<Deposit>,
    depositor: Address,
    withdrawer: Address,
    token: Address,
    n: nat,
) -> Option<int>
    decreases n,
{
    if n == 0 {
        None
    } else {
        match position(deposits, depositor, withdrawer, token, (n - 1) as nat) {
            Some(i) => Some(i),
            None => if deposits[n - 1].is_for(depositor, withdrawer, token) {
                Some(n - 1)
            } else {
                None
            },
        }
    }
}

/// The deposit of `depositor` for `withdrawer` in `token`, if one is on
/// record.
pub open spec fn lookup(
    deposits: Seq<Deposit>,
    depositor: Address,
    withdrawer: Address,
    token: Address,
) -> Option<Deposit> {
    match position(deposits, depositor, withdrawer, token, deposits.len()) {
        Some(i) => Some(deposits[i]),
        None => None,
    }
}

/// At most one deposit is on record for each depositor, withdrawer and
/// asset.
pub open spec fn one_deposit_each(deposits: Seq<Deposit>) -> bool {
    forall|i: int, j: int|
        0 <= i < j < deposits.len() ==> !(#[trigger] deposits[i]).is_for(
            (#[trigger] deposits[j]).depositor,
            deposits[j].withdrawer,
            deposits[j].token,
        )
}

/// What `position` finds is a deposit of that key, and the first one; what
/// it does not find is not there.
pub proof fn position_is_first(
    deposits: Seq<Deposit>,
    depositor: Address,
    withdrawer: Address,
    token: Address,
    n: nat,
)
    requires
        n <= deposits.len(),
    ensures
        match position(deposits, depositor, withdrawer, token, n) {
            Some(i) => 0 <= i < n && deposits[i].is_for(depositor, withdrawer, token) && forall|j: int|
                0 <= j < i ==> !(#[trigger] deposits[j]).is_for(depositor, withdrawer, token),
            None => forall|j: int|
                0 <= j < n ==> !(#[trigger] deposits[j]).is_for(depositor, withdrawer, token),
        },
    decreases n,
{
    if n > 0 {
        position_is_first(deposits, depositor, withdrawer, token, (n - 1) as nat);
    }
}

/// What a deposit at `now` makes of the deposits on record, under the given
/// lock duration.
pub open spec fn deposit_step(
    deposits: Seq<Deposit>,
    lock_duration: u64,
    depositor: Address,
    withdrawer: Address,
    token: Address,
    amount: i128,
    now: u64,
) -> Result<(Seq<Deposit>, Transfer), TimelockError> {
    if lookup(deposits, depositor, withdrawer, token) is Some {
        Err(TimelockError::DuplicateDeposit)
    } else if amount <= 0 {
        Err(TimelockError::InvalidAmount)
    } else if now + lock_duration > u64::MAX {
        Err(TimelockError::UnlockTimeOverflow)
    } else {
        Ok(
            (
                deposits.push(
                    Deposit {
                        depositor,
                        withdrawer,
                        token,
                        amount,
                        unlock_timestamp: (now + lock_duration) as u64,
                    },
                ),
                Transfer::deposit_of(depositor, token, movable(amount)),
            ),
        )
    }
}

/// What a withdrawal at `now` makes of the deposits on record.
pub open spec fn withdraw_step(
    deposits: Seq<Deposit>,
    depositor: Address,
    withdrawer: Address,
    token: Address,
    now: u64,
) -> Result<(Seq<Deposit>, Transfer), TimelockError> {
    match position(deposits, depositor, withdrawer, token, deposits.len()) {
        None => Err(TimelockError::NonexistentDeposit),
        Some(i) => if now < deposits[i].unlock_timestamp {
            Err(TimelockError::LockedDeposit)
        } else {
            Ok(
                (
                    deposits.remove(i),
                    Transfer::payout_of(
                        deposits[i].withdrawer,
                        deposits[i].token,
                        movable(deposits[i].amount),
                    ),
                ),
            )
        },
    }
}

/// What a clawback at `now` makes of the deposits on record, under the given
/// clawback delay.
pub open spec fn clawback_step(
    deposits: Seq<Deposit>,
    clawback_delay: u64,
    depositor: Address,
    withdrawer: Address,
    token: Address,
    now: u64,
) -> Result<(Seq<Deposit>, Transfer), TimelockError> {
    match position(deposits, depositor, withdrawer, token, deposits.len()) {
        None => Err(TimelockError::NonexistentDeposit),
        Some(i) => if now < deposits[i].unlock_timestamp + clawback_delay {
            Err(TimelockError::LockedClawback)
        } else {
            Ok(
                (
                    deposits.remove(i),
                    Transfer::payout_of(
                        deposits[i].depositor,
                        deposits[i].token,
                        movable(deposits[i].amount),
                    ),
                ),
            )
        },
    }
}

/// The engine: its two delays, and the deposits that it holds.
#[derive(Clone, Debug)]
pub struct Timelock {
    pub lock_duration: u64,
    pub clawback_delay: u64,
    pub deposits: Vec<Deposit>,
}

/// Whether an operation did to the engine what its step function says: an
/// accepted step replaces the deposits on record, a refused step leaves them
/// as they were; the delays never change.
pub open spec fn stepped(
    r: Result<Transfer, TimelockError>,
    before: Timelock,
    after: Timelock,
    step: Result<(Seq<Deposit>, Transfer), TimelockError>,
) -> bool {
    &&& after.lock_duration == before.lock_duration
    &&& after.clawback_delay == before.clawback_delay
    &&& match step {
        Ok((next, transfer)) => r == Ok::<Transfer, TimelockError>(transfer) && after.deposits@
            == next,
        Err(e) => r == Err::<Transfer, TimelockError>(e) && after.deposits@ == before.deposits@,
    }
}

impl Timelock {
    /// The invariant of the engine: one deposit for each depositor,
    /// withdrawer and asset, and every amount positive.
    pub open spec fn wf(self) -> bool {
        &&& one_deposit_each(self.deposits@)
        &&& forall|i: int| 0 <= i < self.deposits@.len() ==> (#[trigger] self.deposits@[i]).amount > 0
    }

    /// An engine with the given delays that holds nothing.
    pub fn new(lock_duration: u64, clawback_delay: u64) -> (s: Timelock)
        ensures
            s.wf(),
            s.lock_duration == lock_duration,
            s.clawback_delay == clawback_delay,
            s.deposits@.len() == 0,
    {
        Timelock { lock_duration, clawback_delay, deposits: Vec::new() }
    }

    /// How long a deposit stays locked.
    pub fn lock_duration(&self) -> (r: u64)
        ensures
            r == self.lock_duration,
    {
        self.lock_duration
    }

    /// How long after it unlocks a deposit can be taken back.
    pub fn clawback_delay(&self) -> (r: u64)
        ensures
            r == self.clawback_delay,
    {
        self.clawback_delay
    }

    /// The position of the deposit of that key, if one is on record.
    fn slot(&self, depositor: &Address, withdrawer: &Address, token: &Address) -> (r: Option<usize>)
        ensures
            match r {
                Some(i) => i < self.deposits@.len() && position(
                    self.deposits@,
                    *depositor,
                    *withdrawer,
                    *token,
                    self.deposits@.len(),
                ) == Some(i as int),
                None => position(
                    self.deposits@,
                    *depositor,
                    *withdrawer,
                    *token,
                    self.deposits@.len(),
                ) is None,
            },
    {
        let mut i: usize = 0;
        while i < self.deposits.len()
            invariant
                i <= self.deposits@.len(),
                position(self.deposits@, *depositor, *withdrawer, *token, i as nat) is None,
            decreases self.deposits@.len() - i,
        {
            if self.deposits[i].belongs_to(depositor, withdrawer, token) {
                proof {
                    position_is_stable(
                        self.deposits@,
                        *depositor,
                        *withdrawer,
                        *token,
                        (i + 1) as nat,
                        self.deposits@.len(),
                    );
                }
                return Some(i);
            }
            i = i + 1;
        }
        None
    }

    /// The deposit of `depositor` for `withdrawer` in `token`, if one is on
    /// record.
    pub fn get_deposit(&self, depositor: &Address, withdrawer: &Address, token: &Address) -> (r:
        Option<Deposit>)
        ensures
            r == lookup(self.deposits@, *depositor, *withdrawer, *token),
    {
        match self.slot(depositor, withdrawer, token) {
            Some(i) => Some(self.deposits[i].duplicate()),
            None => None,
        }
    }

    /// The depositor locks `amount` of `token` for `withdrawer`.
    /// `depositor` is the party that authorized the call.
    pub fn deposit(
        &mut self,
        depositor: Address,
        withdrawer: Address,
        token: Address,
        amount: i128,
        now: u64,
    ) -> (r: Result<Transfer, TimelockError>)
        ensures
            stepped(
                r,
                *old(self),
                *final(self),
                deposit_step(
                    old(self).deposits@,
                    old(self).lock_duration,
                    depositor,
                    withdrawer,
                    token,
                    amount,
                    now,
                ),
            ),
            old(self).wf() ==> final(self).wf(),
    {
        if self.slot(&depositor, &withdrawer, &token).is_some() {
            return Err(TimelockError::DuplicateDeposit);
        }
        if amount <= 0 {
            return Err(TimelockError::InvalidAmount);
        }
        let unlock_timestamp = match now.checked_add(self.lock_duration) {
            Some(t) => t,
            None => {
                return Err(TimelockError::UnlockTimeOverflow);
            },
        };
        let transfer = Transfer::deposit(&depositor, &token, movable_amount(amount));
        proof {
            position_is_first(
                self.deposits@,
                depositor,
                withdrawer,
                token,
                self.deposits@.len(),
            );
        }
        self.deposits.push(Deposit { depositor, withdrawer, token, amount, unlock_timestamp });
        Ok(transfer)
    }

    /// The withdrawer claims a deposit that has unlocked. `withdrawer` is
    /// the party that authorized the call.
    pub fn withdraw(&mut self, depositor: &Address, withdrawer: &Address, token: &Address, now: u64) -> (r:
        Result<Transfer, TimelockError>)
        ensures
            stepped(
                r,
                *old(self),
                *final(self),
                withdraw_step(old(self).deposits@, *depositor, *withdrawer, *token, now),
            ),
            old(self).wf() ==> final(self).wf(),
    {
        match self.slot(depositor, withdrawer, token) {
            None => Err(TimelockError::NonexistentDeposit),
            Some(i) => {
                if now < self.deposits[i].unlock_timestamp {
                    return Err(TimelockError::LockedDeposit);
                }
                let taken = self.deposits.remove(i);
                Ok(Transfer::payout(&taken.withdrawer, &taken.token, movable_amount(taken.amount)))
            },
        }
    }

    /// The depositor takes back a deposit that was not claimed. `depositor`
    /// is the party that authorized the call.
    pub fn clawback(&mut self, depositor: &Address, withdrawer: &Address, token: &Address, now: u64) -> (r:
        Result<Transfer, TimelockError>)
        ensures
            stepped(
                r,
                *old(self),
                *final(self),
                clawback_step(
                    old(self).deposits@,
                    old(self).clawback_delay,
                    *depositor,
                    *withdrawer,
                    *token,
                    now,
                ),
            ),
            old(self).wf() ==> final(self).wf(),
    {
        match self.slot(depositor, withdrawer, token) {
            None => Err(TimelockError::NonexistentDeposit),
            Some(i) => {
                let free_at: u128 = self.deposits[i].unlock_timestamp as u128
                    + self.clawback_delay as u128;
                if (now as u128) < free_at {
                    return Err(TimelockError::LockedClawback);
                }
                let taken = self.deposits.remove(i);
                Ok(Transfer::payout(&taken.depositor, &taken.token, movable_amount(taken.amount)))
            },
        }
    }
}

/// Once found, a deposit stays the first of its key however far one looks.
proof fn position_is_stable(
    deposits: Seq<Deposit>,
    depositor: Address,
    withdrawer: Address,
    token: Address,
    n: nat,
    m: nat,
)
    requires
        n <= m,
        position(deposits, depositor, withdrawer, token, n) is Some,
    ensures
        position(deposits, depositor, withdrawer, token, m) == position(
            deposits,
            depositor,
            withdrawer,
            token,
            n,
        ),
    decreases m,
{
    if n < m {
        position_is_stable(deposits, depositor, withdrawer, token, n, (m - 1) as nat);
    }
}

/// What `position` finds among the first `n` deposits depends on those
/// alone.
proof fn position_looks_at_prefix(
    a: Seq<Deposit>,
    b: Seq<Deposit>,
    depositor: Address,
    withdrawer: Address,
    token: Address,
    n: nat,
)
    requires
        n <= a.len(),
        n <= b.len(),
        forall|i: int| 0 <= i < n ==> a[i] == b[i],
    ensures
        position(a, depositor, withdrawer, token, n) == position(b, depositor, withdrawer, token, n),
    decreases n,
{
    if n > 0 {
        position_looks_at_prefix(a, b, depositor, withdrawer, token, (n - 1) as nat);
    }
}

/// A deposit is withdrawn when it has unlocked, and once: strictly before
/// the time of the deposit plus the lock duration the withdrawal is refused
/// as locked; from that time on it goes through, pays the deposited amount to
/// the withdrawer and removes the record, so that a second withdrawal finds
/// no deposit.
pub proof fn withdrawal_happens_once(
    deposits: Seq<Deposit>,
    lock_duration: u64,
    depositor: Address,
    withdrawer: Address,
    token: Address,
    amount: i128,
    deposited_at: u64,
    now: u64,
    later: u64,
)
    requires
        deposit_step(deposits, lock_duration, depositor, withdrawer, token, amount, deposited_at)
            is Ok,
    ensures
        ({
            let held = deposit_step(
                deposits,
                lock_duration,
                depositor,
                withdrawer,
                token,
                amount,
                deposited_at,
            )->Ok_0.0;
            &&& now < deposited_at + lock_duration ==> withdraw_step(
                held,
                depositor,
                withdrawer,
                token,
                now,
            ) == Err::<(Seq<Deposit>, Transfer), TimelockError>(TimelockError::LockedDeposit)
            &&& now >= deposited_at + lock_duration ==> withdraw_step(
                held,
                depositor,
                withdrawer,
                token,
                now,
            ) == Ok::<(Seq<Deposit>, Transfer), TimelockError>(
                (deposits, Transfer::payout_of(withdrawer, token, amount as u128)),
            )
            &&& withdraw_step(deposits, depositor, withdrawer, token, later) == Err::<
                (Seq<Deposit>, Transfer),
                TimelockError,
            >(TimelockError::NonexistentDeposit)
        }),
{
    let held = deposit_step(
        deposits,
        lock_duration,
        depositor,
        withdrawer,
        token,
        amount,
        deposited_at,
    )->Ok_0.0;
    position_looks_at_prefix(deposits, held, depositor, withdrawer, token, deposits.len());
    assert(held[deposits.len() as int].is_for(depositor, withdrawer, token));
    assert(position(held, depositor, withdrawer, token, held.len()) == Some(deposits.len() as int));
    assert(held.remove(deposits.len() as int) =~= deposits);
}

/// A deposit that was not claimed is taken back when the clawback delay has
/// passed after it unlocked, and once: strictly before that time the
/// clawback is refused as locked; from that time on it goes through, pays
/// the deposited amount back to the depositor and removes the record.
pub proof fn clawback_happens_once(
    deposits: Seq<Deposit>,
    lock_duration: u64,
    clawback_delay: u64,
    depositor: Address,
    withdrawer: Address,
    token: Address,
    amount: i128,
    deposited_at: u64,
    now: u64,
    later: u64,
)
    requires
        deposit_step(deposits, lock_duration, depositor, withdrawer, token, amount, deposited_at)
            is Ok,
    ensures
        ({
            let held = deposit_step(
                deposits,
                lock_duration,
                depositor,
                withdrawer,
                token,
                amount,
                deposited_at,
            )->Ok_0.0;
            &&& now < deposited_at + lock_duration + clawback_delay ==> clawback_step(
                held,
                clawback_delay,
                depositor,
                withdrawer,
                token,
                now,
            ) == Err::<(Seq<Deposit>, Transfer), TimelockError>(TimelockError::LockedClawback)
            &&& now >= deposited_at + lock_duration + clawback_delay ==> clawback_step(
                held,
                clawback_delay,
                depositor,
                withdrawer,
                token,
                now,
            ) == Ok::<(Seq<Deposit>, Transfer), TimelockError>(
                (deposits, Transfer::payout_of(depositor, token, amount as u128)),
            )
            &&& clawback_step(deposits, clawback_delay, depositor, withdrawer, token, later) == Err::<
                (Seq<Deposit>, Transfer),
                TimelockError,
            >(TimelockError::NonexistentDeposit)
        }),
{
    let held = deposit_step(
        deposits,
        lock_duration,
        depositor,
        withdrawer,
        token,
        amount,
        deposited_at,
    )->Ok_0.0;
    position_looks_at_prefix(deposits, held, depositor, withdrawer, token, deposits.len());
    assert(held[deposits.len() as int].is_for(depositor, withdrawer, token));
    assert(position(held, depositor, withdrawer, token, held.len()) == Some(deposits.len() as int));
    assert(held.remove(deposits.len() as int) =~= deposits);
}

/// One deposit at a time: while a deposit is on record, a second deposit of
/// the same depositor for the same withdrawer in the same asset is refused
/// as a duplicate.
pub proof fn deposits_are_not_doubled(
    deposits: Seq<Deposit>,
    lock_duration: u64,
    depositor: Address,
    withdrawer: Address,
    token: Address,
    amount: i128,
    deposited_at: u64,
    again: i128,
    later: u64,
)
    requires
        deposit_step(deposits, lock_duration, depositor, withdrawer, token, amount, deposited_at)
            is Ok,
    ensures
        deposit_step(
            deposit_step(
                deposits,
                lock_duration,
                depositor,
                withdrawer,
                token,
                amount,
                deposited_at,
            )->Ok_0.0,
            lock_duration,
            depositor,
            withdrawer,
            token,
            again,
            later,
        ) == Err::<(Seq<Deposit>, Transfer), TimelockError>(TimelockError::DuplicateDeposit),
{
    let held = deposit_step(
        deposits,
        lock_duration,
        depositor,
        withdrawer,
        token,
        amount,
        deposited_at,
    )->Ok_0.0;
    position_looks_at_prefix(deposits, held, depositor, withdrawer, token, deposits.len());
    assert(held[deposits.len() as int].is_for(depositor, withdrawer, token));
    assert(position(held, depositor, withdrawer, token, held.len()) == Some(deposits.len() as int));
}

} // verus!
