//! Escrow that is undone by mutual consent: the buyer pays into custody when
//! the transaction is created; either side may then propose to cancel it,
//! and where the other side agrees within the response window, the amount
//! goes back to the buyer.
//!
//! A proposal that is not answered within its window is stale. A stale
//! proposal stays on record until the next proposal replaces it or until it
//! is reset; an operation that is refused never changes a record.

use vstd::prelude::*;
use crate::address::Address;
use crate::custody::{movable, movable_amount, moved, replaced_at, settled, Transfer};

verus! {

/// The response window of an engine on which none was set: seven days, in
/// seconds.
pub const DEFAULT_RESPONSE_WINDOW: u64 = 604800;

/// Where a transaction stands with respect to its cancellation.
#[derive(Clone, Copy, Debug, PartialEq, Eq, Structural)]
pub enum CancellationStatus {
    /// No cancellation is proposed.
    NoProposal,
    ProposedByBuyer,
    ProposedBySeller,
    /// The cancellation was agreed on and the amount returned.
    Completed,
}

/// Why an operation is refused.
#[derive(Clone, Copy, Debug, PartialEq, Eq, Structural)]
pub enum CancellationError {
    /// The amount is not positive.
    InvalidAmount,
    /// Buyer and seller are the same party.
    InvalidInput,
    TransactionNotFound,
    /// The transaction is cancelled already.
    AlreadyCancelled,
    /// A proposal is on record and its window is still open.
    AlreadyProposed,
    /// There is no proposal to agree to or to reset.
    NoProposal,
    /// The proposal was not answered within its window.
    Expired,
    /// The proposal cannot be reset while its window is open.
    NotExpired,
    /// The caller is not the party that this operation is for.
    Unauthorized,
    /// The response window is set already.
    AlreadyInitialized,
    /// No identifier is left for a further transaction.
    OutOfIdentifiers,
}

/// One amount in escrow.
#[derive(Clone, Debug, PartialEq, Eq)]
pub struct Transaction {
    pub id: u64,
    pub buyer: Address,
    pub seller: Address,
    pub token: Address,
    pub amount: i128,
    pub status: CancellationStatus,
    /// When the proposal on record was made; 0 before the first proposal.
    pub proposal_timestamp: u64,
    /// How long the other side has to agree to a proposal.
    pub response_window: u64,
}

/// Why a transaction with these terms cannot be created, if it cannot.
pub open spec fn creation_refusal(buyer: Address, seller: Address, amount: i128) -> Option<
    CancellationError,
> {
    if amount <= 0 {
        Some(CancellationError::InvalidAmount)
    } else if buyer@ == seller@ {
        Some(CancellationError::InvalidInput)
    } else {
        None
    }
}

impl Transaction {
    // ----- accounting -----

    /// The amount that the transaction is about.
    pub open spec fn total(self) -> nat {
        movable(self.amount) as nat
    }

    /// What is held in custody now.
    pub open spec fn escrowed(self) -> nat {
        if self.status == CancellationStatus::Completed { 0 } else { self.total() }
    }

    /// What has been paid to the seller: this engine never pays the seller.
    pub open spec fn released(self) -> nat {
        0
    }

    /// What has been returned to the buyer.
    pub open spec fn refunded(self) -> nat {
        if self.status == CancellationStatus::Completed { self.total() } else { 0 }
    }

    /// The invariant of a transaction record.
    pub open spec fn wf(self) -> bool {
        &&& self.amount > 0
        &&& self.buyer@ != self.seller@
    }

    // ----- proposals -----

    /// Whether a proposal is on record, stale or not.
    pub open spec fn has_proposal(self) -> bool {
        self.status == CancellationStatus::ProposedByBuyer || self.status
            == CancellationStatus::ProposedBySeller
    }

    /// Whether the window of the proposal on record has passed at `now`. The
    /// window includes its last instant.
    pub open spec fn window_passed(self, now: u64) -> bool {
        now > self.proposal_timestamp + self.response_window
    }

    /// Whether the window of the proposal on record has passed at `now`.
    pub fn window_has_passed(&self, now: u64) -> (r: bool)
        ensures
            r == self.window_passed(now),
    {
        let end: u128 = self.proposal_timestamp as u128 + self.response_window as u128;
        now as u128 > end
    }

    /// The party that may agree to the proposal on record: the one that did
    /// not make it.
    pub open spec fn counterparty(self) -> Option<Address> {
        match self.status {
            CancellationStatus::ProposedByBuyer => Some(self.seller),
            CancellationStatus::ProposedBySeller => Some(self.buyer),
            _ => None,
        }
    }

    /// The party that may agree to the proposal on record.
    pub fn agreeing_party(&self) -> (r: Option<Address>)
        ensures
            r == self.counterparty(),
    {
        match self.status {
            CancellationStatus::ProposedByBuyer => Some(self.seller.duplicate()),
            CancellationStatus::ProposedBySeller => Some(self.buyer.duplicate()),
            _ => None,
        }
    }

    /// A copy of the record.
    pub fn duplicate(&self) -> (c: Transaction)
        ensures
            c == *self,
    {
        Transaction {
            id: self.id,
            buyer: self.buyer.duplicate(),
            seller: self.seller.duplicate(),
            token: self.token.duplicate(),
            amount: self.amount,
            status: self.status,
            proposal_timestamp: self.proposal_timestamp,
            response_window: self.response_window,
        }
    }

    // ----- creation -----

    /// The record of a transaction created under `id`, and the deposit that
    /// goes with it.
    pub open spec fn created(
        id: u64,
        buyer: Address,
        seller: Address,
        token: Address,
        amount: i128,
        response_window: u64,
    ) -> (Transaction, Transfer) {
        (
            Transaction {
                id,
                buyer,
                seller,
                token,
                amount,
                status: CancellationStatus::NoProposal,
                proposal_timestamp: 0,
                response_window,
            },
            Transfer::deposit_of(buyer, token, movable(amount)),
        )
    }

    /// Creates the record of a new transaction: the buyer pays the amount
    /// into custody at once. `buyer` is the party that authorized the call.
    pub fn create(
        id: u64,
        buyer: Address,
        seller: Address,
        token: Address,
        amount: i128,
        response_window: u64,
    ) -> (r: Result<(Transaction, Transfer), CancellationError>)
        ensures
            match creation_refusal(buyer, seller, amount) {
                Some(e) => r == Err::<(Transaction, Transfer), CancellationError>(e),
                None => r == Ok::<(Transaction, Transfer), CancellationError>(
                    Transaction::created(id, buyer, seller, token, amount, response_window),
                ),
            },
            r matches Ok(c) ==> c.0.wf(),
    {
        if amount <= 0 {
            return Err(CancellationError::InvalidAmount);
        }
        if buyer.same(&seller) {
            return Err(CancellationError::InvalidInput);
        }
        let transfer = Transfer::deposit(&buyer, &token, movable_amount(amount));
        Ok(
            (
                Transaction {
                    id,
                    buyer,
                    seller,
                    token,
                    amount,
                    status: CancellationStatus::NoProposal,
                    proposal_timestamp: 0,
                    response_window,
                },
                transfer,
            ),
        )
    }

    // ----- steps -----

    /// What a proposal by `caller` at `now` makes of the transaction, where
    /// `by_buyer` says in whose name it is made. A stale proposal on record
    /// gives way to the new one.
    pub open spec fn propose_step(self, by_buyer: bool, caller: Address, now: u64) -> Result<
        Transaction,
        CancellationError,
    > {
        if self.status == CancellationStatus::Completed {
            Err(CancellationError::AlreadyCancelled)
        } else if self.status != CancellationStatus::NoProposal && !self.window_passed(now) {
            Err(CancellationError::AlreadyProposed)
        } else if caller@ != (if by_buyer { self.buyer } else { self.seller })@ {
            Err(CancellationError::Unauthorized)
        } else {
            Ok(
                Transaction {
                    status: if by_buyer {
                        CancellationStatus::ProposedByBuyer
                    } else {
                        CancellationStatus::ProposedBySeller
                    },
                    proposal_timestamp: now,
                    ..self
                },
            )
        }
    }

    /// Puts a proposal on record, in the buyer's name or in the seller's.
    fn propose(&mut self, by_buyer: bool, caller: &Address, now: u64) -> (r: Result<
        (),
        CancellationError,
    >)
        ensures
            settled(r, *old(self), *final(self), old(self).propose_step(by_buyer, *caller, now)),
            old(self).wf() ==> final(self).wf(),
    {
        if self.status == CancellationStatus::Completed {
            return Err(CancellationError::AlreadyCancelled);
        }
        if self.status != CancellationStatus::NoProposal && !self.window_has_passed(now) {
            return Err(CancellationError::AlreadyProposed);
        }
        let authorized = if by_buyer {
            self.buyer.same(caller)
        } else {
            self.seller.same(caller)
        };
        if !authorized {
            return Err(CancellationError::Unauthorized);
        }
        self.status = if by_buyer {
            CancellationStatus::ProposedByBuyer
        } else {
            CancellationStatus::ProposedBySeller
        };
        self.proposal_timestamp = now;
        Ok(())
    }

    /// The buyer proposes to cancel.
    pub fn buyer_propose_cancellation(&mut self, caller: &Address, now: u64) -> (r: Result<
        (),
        CancellationError,
    >)
        ensures
            settled(r, *old(self), *final(self), old(self).propose_step(true, *caller, now)),
            old(self).wf() ==> final(self).wf(),
    {
        self.propose(true, caller, now)
    }

    /// The seller proposes to cancel.
    pub fn seller_propose_cancellation(&mut self, caller: &Address, now: u64) -> (r: Result<
        (),
        CancellationError,
    >)
        ensures
            settled(r, *old(self), *final(self), old(self).propose_step(false, *caller, now)),
            old(self).wf() ==> final(self).wf(),
    {
        self.propose(false, caller, now)
    }

    /// What the agreement of `caller` at `now` makes of the transaction.
    /// Who may agree is settled before the clock is looked at.
    pub open spec fn agree_step(self, caller: Address, now: u64) -> Result<
        (Transaction, Transfer),
        CancellationError,
    > {
        match self.counterparty() {
            None => if self.status == CancellationStatus::Completed {
                Err(CancellationError::AlreadyCancelled)
            } else {
                Err(CancellationError::NoProposal)
            },
            Some(other) => if caller@ != other@ {
                Err(CancellationError::Unauthorized)
            } else if self.window_passed(now) {
                Err(CancellationError::Expired)
            } else {
                Ok(
                    (
                        Transaction { status: CancellationStatus::Completed, ..self },
                        Transfer::payout_of(self.buyer, self.token, movable(self.amount)),
                    ),
                )
            },
        }
    }

    /// The other side agrees to the proposal on record, within its window:
    /// the full amount goes back to the buyer.
    pub fn agree_to_cancellation(&mut self, caller: &Address, now: u64) -> (r: Result<
        Transfer,
        CancellationError,
    >)
        ensures
            moved(r, *old(self), *final(self), old(self).agree_step(*caller, now)),
            old(self).wf() ==> final(self).wf(),
    {
        let authorized = match self.status {
            CancellationStatus::Completed => {
                return Err(CancellationError::AlreadyCancelled);
            },
            CancellationStatus::NoProposal => {
                return Err(CancellationError::NoProposal);
            },
            CancellationStatus::ProposedByBuyer => self.seller.same(caller),
            CancellationStatus::ProposedBySeller => self.buyer.same(caller),
        };
        if !authorized {
            return Err(CancellationError::Unauthorized);
        }
        if self.window_has_passed(now) {
            return Err(CancellationError::Expired);
        }
        let transfer = Transfer::payout(&self.buyer, &self.token, movable_amount(self.amount));
        self.status = CancellationStatus::Completed;
        Ok(transfer)
    }

    /// Whether a proposal is on record whose window has passed at `now`.
    pub open spec fn is_stale(self, now: u64) -> bool {
        self.has_proposal() && self.window_passed(now)
    }

    /// Whether a proposal is on record whose window has passed at `now`.
    pub fn check_cancellation_expiry(&self, now: u64) -> (r: bool)
        ensures
            r == self.is_stale(now),
    {
        match self.status {
            CancellationStatus::NoProposal | CancellationStatus::Completed => false,
            _ => self.window_has_passed(now),
        }
    }

    /// What the reset at `now` makes of the transaction.
    pub open spec fn reset_step(self, now: u64) -> Result<Transaction, CancellationError> {
        if !self.has_proposal() {
            Err(CancellationError::NoProposal)
        } else if !self.window_passed(now) {
            Err(CancellationError::NotExpired)
        } else {
            Ok(Transaction { status: CancellationStatus::NoProposal, ..self })
        }
    }

    /// Takes a stale proposal off the record. Anyone may call this.
    pub fn reset_expired_proposal(&mut self, now: u64) -> (r: Result<(), CancellationError>)
        ensures
            settled(r, *old(self), *final(self), old(self).reset_step(now)),
            old(self).wf() ==> final(self).wf(),
    {
        match self.status {
            CancellationStatus::NoProposal | CancellationStatus::Completed => {
                return Err(CancellationError::NoProposal);
            },
            _ => {},
        }
        if !self.window_has_passed(now) {
            return Err(CancellationError::NotExpired);
        }
        self.status = CancellationStatus::NoProposal;
        Ok(())
    }
}

/// The engine: the response window that new transactions get, and every
/// transaction ever created, in the order of creation. Transaction
/// identifiers count from 1.
#[derive(Clone, Debug)]
pub struct MutualCancellation {
    pub response_window: Option<u64>,
    pub transactions: Vec<Transaction>,
}

/// What an operation on the transaction `id` makes of the engine, where
/// `step` says what it makes of that transaction: an unknown identifier is
/// refused, a refused step leaves every transaction as it was, and an
/// accepted step replaces that one transaction and nothing else.
pub open spec fn transaction_moved(
    r: Result<Transfer, CancellationError>,
    before: MutualCancellation,
    after: MutualCancellation,
    id: u64,
    step: spec_fn(Transaction) -> Result<(Transaction, Transfer), CancellationError>,
) -> bool {
    &&& after.response_window == before.response_window
    &&& match before.lookup(id) {
        None => r == Err::<Transfer, CancellationError>(CancellationError::TransactionNotFound)
            && after.transactions@ == before.transactions@,
        Some(c) => match step(c) {
            Ok((next, transfer)) => r == Ok::<Transfer, CancellationError>(transfer)
                && after.transactions@ == before.transactions@.update(id - 1, next),
            Err(e) => r == Err::<Transfer, CancellationError>(e) && after.transactions@
                == before.transactions@,
        },
    }
}

/// As `transaction_moved`, for an operation that never moves value.
pub open spec fn transaction_settled(
    r: Result<(), CancellationError>,
    before: MutualCancellation,
    after: MutualCancellation,
    id: u64,
    step: spec_fn(Transaction) -> Result<Transaction, CancellationError>,
) -> bool {
    &&& after.response_window == before.response_window
    &&& match before.lookup(id) {
        None => r == Err::<(), CancellationError>(CancellationError::TransactionNotFound)
            && after.transactions@ == before.transactions@,
        Some(c) => match step(c) {
            Ok(next) => r == Ok::<(), CancellationError>(()) && after.transactions@
                == before.transactions@.update(id - 1, next),
            Err(e) => r == Err::<(), CancellationError>(e) && after.transactions@
                == before.transactions@,
        },
    }
}

impl MutualCancellation {
    /// Identifiers are dense and every record keeps its invariant.
    pub open spec fn wf(self) -> bool {
        forall|i: int|
            0 <= i < self.transactions@.len() ==> (#[trigger] self.transactions@[i]).id == i + 1
                && self.transactions@[i].wf()
    }

    /// The transaction stored under `id`, if there is one.
    pub open spec fn lookup(self, id: u64) -> Option<Transaction> {
        if 1 <= id <= self.transactions@.len() {
            Some(self.transactions@[id - 1])
        } else {
            None
        }
    }

    /// The response window that a transaction created now gets.
    pub open spec fn window(self) -> u64 {
        match self.response_window {
            Some(w) => w,
            None => DEFAULT_RESPONSE_WINDOW,
        }
    }

    /// Those of the first `n` transactions in which `user` is the buyer
    /// (`as_buyer`) or the seller (otherwise), in the order of creation.
    pub open spec fn listed_upto(self, user: Address, as_buyer: bool, n: nat) -> Seq<Transaction>
        decreases n,
    {
        if n == 0 {
            Seq::empty()
        } else {
            let before = self.listed_upto(user, as_buyer, (n - 1) as nat);
            let c = self.transactions@[n - 1];
            if (if as_buyer { c.buyer } else { c.seller })@ == user@ {
                before.push(c)
            } else {
                before
            }
        }
    }

    /// An engine without transactions, on which no response window is set.
    pub fn new() -> (s: MutualCancellation)
        ensures
            s.wf(),
            s.response_window is None,
            s.transactions@.len() == 0,
    {
        MutualCancellation { response_window: None, transactions: Vec::new() }
    }

    /// Sets the response window that transactions get, once.
    pub fn initialize(&mut self, response_window: u64) -> (r: Result<(), CancellationError>)
        ensures
            final(self).transactions == old(self).transactions,
            match old(self).response_window {
                Some(_) => r == Err::<(), CancellationError>(CancellationError::AlreadyInitialized)
                    && final(self).response_window == old(self).response_window,
                None => r == Ok::<(), CancellationError>(()) && final(self).response_window == Some(
                    response_window,
                ),
            },
    {
        if self.response_window.is_some() {
            return Err(CancellationError::AlreadyInitialized);
        }
        self.response_window = Some(response_window);
        Ok(())
    }

    /// The response window that a transaction created now gets.
    pub fn get_response_window(&self) -> (r: u64)
        ensures
            r == self.window(),
    {
        match self.response_window {
            Some(w) => w,
            None => DEFAULT_RESPONSE_WINDOW,
        }
    }

    /// The position of the transaction `id` among the transactions.
    fn slot(&self, id: u64) -> (r: Option<usize>)
        ensures
            match r {
                Some(i) => self.lookup(id) == Some(self.transactions@[i as int]) && i == id - 1 && i
                    < self.transactions@.len(),
                None => self.lookup(id) is None,
            },
    {
        if id == 0 || id > self.transactions.len() as u64 {
            None
        } else {
            Some((id - 1) as usize)
        }
    }

    /// Creates a transaction under the next identifier; the buyer pays the
    /// amount into custody at once. `buyer` is the party that authorized the
    /// call. An engine that has used up its identifiers allows no further
    /// creation.
    pub fn create_transaction(
        &mut self,
        buyer: Address,
        seller: Address,
        token: Address,
        amount: i128,
    ) -> (r: Result<(u64, Transfer), CancellationError>)
        ensures
            old(self).wf() ==> final(self).wf(),
            final(self).response_window == old(self).response_window,
            match creation_refusal(buyer, seller, amount) {
                Some(e) => r == Err::<(u64, Transfer), CancellationError>(e)
                    && final(self).transactions@ == old(self).transactions@,
                None => if old(self).transactions@.len() >= u64::MAX {
                    r == Err::<(u64, Transfer), CancellationError>(
                        CancellationError::OutOfIdentifiers,
                    ) && final(self).transactions@ == old(self).transactions@
                } else {
                    let id = (old(self).transactions@.len() + 1) as u64;
                    let made = Transaction::created(
                        id,
                        buyer,
                        seller,
                        token,
                        amount,
                        old(self).window(),
                    );
                    &&& r == Ok::<(u64, Transfer), CancellationError>((id, made.1))
                    &&& final(self).transactions@ == old(self).transactions@.push(made.0)
                },
            },
    {
        let count: u64 = self.transactions.len() as u64;
        let id: u64 = if count < u64::MAX { count + 1 } else { count };
        let window = self.get_response_window();
        match Transaction::create(id, buyer, seller, token, amount, window) {
            Ok((c, transfer)) => {
                if count == u64::MAX {
                    return Err(CancellationError::OutOfIdentifiers);
                }
                self.transactions.push(c);
                Ok((id, transfer))
            },
            Err(e) => Err(e),
        }
    }

    /// The transaction stored under `id`, if there is one.
    pub fn get_transaction(&self, id: u64) -> (r: Option<Transaction>)
        ensures
            r == self.lookup(id),
    {
        match self.slot(id) {
            None => None,
            Some(i) => Some(self.transactions[i].duplicate()),
        }
    }

    /// Copies of the transactions in which `user` has the given role.
    fn listed(&self, user: &Address, as_buyer: bool) -> (r: Vec<Transaction>)
        ensures
            r@ == self.listed_upto(*user, as_buyer, self.transactions@.len()),
    {
        let mut all: Vec<Transaction> = Vec::new();
        let mut i: usize = 0;
        while i < self.transactions.len()
            invariant
                i <= self.transactions@.len(),
                all@ == self.listed_upto(*user, as_buyer, i as nat),
            decreases self.transactions@.len() - i,
        {
            let involved = if as_buyer {
                self.transactions[i].buyer.same(user)
            } else {
                self.transactions[i].seller.same(user)
            };
            if involved {
                all.push(self.transactions[i].duplicate());
            }
            i = i + 1;
        }
        all
    }

    /// The transactions in which `buyer` is the buyer, in the order of
    /// creation.
    pub fn get_buyer_transactions(&self, buyer: &Address) -> (r: Vec<Transaction>)
        ensures
            r@ == self.listed_upto(*buyer, true, self.transactions@.len()),
    {
        self.listed(buyer, true)
    }

    /// The transactions in which `seller` is the seller, in the order of
    /// creation.
    pub fn get_seller_transactions(&self, seller: &Address) -> (r: Vec<Transaction>)
        ensures
            r@ == self.listed_upto(*seller, false, self.transactions@.len()),
    {
        self.listed(seller, false)
    }

    /// Whether the transaction `id` has a proposal on record whose window
    /// has passed at `now`.
    pub fn check_cancellation_expiry(&self, id: u64, now: u64) -> (r: Result<
        bool,
        CancellationError,
    >)
        ensures
            match self.lookup(id) {
                Some(c) => r == Ok::<bool, CancellationError>(c.is_stale(now)),
                None => r == Err::<bool, CancellationError>(CancellationError::TransactionNotFound),
            },
    {
        match self.slot(id) {
            None => Err(CancellationError::TransactionNotFound),
            Some(i) => Ok(self.transactions[i].check_cancellation_expiry(now)),
        }
    }

    /// The buyer of transaction `id` proposes to cancel it. `caller` is the
    /// party that authorized the call.
    pub fn buyer_propose_cancellation(
        &mut self,
        id: u64,
        caller: &Address,
        now: u64,
    ) -> (r: Result<(), CancellationError>)
        ensures
            old(self).wf() ==> final(self).wf(),
            transaction_settled(
                r,
                *old(self),
                *final(self),
                id,
                |c: Transaction| c.propose_step(true, *caller, now),
            ),
    {
        match self.slot(id) {
            None => Err(CancellationError::TransactionNotFound),
            Some(i) => {
                let r = self.transactions[i].buyer_propose_cancellation(caller, now);
                proof {
                    replaced_at(old(self).transactions@, self.transactions@, i as int);
                }
                r
            },
        }
    }

    /// The seller of transaction `id` proposes to cancel it. `caller` is the
    /// party that authorized the call.
    pub fn seller_propose_cancellation(
        &mut self,
        id: u64,
        caller: &Address,
        now: u64,
    ) -> (r: Result<(), CancellationError>)
        ensures
            old(self).wf() ==> final(self).wf(),
            transaction_settled(
                r,
                *old(self),
                *final(self),
                id,
                |c: Transaction| c.propose_step(false, *caller, now),
            ),
    {
        match self.slot(id) {
            None => Err(CancellationError::TransactionNotFound),
            Some(i) => {
                let r = self.transactions[i].seller_propose_cancellation(caller, now);
                proof {
                    replaced_at(old(self).transactions@, self.transactions@, i as int);
                }
                r
            },
        }
    }

    /// The other side agrees to the proposal on transaction `id`. `caller` is
    /// the party that authorized the call.
    pub fn agree_to_cancellation(
        &mut self,
        id: u64,
        caller: &Address,
        now: u64,
    ) -> (r: Result<Transfer, CancellationError>)
        ensures
            old(self).wf() ==> final(self).wf(),
            transaction_moved(
                r,
                *old(self),
                *final(self),
                id,
                |c: Transaction| c.agree_step(*caller, now),
            ),
    {
        match self.slot(id) {
            None => Err(CancellationError::TransactionNotFound),
            Some(i) => {
                let r = self.transactions[i].agree_to_cancellation(caller, now);
                proof {
                    replaced_at(old(self).transactions@, self.transactions@, i as int);
                }
                r
            },
        }
    }

    /// Takes a stale proposal off the record of transaction `id`.
    pub fn reset_expired_proposal(
        &mut self,
        id: u64,
        now: u64,
    ) -> (r: Result<(), CancellationError>)
        ensures
            old(self).wf() ==> final(self).wf(),
            transaction_settled(
                r,
                *old(self),
                *final(self),
                id,
                |c: Transaction| c.reset_step(now),
            ),
    {
        match self.slot(id) {
            None => Err(CancellationError::TransactionNotFound),
            Some(i) => {
                let r = self.transactions[i].reset_expired_proposal(now);
                proof {
                    replaced_at(old(self).transactions@, self.transactions@, i as int);
                }
                r
            },
        }
    }
}

/// Custody is conserved: what is held, what was paid to the seller and what
/// was returned to the buyer add up to the amount of the transaction, which
/// is in custody from its creation.
pub proof fn custody_is_conserved(c: Transaction)
    ensures
        c.escrowed() + c.released() + c.refunded() == c.total(),
        c.wf() ==> c.total() == c.amount,
{
}

/// A cancelled transaction holds nothing.
pub proof fn terminal_holds_nothing(c: Transaction)
    requires
        c.status == CancellationStatus::Completed,
    ensures
        c.escrowed() == 0,
{
}

/// Nobody agrees to their own proposal: whenever the party that made the
/// proposal on record calls for the agreement, the call is refused as
/// unauthorized, whatever the time.
pub proof fn own_proposal_cannot_be_agreed_to(c: Transaction, now: u64)
    requires
        c.wf(),
    ensures
        c.status == CancellationStatus::ProposedByBuyer ==> c.agree_step(c.buyer, now) == Err::<
            (Transaction, Transfer),
            CancellationError,
        >(CancellationError::Unauthorized),
        c.status == CancellationStatus::ProposedBySeller ==> c.agree_step(c.seller, now) == Err::<
            (Transaction, Transfer),
            CancellationError,
        >(CancellationError::Unauthorized),
{
}

/// The response window includes its last instant: the other side's
/// agreement goes through at every time up to the proposal's time plus the
/// window, returns the full amount to the buyer and completes the
/// cancellation; at every later time it is refused as expired.
pub proof fn agreement_is_bound_to_the_window(c: Transaction, now: u64)
    requires
        c.wf(),
        c.has_proposal(),
    ensures
        now <= c.proposal_timestamp + c.response_window ==> c.agree_step(
            c.counterparty()->Some_0,
            now,
        ) == Ok::<(Transaction, Transfer), CancellationError>(
            (
                Transaction { status: CancellationStatus::Completed, ..c },
                Transfer::Payout { to: c.buyer, asset: c.token, amount: c.amount as u128 },
            ),
        ),
        now > c.proposal_timestamp + c.response_window ==> c.agree_step(
            c.counterparty()->Some_0,
            now,
        ) == Err::<(Transaction, Transfer), CancellationError>(CancellationError::Expired),
        now == c.proposal_timestamp + c.response_window ==> c.agree_step(
            c.counterparty()->Some_0,
            now,
        ) is Ok,
        now == c.proposal_timestamp + c.response_window + 1 ==> c.agree_step(
            c.counterparty()->Some_0,
            now,
        ) == Err::<(Transaction, Transfer), CancellationError>(CancellationError::Expired),
{
}

/// A stale proposal gives way: once the window of the proposal on record
/// has passed, either side may propose anew, and the proposal may be reset;
/// while the window is open, neither is possible.
pub proof fn stale_proposal_gives_way(c: Transaction, by_buyer: bool, now: u64)
    requires
        c.has_proposal(),
    ensures
        c.window_passed(now) ==> c.propose_step(
            by_buyer,
            if by_buyer { c.buyer } else { c.seller },
            now,
        ) is Ok && c.reset_step(now) == Ok::<Transaction, CancellationError>(
            Transaction { status: CancellationStatus::NoProposal, ..c },
        ),
        !c.window_passed(now) ==> c.propose_step(
            by_buyer,
            if by_buyer { c.buyer } else { c.seller },
            now,
        ) == Err::<Transaction, CancellationError>(CancellationError::AlreadyProposed)
            && c.reset_step(now) == Err::<Transaction, CancellationError>(
            CancellationError::NotExpired,
        ),
{
}

/// Custody and status change together: the creation pays the amount in, and
/// the agreement, the one step that moves value afterwards, pays out what
/// was held.
pub proof fn custody_follows_transfer(
    c: Transaction,
    next: Transaction,
    transfer: Transfer,
    caller: Address,
    now: u64,
)
    requires
        c.agree_step(caller, now) == Ok::<(Transaction, Transfer), CancellationError>(
            (next, transfer),
        ),
    ensures
        next.escrowed() == c.escrowed() + transfer.inflow() - transfer.outflow(),
        Transaction::created(c.id, c.buyer, c.seller, c.token, c.amount, c.response_window).1.inflow()
            == Transaction::created(
            c.id,
            c.buyer,
            c.seller,
            c.token,
            c.amount,
            c.response_window,
        ).0.escrowed(),
{
}

/// Every accepted step keeps the invariant, and so does the creation.
pub proof fn every_step_keeps_the_invariant(
    c: Transaction,
    by_buyer: bool,
    caller: Address,
    now: u64,
)
    requires
        c.wf(),
    ensures
        c.propose_step(by_buyer, caller, now) matches Ok(next) ==> next.wf(),
        c.agree_step(caller, now) matches Ok((next, _)) ==> next.wf(),
        c.reset_step(now) matches Ok(next) ==> next.wf(),
        creation_refusal(c.buyer, c.seller, c.amount) is None ==> Transaction::created(
            c.id,
            c.buyer,
            c.seller,
            c.token,
            c.amount,
            c.response_window,
        ).0.wf(),
{
}

} // verus!
