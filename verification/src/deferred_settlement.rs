//! Deferred settlement: the buyer pays into custody when the transaction is
//! created, and the amount is released to the seller once the condition of
//! the transaction is verified: the deadline has come, the buyer approves, or
//! the admin confirms as oracle. Buyer and seller may dispute a pending
//! transaction; the admin settles the dispute either way.

use vstd::prelude::*;
use crate::address::{names, Address};
use crate::custody::{movable, movable_amount, moved, replaced_at, settled, Transfer};

verus! {

/// What has to hold before a transaction pays out.
#[derive(Clone, Copy, Debug, PartialEq, Eq, Structural)]
pub enum SettlementCondition {
    /// The deadline has come.
    TimeBased,
    /// The buyer asks for the release.
    BuyerApproval,
    /// The admin, as oracle, confirms.
    OracleConfirmation,
}

/// Where a transaction stands.
#[derive(Clone, Copy, Debug, PartialEq, Eq, Structural)]
pub enum TransactionStatus {
    Pending,
    Completed,
    Refunded,
    Disputed,
}

/// Why an operation is refused.
#[derive(Clone, Copy, Debug, PartialEq, Eq, Structural)]
pub enum Error {
    InvalidAmount,
    TransactionNotFound,
    NotPending,
    Unauthorized,
    ConditionNotMet,
    TokenContractNotSet,
    /// The engine has its admin already.
    AlreadyInitialized,
    /// The deadline of the transaction cannot be represented.
    DeadlineOverflow,
    /// Buyer and seller are the same party.
    InvalidInput,
    /// There is no dispute to settle.
    NotDisputed,
}

impl TransactionStatus {
    /// A terminal status admits no further movement of custody.
    pub open spec fn is_terminal(self) -> bool {
        self == TransactionStatus::Completed || self == TransactionStatus::Refunded
    }

    /// Whether the status is terminal.
    pub fn terminal(&self) -> (r: bool)
        ensures
            r == self.is_terminal(),
    {
        match self {
            TransactionStatus::Completed | TransactionStatus::Refunded => true,
            _ => false,
        }
    }
}

/// The condition that goes by `name`, if there is one.
pub open spec fn condition_named(name: Seq<char>) -> Option<SettlementCondition> {
    if name == "TimeBased"@ {
        Some(SettlementCondition::TimeBased)
    } else if name == "BuyerApproval"@ {
        Some(SettlementCondition::BuyerApproval)
    } else if name == "OracleConfirmation"@ {
        Some(SettlementCondition::OracleConfirmation)
    } else {
        None
    }
}

impl SettlementCondition {
    /// Reads a condition from its name. No other name than the three is
    /// taken for a condition.
    pub fn from_name(name: &str) -> (r: Option<SettlementCondition>)
        ensures
            r == condition_named(name@),
    {
        let given = name.to_owned();
        if given == "TimeBased".to_owned() {
            Some(SettlementCondition::TimeBased)
        } else if given == "BuyerApproval".to_owned() {
            Some(SettlementCondition::BuyerApproval)
        } else if given == "OracleConfirmation".to_owned() {
            Some(SettlementCondition::OracleConfirmation)
        } else {
            None
        }
    }
}

/// One amount in custody until its condition is verified.
#[derive(Clone, Debug, PartialEq, Eq)]
pub struct DeferredTransaction {
    pub id: u128,
    pub buyer: Address,
    pub seller: Address,
    pub amount: i128,
    pub condition: SettlementCondition,
    pub created_at: u64,
    pub deadline: u64,
    pub status: TransactionStatus,
}

/// Why a transaction with these terms cannot be created at `now`, if it
/// cannot, where `token` is the asset that the engine settles in.
pub open spec fn creation_refusal(
    buyer: Address,
    seller: Address,
    amount: i128,
    duration: u64,
    now: u64,
    token: Option<Address>,
) -> Option<Error> {
    if amount <= 0 {
        Some(Error::InvalidAmount)
    } else if buyer@ == seller@ {
        Some(Error::InvalidInput)
    } else if now + duration > u64::MAX {
        Some(Error::DeadlineOverflow)
    } else if token is None {
        Some(Error::TokenContractNotSet)
    } else {
        None
    }
}

impl DeferredTransaction {
    // ----- accounting -----

    /// The amount that the transaction is about.
    pub open spec fn total(self) -> nat {
        movable(self.amount) as nat
    }

    /// What is held in custody now.
    pub open spec fn escrowed(self) -> nat {
        if self.status.is_terminal() { 0 } else { self.total() }
    }

    /// What has been paid to the seller.
    pub open spec fn released(self) -> nat {
        if self.status == TransactionStatus::Completed { self.total() } else { 0 }
    }

    /// What has been returned to the buyer.
    pub open spec fn refunded(self) -> nat {
        if self.status == TransactionStatus::Refunded { self.total() } else { 0 }
    }

    /// The invariant of a transaction record.
    pub open spec fn wf(self) -> bool {
        self.amount > 0 && self.buyer@ != self.seller@
    }

    /// Buyer and seller are the participants.
    pub open spec fn is_participant(self, who: Address) -> bool {
        self.buyer@ == who@ || self.seller@ == who@
    }

    /// Whether `who` is the buyer or the seller.
    pub fn participant(&self, who: &Address) -> (r: bool)
        ensures
            r == self.is_participant(*who),
    {
        self.buyer.same(who) || self.seller.same(who)
    }

    /// A copy of the record.
    pub fn duplicate(&self) -> (c: DeferredTransaction)
        ensures
            c == *self,
    {
        DeferredTransaction {
            id: self.id,
            buyer: self.buyer.duplicate(),
            seller: self.seller.duplicate(),
            amount: self.amount,
            condition: self.condition,
            created_at: self.created_at,
            deadline: self.deadline,
            status: self.status,
        }
    }

    // ----- creation -----

    /// The record of a transaction created at `now` under `id`, and the
    /// deposit in `token` that goes with it.
    pub open spec fn created(
        id: u128,
        buyer: Address,
        seller: Address,
        amount: i128,
        condition: SettlementCondition,
        duration: u64,
        now: u64,
        token: Address,
    ) -> (DeferredTransaction, Transfer) {
        (
            DeferredTransaction {
                id,
                buyer,
                seller,
                amount,
                condition,
                created_at: now,
                deadline: (now + duration) as u64,
                status: TransactionStatus::Pending,
            },
            Transfer::deposit_of(buyer, token, movable(amount)),
        )
    }

    /// Creates the record of a new transaction: the buyer pays the amount
    /// into custody at once. `buyer` is the party that authorized the call.
    pub fn create(
        id: u128,
        buyer: Address,
        seller: Address,
        amount: i128,
        condition: SettlementCondition,
        duration: u64,
        now: u64,
        token: Option<&Address>,
    ) -> (r: Result<(DeferredTransaction, Transfer), Error>)
        ensures
            match creation_refusal(
                buyer,
                seller,
                amount,
                duration,
                now,
                match token {
                    Some(t) => Some(*t),
                    None => None,
                },
            ) {
                Some(e) => r == Err::<(DeferredTransaction, Transfer), Error>(e),
                None => r == Ok::<(DeferredTransaction, Transfer), Error>(
                    DeferredTransaction::created(
                        id,
                        buyer,
                        seller,
                        amount,
                        condition,
                        duration,
                        now,
                        *token->Some_0,
                    ),
                ),
            },
            r matches Ok(c) ==> c.0.wf(),
    {
        if amount <= 0 {
            return Err(Error::InvalidAmount);
        }
        if buyer.same(&seller) {
            return Err(Error::InvalidInput);
        }
        let deadline = match now.checked_add(duration) {
            Some(t) => t,
            None => {
                return Err(Error::DeadlineOverflow);
            },
        };
        let asset = match token {
            Some(t) => t,
            None => {
                return Err(Error::TokenContractNotSet);
            },
        };
        let transfer = Transfer::deposit(&buyer, asset, movable_amount(amount));
        Ok(
            (
                DeferredTransaction {
                    id,
                    buyer,
                    seller,
                    amount,
                    condition,
                    created_at: now,
                    deadline,
                    status: TransactionStatus::Pending,
                },
                transfer,
            ),
        )
    }

    // ----- the condition -----

    /// Whether the release is authorized now: for a time-based transaction,
    /// when the deadline has come, whoever calls; for an approval, when the
    /// buyer calls; for an oracle confirmation, when the admin calls with an
    /// affirmative input, while whoever else calls is turned away.
    pub open spec fn release_authorized(
        self,
        caller: Address,
        caller_is_admin: bool,
        oracle_input: Option<bool>,
        now: u64,
    ) -> Result<bool, Error> {
        match self.condition {
            SettlementCondition::TimeBased => Ok(now >= self.deadline),
            SettlementCondition::BuyerApproval => Ok(caller@ == self.buyer@),
            SettlementCondition::OracleConfirmation => if !caller_is_admin {
                Err(Error::Unauthorized)
            } else {
                Ok(oracle_input == Some(true))
            },
        }
    }

    /// Evaluates the condition of the transaction. This changes nothing.
    pub fn condition_met(
        &self,
        caller: &Address,
        caller_is_admin: bool,
        oracle_input: Option<bool>,
        now: u64,
    ) -> (r: Result<bool, Error>)
        ensures
            r == self.release_authorized(*caller, caller_is_admin, oracle_input, now),
    {
        match self.condition {
            SettlementCondition::TimeBased => Ok(now >= self.deadline),
            SettlementCondition::BuyerApproval => Ok(caller.same(&self.buyer)),
            SettlementCondition::OracleConfirmation => {
                if !caller_is_admin {
                    Err(Error::Unauthorized)
                } else {
                    match oracle_input {
                        Some(confirmed) => Ok(confirmed),
                        None => Ok(false),
                    }
                }
            },
        }
    }

    // ----- steps -----

    /// What the verification called for by `caller` at `now` makes of the
    /// transaction, where `token` is the asset that the engine settles in.
    pub open spec fn verify_step(
        self,
        caller: Address,
        caller_is_admin: bool,
        oracle_input: Option<bool>,
        now: u64,
        token: Option<Address>,
    ) -> Result<(DeferredTransaction, Transfer), Error> {
        if self.status != TransactionStatus::Pending {
            Err(Error::NotPending)
        } else {
            match self.release_authorized(caller, caller_is_admin, oracle_input, now) {
                Err(e) => Err(e),
                Ok(false) => Err(Error::ConditionNotMet),
                Ok(true) => match token {
                    None => Err(Error::TokenContractNotSet),
                    Some(asset) => Ok(
                        (
                            DeferredTransaction { status: TransactionStatus::Completed, ..self },
                            Transfer::payout_of(self.seller, asset, movable(self.amount)),
                        ),
                    ),
                },
            }
        }
    }

    /// Verifies the condition and, where it holds, releases the amount to
    /// the seller. `caller` is the party that authorized the call.
    pub fn verify_condition(
        &mut self,
        caller: &Address,
        caller_is_admin: bool,
        oracle_input: Option<bool>,
        now: u64,
        token: Option<&Address>,
    ) -> (r: Result<Transfer, Error>)
        ensures
            moved(
                r,
                *old(self),
                *final(self),
                old(self).verify_step(
                    *caller,
                    caller_is_admin,
                    oracle_input,
                    now,
                    match token {
                        Some(t) => Some(*t),
                        None => None,
                    },
                ),
            ),
            old(self).wf() ==> final(self).wf(),
    {
        if self.status != TransactionStatus::Pending {
            return Err(Error::NotPending);
        }
        match self.condition_met(caller, caller_is_admin, oracle_input, now) {
            Err(e) => {
                return Err(e);
            },
            Ok(false) => {
                return Err(Error::ConditionNotMet);
            },
            Ok(true) => {},
        }
        let asset = match token {
            Some(t) => t,
            None => {
                return Err(Error::TokenContractNotSet);
            },
        };
        let transfer = Transfer::payout(&self.seller, asset, movable_amount(self.amount));
        self.status = TransactionStatus::Completed;
        Ok(transfer)
    }

    /// What the dispute raised by `caller` makes of the transaction.
    pub open spec fn initiate_dispute_step(self, caller: Address) -> Result<
        DeferredTransaction,
        Error,
    > {
        if self.status != TransactionStatus::Pending {
            Err(Error::NotPending)
        } else if !self.is_participant(caller) {
            Err(Error::Unauthorized)
        } else {
            Ok(DeferredTransaction { status: TransactionStatus::Disputed, ..self })
        }
    }

    /// Buyer or seller disputes a pending transaction. `caller` is the party
    /// that authorized the call.
    pub fn initiate_dispute(&mut self, caller: &Address) -> (r: Result<(), Error>)
        ensures
            settled(r, *old(self), *final(self), old(self).initiate_dispute_step(*caller)),
            old(self).wf() ==> final(self).wf(),
    {
        if self.status != TransactionStatus::Pending {
            return Err(Error::NotPending);
        }
        if !self.participant(caller) {
            return Err(Error::Unauthorized);
        }
        self.status = TransactionStatus::Disputed;
        Ok(())
    }

    /// What the settlement of the dispute makes of the transaction, where
    /// `caller_is_admin` says whether the admin calls and `token` is the
    /// asset that the engine settles in. The admin alone settles a dispute;
    /// whoever else calls, a party to the dispute included, is turned away.
    pub open spec fn resolve_dispute_step(
        self,
        caller_is_admin: bool,
        release_to_seller: bool,
        token: Option<Address>,
    ) -> Result<(DeferredTransaction, Transfer), Error> {
        if self.status != TransactionStatus::Disputed {
            Err(Error::NotDisputed)
        } else if !caller_is_admin {
            Err(Error::Unauthorized)
        } else {
            match token {
                None => Err(Error::TokenContractNotSet),
                Some(asset) => if release_to_seller {
                    Ok(
                        (
                            DeferredTransaction { status: TransactionStatus::Completed, ..self },
                            Transfer::payout_of(self.seller, asset, movable(self.amount)),
                        ),
                    )
                } else {
                    Ok(
                        (
                            DeferredTransaction { status: TransactionStatus::Refunded, ..self },
                            Transfer::payout_of(self.buyer, asset, movable(self.amount)),
                        ),
                    )
                },
            }
        }
    }

    /// The admin settles the dispute: the amount goes to the seller, which
    /// completes the transaction, or back to the buyer, which refunds it.
    /// `caller_is_admin` says whether the party that authorized the call is
    /// the admin.
    pub fn resolve_dispute(
        &mut self,
        caller_is_admin: bool,
        release_to_seller: bool,
        token: Option<&Address>,
    ) -> (r: Result<Transfer, Error>)
        ensures
            moved(
                r,
                *old(self),
                *final(self),
                old(self).resolve_dispute_step(
                    caller_is_admin,
                    release_to_seller,
                    match token {
                        Some(t) => Some(*t),
                        None => None,
                    },
                ),
            ),
            old(self).wf() ==> final(self).wf(),
    {
        if self.status != TransactionStatus::Disputed {
            return Err(Error::NotDisputed);
        }
        if !caller_is_admin {
            return Err(Error::Unauthorized);
        }
        let asset = match token {
            Some(t) => t,
            None => {
                return Err(Error::TokenContractNotSet);
            },
        };
        if release_to_seller {
            let transfer = Transfer::payout(&self.seller, asset, movable_amount(self.amount));
            self.status = TransactionStatus::Completed;
            Ok(transfer)
        } else {
            let transfer = Transfer::payout(&self.buyer, asset, movable_amount(self.amount));
            self.status = TransactionStatus::Refunded;
            Ok(transfer)
        }
    }
}

/// The engine: its admin, the asset that it settles in, and every
/// transaction ever created, in the order of creation. Transaction
/// identifiers count from 0.
#[derive(Clone, Debug)]
pub struct DeferredSettlementContract {
    pub admin: Option<Address>,
    pub token_contract: Option<Address>,
    pub transactions: Vec<DeferredTransaction>,
}

/// What an operation on the transaction `id` makes of the engine, where
/// `step` says what it makes of that transaction: an unknown identifier is
/// refused, a refused step leaves every transaction as it was, and an
/// accepted step replaces that one transaction and nothing else.
pub open spec fn transaction_moved(
    r: Result<Transfer, Error>,
    before: DeferredSettlementContract,
    after: DeferredSettlementContract,
    id: u128,
    step: spec_fn(DeferredTransaction) -> Result<(DeferredTransaction, Transfer), Error>,
) -> bool {
    &&& after.admin == before.admin
    &&& after.token_contract == before.token_contract
    &&& match before.lookup(id) {
        None => r == Err::<Transfer, Error>(Error::TransactionNotFound) && after.transactions@
            == before.transactions@,
        Some(c) => match step(c) {
            Ok((next, transfer)) => r == Ok::<Transfer, Error>(transfer) && after.transactions@
                == before.transactions@.update(id as int, next),
            Err(e) => r == Err::<Transfer, Error>(e) && after.transactions@ == before.transactions@,
        },
    }
}

/// As `transaction_moved`, for an operation that never moves value.
pub open spec fn transaction_settled(
    r: Result<(), Error>,
    before: DeferredSettlementContract,
    after: DeferredSettlementContract,
    id: u128,
    step: spec_fn(DeferredTransaction) -> Result<DeferredTransaction, Error>,
) -> bool {
    &&& after.admin == before.admin
    &&& after.token_contract == before.token_contract
    &&& match before.lookup(id) {
        None => r == Err::<(), Error>(Error::TransactionNotFound) && after.transactions@
            == before.transactions@,
        Some(c) => match step(c) {
            Ok(next) => r == Ok::<(), Error>(()) && after.transactions@
                == before.transactions@.update(id as int, next),
            Err(e) => r == Err::<(), Error>(e) && after.transactions@ == before.transactions@,
        },
    }
}

impl DeferredSettlementContract {
    /// Identifiers are dense and every record keeps its invariant.
    pub open spec fn wf(self) -> bool {
        forall|i: int|
            0 <= i < self.transactions@.len() ==> (#[trigger] self.transactions@[i]).id == i
                && self.transactions@[i].wf()
    }

    /// The transaction stored under `id`, if there is one.
    pub open spec fn lookup(self, id: u128) -> Option<DeferredTransaction> {
        if id < self.transactions@.len() {
            Some(self.transactions@[id as int])
        } else {
            None
        }
    }

    /// Whether `who` is the admin of an initialized engine.
    pub open spec fn admin_is(self, who: Address) -> bool {
        names(self.admin, who)
    }

    /// An engine without admin, asset and transactions.
    pub fn new() -> (s: DeferredSettlementContract)
        ensures
            s.wf(),
            s.admin is None,
            s.token_contract is None,
            s.transactions@.len() == 0,
    {
        DeferredSettlementContract { admin: None, token_contract: None, transactions: Vec::new() }
    }

    /// Binds the admin, once. `admin` is the party that authorized the call.
    pub fn initialize(&mut self, admin: Address) -> (r: Result<(), Error>)
        ensures
            final(self).transactions == old(self).transactions,
            final(self).token_contract == old(self).token_contract,
            match old(self).admin {
                Some(_) => r == Err::<(), Error>(Error::AlreadyInitialized) && final(self).admin
                    == old(self).admin,
                None => r == Ok::<(), Error>(()) && final(self).admin == Some(admin),
            },
    {
        if self.admin.is_some() {
            return Err(Error::AlreadyInitialized);
        }
        self.admin = Some(admin);
        Ok(())
    }

    /// Whether `address` is the admin of an initialized engine.
    pub fn is_admin(&self, address: &Address) -> (r: bool)
        ensures
            r == self.admin_is(*address),
    {
        match &self.admin {
            Some(a) => a.same(address),
            None => false,
        }
    }

    /// The admin names the asset that the engine settles in. `admin` is the
    /// party that authorized the call.
    pub fn set_token_contract(&mut self, admin: &Address, token_contract: Address) -> (r: Result<
        (),
        Error,
    >)
        ensures
            final(self).transactions == old(self).transactions,
            final(self).admin == old(self).admin,
            if old(self).admin_is(*admin) {
                r == Ok::<(), Error>(()) && final(self).token_contract == Some(token_contract)
            } else {
                r == Err::<(), Error>(Error::Unauthorized) && final(self).token_contract
                    == old(self).token_contract
            },
    {
        if !self.is_admin(admin) {
            return Err(Error::Unauthorized);
        }
        self.token_contract = Some(token_contract);
        Ok(())
    }

    /// The position of the transaction `id` among the transactions.
    fn slot(&self, id: u128) -> (r: Option<usize>)
        ensures
            match r {
                Some(i) => self.lookup(id) == Some(self.transactions@[i as int]) && i == id && i
                    < self.transactions@.len(),
                None => self.lookup(id) is None,
            },
    {
        if id < self.transactions.len() as u128 {
            Some(id as usize)
        } else {
            None
        }
    }

    /// Creates a transaction under the next identifier; the buyer pays the
    /// amount into custody at once. `buyer` is the party that authorized the
    /// call.
    pub fn create_transaction(
        &mut self,
        buyer: Address,
        seller: Address,
        amount: i128,
        condition: SettlementCondition,
        duration: u64,
        now: u64,
    ) -> (r: Result<(u128, Transfer), Error>)
        ensures
            old(self).wf() ==> final(self).wf(),
            final(self).admin == old(self).admin,
            final(self).token_contract == old(self).token_contract,
            match creation_refusal(buyer, seller, amount, duration, now, old(self).token_contract) {
                Some(e) => r == Err::<(u128, Transfer), Error>(e) && final(self).transactions@
                    == old(self).transactions@,
                None => {
                    let id = old(self).transactions@.len() as u128;
                    let made = DeferredTransaction::created(
                        id,
                        buyer,
                        seller,
                        amount,
                        condition,
                        duration,
                        now,
                        old(self).token_contract->Some_0,
                    );
                    &&& r == Ok::<(u128, Transfer), Error>((id, made.1))
                    &&& final(self).transactions@ == old(self).transactions@.push(made.0)
                },
            },
    {
        let id: u128 = self.transactions.len() as u128;
        let token = match &self.token_contract {
            Some(t) => Some(t),
            None => None,
        };
        match DeferredTransaction::create(id, buyer, seller, amount, condition, duration, now, token) {
            Ok((c, transfer)) => {
                self.transactions.push(c);
                Ok((id, transfer))
            },
            Err(e) => Err(e),
        }
    }

    /// Verifies the condition of transaction `transaction_id` and, where it
    /// holds, releases the amount to the seller. `caller` is the party that
    /// authorized the call.
    pub fn verify_condition(
        &mut self,
        caller: &Address,
        transaction_id: u128,
        oracle_input: Option<bool>,
        now: u64,
    ) -> (r: Result<Transfer, Error>)
        ensures
            old(self).wf() ==> final(self).wf(),
            transaction_moved(
                r,
                *old(self),
                *final(self),
                transaction_id,
                |c: DeferredTransaction|
                    c.verify_step(
                        *caller,
                        old(self).admin_is(*caller),
                        oracle_input,
                        now,
                        old(self).token_contract,
                    ),
            ),
    {
        let caller_is_admin = self.is_admin(caller);
        match self.slot(transaction_id) {
            None => Err(Error::TransactionNotFound),
            Some(i) => {
                let token = match &self.token_contract {
                    Some(t) => Some(t),
                    None => None,
                };
                let r = self.transactions[i].verify_condition(
                    caller,
                    caller_is_admin,
                    oracle_input,
                    now,
                    token,
                );
                proof {
                    replaced_at(old(self).transactions@, self.transactions@, i as int);
                }
                r
            },
        }
    }

    /// Buyer or seller disputes the pending transaction `transaction_id`.
    /// `caller` is the party that authorized the call.
    pub fn initiate_dispute(&mut self, caller: &Address, transaction_id: u128) -> (r: Result<
        (),
        Error,
    >)
        ensures
            old(self).wf() ==> final(self).wf(),
            transaction_settled(
                r,
                *old(self),
                *final(self),
                transaction_id,
                |c: DeferredTransaction| c.initiate_dispute_step(*caller),
            ),
    {
        match self.slot(transaction_id) {
            None => Err(Error::TransactionNotFound),
            Some(i) => {
                let r = self.transactions[i].initiate_dispute(caller);
                proof {
                    replaced_at(old(self).transactions@, self.transactions@, i as int);
                }
                r
            },
        }
    }

    /// The admin settles the dispute over transaction `transaction_id`.
    /// `caller` is the party that authorized the call.
    pub fn resolve_dispute(
        &mut self,
        caller: &Address,
        transaction_id: u128,
        release_to_seller: bool,
    ) -> (r: Result<Transfer, Error>)
        ensures
            old(self).wf() ==> final(self).wf(),
            transaction_moved(
                r,
                *old(self),
                *final(self),
                transaction_id,
                |c: DeferredTransaction|
                    c.resolve_dispute_step(
                        old(self).admin_is(*caller),
                        release_to_seller,
                        old(self).token_contract,
                    ),
            ),
    {
        let caller_is_admin = self.is_admin(caller);
        match self.slot(transaction_id) {
            None => Err(Error::TransactionNotFound),
            Some(i) => {
                let token = match &self.token_contract {
                    Some(t) => Some(t),
                    None => None,
                };
                let r = self.transactions[i].resolve_dispute(
                    caller_is_admin,
                    release_to_seller,
                    token,
                );
                proof {
                    replaced_at(old(self).transactions@, self.transactions@, i as int);
                }
                r
            },
        }
    }

    /// The transaction stored under `transaction_id`.
    pub fn get_transaction(&self, transaction_id: u128) -> (r: Result<DeferredTransaction, Error>)
        ensures
            match self.lookup(transaction_id) {
                Some(c) => r == Ok::<DeferredTransaction, Error>(c),
                None => r == Err::<DeferredTransaction, Error>(Error::TransactionNotFound),
            },
    {
        match self.slot(transaction_id) {
            None => Err(Error::TransactionNotFound),
            Some(i) => Ok(self.transactions[i].duplicate()),
        }
    }

    /// How many transactions were created so far.
    pub fn get_total_transactions(&self) -> (r: u128)
        ensures
            r == self.transactions@.len(),
    {
        self.transactions.len() as u128
    }
}

/// Custody is conserved: what is held, what was paid to the seller and what
/// was returned to the buyer add up to the amount of the transaction, which
/// is in custody from its creation.
pub proof fn custody_is_conserved(c: DeferredTransaction)
    ensures
        c.escrowed() + c.released() + c.refunded() == c.total(),
        c.wf() ==> c.total() == c.amount,
{
}

/// A transaction in a terminal status holds nothing.
pub proof fn terminal_holds_nothing(c: DeferredTransaction)
    requires
        c.status.is_terminal(),
    ensures
        c.escrowed() == 0,
{
}

/// The release waits for the condition: a verification goes through only on
/// a pending transaction whose condition holds, and then pays the full
/// amount to the seller and completes the transaction. A condition that does
/// not hold is reported as such; for an oracle confirmation, an input that is
/// absent counts as a negative one.
pub proof fn release_needs_the_condition(
    c: DeferredTransaction,
    caller: Address,
    caller_is_admin: bool,
    oracle_input: Option<bool>,
    now: u64,
    token: Address,
)
    ensures
        c.verify_step(caller, caller_is_admin, oracle_input, now, Some(token)) matches Ok(
            (next, transfer),
        ) ==> c.status == TransactionStatus::Pending && c.release_authorized(
            caller,
            caller_is_admin,
            oracle_input,
            now,
        ) == Ok::<bool, Error>(true) && next.status == TransactionStatus::Completed && transfer
            == Transfer::payout_of(c.seller, token, movable(c.amount)) && next.escrowed() == 0,
        c.status == TransactionStatus::Pending && c.release_authorized(
            caller,
            caller_is_admin,
            oracle_input,
            now,
        ) == Ok::<bool, Error>(false) ==> c.verify_step(
            caller,
            caller_is_admin,
            oracle_input,
            now,
            Some(token),
        ) == Err::<(DeferredTransaction, Transfer), Error>(Error::ConditionNotMet),
        c.condition == SettlementCondition::OracleConfirmation && caller_is_admin
            ==> c.release_authorized(caller, caller_is_admin, None, now) == Ok::<bool, Error>(false),
        c.condition == SettlementCondition::TimeBased ==> c.release_authorized(
            caller,
            caller_is_admin,
            oracle_input,
            now,
        ) == Ok::<bool, Error>(now >= c.deadline),
{
}

/// The admin settles a dispute, and nobody else: a party to the dispute
/// cannot decide it. The decision for the seller pays the full amount to the
/// seller and completes the transaction, the decision against returns it to
/// the buyer and refunds the transaction. A transaction that is not disputed
/// cannot be settled, whoever calls, so a settled dispute cannot be settled
/// again; and a disputed transaction cannot be disputed again.
pub proof fn dispute_resolution_is_final(
    c: DeferredTransaction,
    caller_is_admin: bool,
    release_to_seller: bool,
    token: Address,
    again: Address,
)
    requires
        c.wf(),
    ensures
        c.status != TransactionStatus::Disputed ==> c.resolve_dispute_step(
            caller_is_admin,
            release_to_seller,
            Some(token),
        ) == Err::<(DeferredTransaction, Transfer), Error>(Error::NotDisputed),
        c.status == TransactionStatus::Disputed && !caller_is_admin ==> c.resolve_dispute_step(
            caller_is_admin,
            release_to_seller,
            Some(token),
        ) == Err::<(DeferredTransaction, Transfer), Error>(Error::Unauthorized),
        c.status == TransactionStatus::Disputed && caller_is_admin ==> (c.resolve_dispute_step(
            caller_is_admin,
            release_to_seller,
            Some(token),
        ) matches Ok((next, transfer)) && next.escrowed() == 0 && transfer == (Transfer::Payout {
            to: if release_to_seller { c.seller } else { c.buyer },
            asset: token,
            amount: c.amount as u128,
        }) && next.status == (if release_to_seller {
            TransactionStatus::Completed
        } else {
            TransactionStatus::Refunded
        }) && next.resolve_dispute_step(true, release_to_seller, Some(token)) is Err),
        c.status == TransactionStatus::Disputed ==> c.initiate_dispute_step(again) is Err,
{
}

/// Custody and status change together: what an accepted step takes from the
/// amount held is what the transfer that it hands back moves, and what the
/// creation pays in is what the new transaction holds.
pub proof fn custody_follows_transfer(
    c: DeferredTransaction,
    next: DeferredTransaction,
    transfer: Transfer,
    caller: Address,
    caller_is_admin: bool,
    oracle_input: Option<bool>,
    release_to_seller: bool,
    now: u64,
    token: Option<Address>,
)
    requires
        ({
            let done = Ok::<(DeferredTransaction, Transfer), Error>((next, transfer));
            ||| c.verify_step(caller, caller_is_admin, oracle_input, now, token) == done
            ||| c.resolve_dispute_step(caller_is_admin, release_to_seller, token) == done
        }),
    ensures
        next.escrowed() == c.escrowed() + transfer.inflow() - transfer.outflow(),
{
}

/// Every accepted step keeps the invariant, and so does the creation.
pub proof fn every_step_keeps_the_invariant(
    c: DeferredTransaction,
    caller: Address,
    caller_is_admin: bool,
    oracle_input: Option<bool>,
    release_to_seller: bool,
    duration: u64,
    now: u64,
    token: Address,
)
    requires
        c.wf(),
    ensures
        c.verify_step(caller, caller_is_admin, oracle_input, now, Some(token)) matches Ok(
            (next, _),
        ) ==> next.wf(),
        c.initiate_dispute_step(caller) matches Ok(next) ==> next.wf(),
        c.resolve_dispute_step(caller_is_admin, release_to_seller, Some(token)) matches Ok(
            (next, _),
        ) ==> next.wf(),
        creation_refusal(c.buyer, c.seller, c.amount, duration, now, Some(token)) is None
            ==> DeferredTransaction::created(
            c.id,
            c.buyer,
            c.seller,
            c.amount,
            c.condition,
            duration,
            now,
            token,
        ).0.wf(),
{
}

} // verus!
