//! Escrow with a conditional refund: the buyer funds a contract, the seller
//! marks delivery, and the buyer confirms it, which pays the seller. Either
//! side may ask for a refund before the refund deadline; the refund is then
//! granted automatically where its conditions hold, or decided by the admin.

use vstd::prelude::*;
use crate::address::{names, Address};
use crate::custody::{moved, replaced_at, settled, Transfer};
use crate::paging::{page, page_of};

verus! {

/// Why an operation is refused.
#[derive(Clone, Copy, Debug, PartialEq, Eq, Structural)]
pub enum ContractError {
    AlreadyInitialized,
    NotInitialized,
    Unauthorized,
    AdminOnly,
    BuyerOnly,
    SellerOnly,
    ParticipantOnly,
    ContractNotFound,
    ContractAlreadyFunded,
    ContractNotFunded,
    ContractCancelled,
    ContractCompleted,
    ContractExpired,
    RefundNotRequested,
    RefundAlreadyRequested,
    RefundAlreadyProcessed,
    RefundDeadlinePassed,
    RefundConditionsNotMet,
    DeliveryDeadlinePassed,
    DeliveryAlreadyConfirmed,
    DeliveryNotMarked,
    InsufficientBalance,
    TransferFailed,
    InvalidAmount,
    InvalidInput,
    DataNotFound,
    OperationNotAllowed,
    DeadlineInPast,
}

/// Where a contract stands.
#[derive(Clone, Copy, Debug, PartialEq, Eq, Structural)]
pub enum ContractStatus {
    Created,
    Funded,
    Delivered,
    Completed,
    Cancelled,
    RefundRequested,
    RefundProcessed,
}

impl ContractStatus {
    /// A terminal status admits no further movement of custody.
    pub open spec fn is_terminal(self) -> bool {
        self == ContractStatus::Completed || self == ContractStatus::Cancelled
            || self == ContractStatus::RefundProcessed
    }

    /// Whether the status is terminal.
    pub fn terminal(&self) -> (r: bool)
        ensures
            r == self.is_terminal(),
    {
        match self {
            ContractStatus::Completed
            | ContractStatus::Cancelled
            | ContractStatus::RefundProcessed => true,
            _ => false,
        }
    }
}

/// One refundable purchase held in escrow.
#[derive(Clone, Debug, PartialEq, Eq)]
pub struct RefundContract {
    pub id: u64,
    pub buyer: Address,
    pub seller: Address,
    pub token: Address,
    pub amount: u128,
    pub escrowed_amount: u128,
    pub status: ContractStatus,
    pub refund_deadline: u64,
    pub delivery_deadline: u64,
    pub refund_conditions: String,
    pub created_at: u64,
    pub funded_at: Option<u64>,
    pub delivered_at: Option<u64>,
    pub completed_at: Option<u64>,
    pub cancelled_at: Option<u64>,
    pub refund_requested_at: Option<u64>,
    pub refund_processed_at: Option<u64>,
    pub refund_reason: Option<String>,
    pub refund_requester: Option<Address>,
}

/// Why a contract with these terms cannot be created at time `now`, if it
/// cannot.
pub open spec fn creation_refusal(
    buyer: Address,
    seller: Address,
    amount: u128,
    refund_deadline: u64,
    delivery_deadline: u64,
    now: u64,
) -> Option<ContractError> {
    if amount == 0 {
        Some(ContractError::InvalidAmount)
    } else if buyer@ == seller@ {
        Some(ContractError::InvalidInput)
    } else if refund_deadline <= now || delivery_deadline <= now {
        Some(ContractError::DeadlineInPast)
    } else {
        None
    }
}

impl RefundContract {
    // ----- accounting -----

    /// The amount that the contract is about.
    pub open spec fn total(self) -> nat {
        self.amount as nat
    }

    /// What the buyer has put into custody so far.
    pub open spec fn deposited(self) -> nat {
        if self.funded_at is Some { self.amount as nat } else { 0 }
    }

    /// What is held in custody now.
    pub open spec fn escrowed(self) -> nat {
        self.escrowed_amount as nat
    }

    /// What has been paid to the seller.
    pub open spec fn released(self) -> nat {
        if self.status == ContractStatus::Completed { self.deposited() } else { 0 }
    }

    /// What has been returned to the buyer.
    pub open spec fn refunded(self) -> nat {
        if self.status == ContractStatus::Cancelled || self.status == ContractStatus::RefundProcessed {
            self.deposited()
        } else {
            0
        }
    }

    /// The invariant of a contract record.
    pub open spec fn wf(self) -> bool {
        &&& self.amount > 0
        &&& self.buyer@ != self.seller@
        &&& self.status == ContractStatus::Created ==> self.funded_at is None
        &&& (self.status == ContractStatus::Funded || self.status == ContractStatus::Delivered)
            ==> self.funded_at is Some
        &&& self.escrowed() == if self.status.is_terminal() { 0 } else { self.deposited() }
    }

    /// Buyer and seller are the participants.
    pub open spec fn is_participant(self, who: Address) -> bool {
        self.buyer@ == who@ || self.seller@ == who@
    }

    /// Whether `who` is the buyer or the seller.
    pub fn participant(&self, who: &Address) -> (r: bool)
        ensures
            r == self.is_participant(*who),
    {
        self.buyer.same(who) || self.seller.same(who)
    }

    /// The parties under which the contract is listed: its participants.
    pub fn listed_parties(&self) -> (r: Vec<Address>)
        ensures
            r@ == seq![self.buyer, self.seller],
            forall|who: Address|
                self.is_participant(who) <==> exists|i: int|
                    0 <= i < r@.len() && (#[trigger] r@[i])@ == who@,
    {
        let mut r: Vec<Address> = Vec::new();
        r.push(self.buyer.duplicate());
        r.push(self.seller.duplicate());
        proof {
            assert(r@ =~= seq![self.buyer, self.seller]);
            assert(r@[0] == self.buyer && r@[1] == self.seller);
        }
        r
    }

    /// A copy of the record.
    pub fn duplicate(&self) -> (c: RefundContract)
        ensures
            c == *self,
    {
        RefundContract {
            id: self.id,
            buyer: self.buyer.duplicate(),
            seller: self.seller.duplicate(),
            token: self.token.duplicate(),
            amount: self.amount,
            escrowed_amount: self.escrowed_amount,
            status: self.status,
            refund_deadline: self.refund_deadline,
            delivery_deadline: self.delivery_deadline,
            refund_conditions: self.refund_conditions.clone(),
            created_at: self.created_at,
            funded_at: self.funded_at,
            delivered_at: self.delivered_at,
            completed_at: self.completed_at,
            cancelled_at: self.cancelled_at,
            refund_requested_at: self.refund_requested_at,
            refund_processed_at: self.refund_processed_at,
            refund_reason: match &self.refund_reason {
                Some(text) => Some(text.clone()),
                None => None,
            },
            refund_requester: match &self.refund_requester {
                Some(who) => Some(who.duplicate()),
                None => None,
            },
        }
    }

    // ----- creation -----

    /// The record of a contract created at `now` under `id`.
    pub open spec fn created(
        id: u64,
        buyer: Address,
        seller: Address,
        token: Address,
        amount: u128,
        refund_deadline: u64,
        delivery_deadline: u64,
        refund_conditions: String,
        now: u64,
    ) -> RefundContract {
        RefundContract {
            id,
            buyer,
            seller,
            token,
            amount,
            escrowed_amount: 0,
            status: ContractStatus::Created,
            refund_deadline,
            delivery_deadline,
            refund_conditions,
            created_at: now,
            funded_at: None,
            delivered_at: None,
            completed_at: None,
            cancelled_at: None,
            refund_requested_at: None,
            refund_processed_at: None,
            refund_reason: None,
            refund_requester: None,
        }
    }

    /// Creates the record of a new contract. `buyer` is the party that
    /// authorized the call.
    pub fn create(
        id: u64,
        buyer: Address,
        seller: Address,
        token: Address,
        amount: u128,
        refund_deadline: u64,
        delivery_deadline: u64,
        refund_conditions: String,
        now: u64,
    ) -> (r: Result<RefundContract, ContractError>)
        ensures
            match creation_refusal(buyer, seller, amount, refund_deadline, delivery_deadline, now) {
                Some(e) => r == Err::<RefundContract, ContractError>(e),
                None => r == Ok::<RefundContract, ContractError>(
                    RefundContract::created(
                        id,
                        buyer,
                        seller,
                        token,
                        amount,
                        refund_deadline,
                        delivery_deadline,
                        refund_conditions,
                        now,
                    ),
                ),
            },
            r matches Ok(c) ==> c.wf(),
    {
        if amount == 0 {
            return Err(ContractError::InvalidAmount);
        }
        if buyer.same(&seller) {
            return Err(ContractError::InvalidInput);
        }
        if refund_deadline <= now || delivery_deadline <= now {
            return Err(ContractError::DeadlineInPast);
        }
        Ok(
            RefundContract {
                id,
                buyer,
                seller,
                token,
                amount,
                escrowed_amount: 0,
                status: ContractStatus::Created,
                refund_deadline,
                delivery_deadline,
                refund_conditions,
                created_at: now,
                funded_at: None,
                delivered_at: None,
                completed_at: None,
                cancelled_at: None,
                refund_requested_at: None,
                refund_processed_at: None,
                refund_reason: None,
                refund_requester: None,
            },
        )
    }

    // ----- funding -----

    /// What funding by `caller` at `now` makes of the contract.
    pub open spec fn fund_step(self, caller: Address, now: u64) -> Result<
        (RefundContract, Transfer),
        ContractError,
    > {
        if self.buyer@ != caller@ {
            Err(ContractError::BuyerOnly)
        } else if self.status != ContractStatus::Created {
            Err(ContractError::ContractAlreadyFunded)
        } else {
            Ok(
                (
                    RefundContract {
                        escrowed_amount: self.amount,
                        status: ContractStatus::Funded,
                        funded_at: Some(now),
                        ..self
                    },
                    Transfer::deposit_of(self.buyer, self.token, self.amount),
                ),
            )
        }
    }

    /// The buyer locks the full amount in escrow.
    pub fn fund(&mut self, caller: &Address, now: u64) -> (r: Result<Transfer, ContractError>)
        ensures
            moved(r, *old(self), *final(self), old(self).fund_step(*caller, now)),
            old(self).wf() ==> final(self).wf(),
    {
        if !self.buyer.same(caller) {
            return Err(ContractError::BuyerOnly);
        }
        if self.status != ContractStatus::Created {
            return Err(ContractError::ContractAlreadyFunded);
        }
        let transfer = Transfer::deposit(&self.buyer, &self.token, self.amount);
        self.escrowed_amount = self.amount;
        self.status = ContractStatus::Funded;
        self.funded_at = Some(now);
        Ok(transfer)
    }

    // ----- delivery -----

    /// What the report of the delivery by `caller` at `now` makes of the
    /// contract.
    pub open spec fn mark_delivered_step(self, caller: Address, now: u64) -> Result<
        RefundContract,
        ContractError,
    > {
        if self.seller@ != caller@ {
            Err(ContractError::SellerOnly)
        } else if self.status != ContractStatus::Funded {
            Err(ContractError::ContractNotFunded)
        } else if now > self.delivery_deadline {
            Err(ContractError::DeliveryDeadlinePassed)
        } else {
            Ok(RefundContract { status: ContractStatus::Delivered, delivered_at: Some(now), ..self })
        }
    }

    /// The seller reports the delivery, at the delivery deadline at the
    /// latest.
    pub fn mark_delivered(&mut self, caller: &Address, now: u64) -> (r: Result<(), ContractError>)
        ensures
            settled(r, *old(self), *final(self), old(self).mark_delivered_step(*caller, now)),
            old(self).wf() ==> final(self).wf(),
    {
        if !self.seller.same(caller) {
            return Err(ContractError::SellerOnly);
        }
        if self.status != ContractStatus::Funded {
            return Err(ContractError::ContractNotFunded);
        }
        if now > self.delivery_deadline {
            return Err(ContractError::DeliveryDeadlinePassed);
        }
        self.status = ContractStatus::Delivered;
        self.delivered_at = Some(now);
        Ok(())
    }

    /// What the confirmation of the delivery by `caller` at `now` makes of the
    /// contract.
    pub open spec fn confirm_delivery_step(self, caller: Address, now: u64) -> Result<
        (RefundContract, Transfer),
        ContractError,
    > {
        if self.buyer@ != caller@ {
            Err(ContractError::BuyerOnly)
        } else if self.status != ContractStatus::Delivered {
            Err(ContractError::DeliveryNotMarked)
        } else {
            Ok(
                (
                    RefundContract {
                        escrowed_amount: 0,
                        status: ContractStatus::Completed,
                        completed_at: Some(now),
                        ..self
                    },
                    Transfer::payout_of(self.seller, self.token, self.escrowed_amount),
                ),
            )
        }
    }

    /// The buyer confirms the delivery, which pays the seller what is held.
    pub fn confirm_delivery(&mut self, caller: &Address, now: u64) -> (r: Result<
        Transfer,
        ContractError,
    >)
        ensures
            moved(r, *old(self), *final(self), old(self).confirm_delivery_step(*caller, now)),
            old(self).wf() ==> final(self).wf(),
    {
        if !self.buyer.same(caller) {
            return Err(ContractError::BuyerOnly);
        }
        if self.status != ContractStatus::Delivered {
            return Err(ContractError::DeliveryNotMarked);
        }
        let transfer = Transfer::payout(&self.seller, &self.token, self.escrowed_amount);
        self.escrowed_amount = 0;
        self.status = ContractStatus::Completed;
        self.completed_at = Some(now);
        Ok(transfer)
    }

    // ----- refunds -----

    /// What the request of `caller` for a refund at `now` makes of the
    /// contract.
    pub open spec fn request_refund_step(self, caller: Address, reason: String, now: u64) -> Result<
        RefundContract,
        ContractError,
    > {
        if !self.is_participant(caller) {
            Err(ContractError::ParticipantOnly)
        } else if self.status.is_terminal() {
            Err(ContractError::OperationNotAllowed)
        } else if self.status == ContractStatus::RefundRequested {
            Err(ContractError::RefundAlreadyRequested)
        } else if now > self.refund_deadline {
            Err(ContractError::RefundDeadlinePassed)
        } else {
            Ok(
                RefundContract {
                    status: ContractStatus::RefundRequested,
                    refund_requested_at: Some(now),
                    refund_reason: Some(reason),
                    refund_requester: Some(caller),
                    ..self
                },
            )
        }
    }

    /// A participant asks for a refund, at the refund deadline at the latest.
    pub fn request_refund(&mut self, caller: &Address, reason: String, now: u64) -> (r: Result<
        (),
        ContractError,
    >)
        ensures
            settled(r, *old(self), *final(self), old(self).request_refund_step(*caller, reason, now)),
            old(self).wf() ==> final(self).wf(),
    {
        if !self.participant(caller) {
            return Err(ContractError::ParticipantOnly);
        }
        if self.status.terminal() {
            return Err(ContractError::OperationNotAllowed);
        }
        if self.status == ContractStatus::RefundRequested {
            return Err(ContractError::RefundAlreadyRequested);
        }
        if now > self.refund_deadline {
            return Err(ContractError::RefundDeadlinePassed);
        }
        self.status = ContractStatus::RefundRequested;
        self.refund_requested_at = Some(now);
        self.refund_reason = Some(reason);
        self.refund_requester = Some(caller.duplicate());
        Ok(())
    }

    /// Whether the refund needs no decision: the delivery deadline has
    /// passed on a funded contract, or the buyer asked for the refund.
    pub open spec fn refund_is_due(self, now: u64) -> bool {
        match self.status {
            ContractStatus::Funded => now > self.delivery_deadline,
            ContractStatus::RefundRequested => self.refund_requester matches Some(who) && who@
                == self.buyer@,
            _ => false,
        }
    }

    /// Whether the refund needs no decision at `now`.
    pub fn refund_due(&self, now: u64) -> (r: bool)
        ensures
            r == self.refund_is_due(now),
    {
        match self.status {
            ContractStatus::Funded => now > self.delivery_deadline,
            ContractStatus::RefundRequested => match &self.refund_requester {
                Some(who) => who.same(&self.buyer),
                None => false,
            },
            _ => false,
        }
    }

    /// What the automatic refund at `now` makes of the contract.
    pub open spec fn process_automatic_refund_step(self, now: u64) -> Result<
        (RefundContract, Transfer),
        ContractError,
    > {
        if !self.refund_is_due(now) {
            Err(ContractError::RefundConditionsNotMet)
        } else if self.escrowed_amount == 0 {
            Err(ContractError::RefundAlreadyProcessed)
        } else {
            Ok(
                (
                    RefundContract {
                        escrowed_amount: 0,
                        status: ContractStatus::RefundProcessed,
                        refund_processed_at: Some(now),
                        ..self
                    },
                    Transfer::payout_of(self.buyer, self.token, self.escrowed_amount),
                ),
            )
        }
    }

    /// Returns what is held to the buyer where the refund is due. Anyone may
    /// call this.
    pub fn process_automatic_refund(&mut self, now: u64) -> (r: Result<Transfer, ContractError>)
        ensures
            moved(r, *old(self), *final(self), old(self).process_automatic_refund_step(now)),
            old(self).wf() ==> final(self).wf(),
    {
        if !self.refund_due(now) {
            return Err(ContractError::RefundConditionsNotMet);
        }
        if self.escrowed_amount == 0 {
            return Err(ContractError::RefundAlreadyProcessed);
        }
        let transfer = Transfer::payout(&self.buyer, &self.token, self.escrowed_amount);
        self.escrowed_amount = 0;
        self.status = ContractStatus::RefundProcessed;
        self.refund_processed_at = Some(now);
        Ok(transfer)
    }

    /// What the admin's decision at `now` makes of the contract.
    pub open spec fn resolve_refund_dispute_step(self, approve_refund: bool, now: u64) -> Result<
        (RefundContract, Transfer),
        ContractError,
    > {
        if self.status != ContractStatus::RefundRequested {
            Err(ContractError::RefundNotRequested)
        } else if approve_refund {
            Ok(
                (
                    RefundContract {
                        escrowed_amount: 0,
                        status: ContractStatus::RefundProcessed,
                        refund_processed_at: Some(now),
                        ..self
                    },
                    Transfer::payout_of(self.buyer, self.token, self.escrowed_amount),
                ),
            )
        } else {
            Ok(
                (
                    RefundContract {
                        escrowed_amount: 0,
                        status: ContractStatus::Completed,
                        completed_at: Some(now),
                        ..self
                    },
                    Transfer::payout_of(self.seller, self.token, self.escrowed_amount),
                ),
            )
        }
    }

    /// Decides a requested refund: what is held goes back to the buyer where
    /// the refund is approved, and to the seller where it is not. The caller
    /// has established before that the admin decides.
    pub fn resolve_refund_dispute(&mut self, approve_refund: bool, now: u64) -> (r: Result<
        Transfer,
        ContractError,
    >)
        ensures
            moved(
                r,
                *old(self),
                *final(self),
                old(self).resolve_refund_dispute_step(approve_refund, now),
            ),
            old(self).wf() ==> final(self).wf(),
    {
        if self.status != ContractStatus::RefundRequested {
            return Err(ContractError::RefundNotRequested);
        }
        if approve_refund {
            let transfer = Transfer::payout(&self.buyer, &self.token, self.escrowed_amount);
            self.escrowed_amount = 0;
            self.status = ContractStatus::RefundProcessed;
            self.refund_processed_at = Some(now);
            Ok(transfer)
        } else {
            let transfer = Transfer::payout(&self.seller, &self.token, self.escrowed_amount);
            self.escrowed_amount = 0;
            self.status = ContractStatus::Completed;
            self.completed_at = Some(now);
            Ok(transfer)
        }
    }

    // ----- cancellation -----

    /// What the cancellation by `caller` at `now` makes of the contract.
    pub open spec fn cancel_step(self, caller: Address, now: u64) -> Result<
        (RefundContract, Transfer),
        ContractError,
    > {
        if !self.is_participant(caller) {
            Err(ContractError::ParticipantOnly)
        } else if self.status.is_terminal() || self.status == ContractStatus::Delivered {
            Err(ContractError::OperationNotAllowed)
        } else {
            Ok(
                (
                    RefundContract {
                        escrowed_amount: 0,
                        status: ContractStatus::Cancelled,
                        cancelled_at: Some(now),
                        ..self
                    },
                    Transfer::payout_of(self.buyer, self.token, self.escrowed_amount),
                ),
            )
        }
    }

    /// A participant cancels the contract before delivery is marked; what is
    /// held goes back to the buyer.
    pub fn cancel(&mut self, caller: &Address, now: u64) -> (r: Result<Transfer, ContractError>)
        ensures
            moved(r, *old(self), *final(self), old(self).cancel_step(*caller, now)),
            old(self).wf() ==> final(self).wf(),
    {
        if !self.participant(caller) {
            return Err(ContractError::ParticipantOnly);
        }
        if self.status.terminal() {
            return Err(ContractError::OperationNotAllowed);
        }
        if self.status == ContractStatus::Delivered {
            return Err(ContractError::OperationNotAllowed);
        }
        let transfer = Transfer::payout(&self.buyer, &self.token, self.escrowed_amount);
        self.status = ContractStatus::Cancelled;
        self.cancelled_at = Some(now);
        self.escrowed_amount = 0;
        Ok(transfer)
    }
}

/// The engine: the admin that decides disputed refunds, and every contract
/// ever created, in the order of creation. Contract identifiers count from 1.
#[derive(Clone, Debug)]
pub struct ConditionalRefundContract {
    pub admin: Option<Address>,
    pub contracts: Vec<RefundContract>,
}

/// What an operation on the contract `id` makes of the engine, where `step`
/// says what it makes of that contract: an unknown identifier is refused, a
/// refused step leaves every contract as it was, and an accepted step
/// replaces that one contract and nothing else.
pub open spec fn contract_moved(
    r: Result<Transfer, ContractError>,
    before: ConditionalRefundContract,
    after: ConditionalRefundContract,
    id: u64,
    step: spec_fn(RefundContract) -> Result<(RefundContract, Transfer), ContractError>,
) -> bool {
    &&& after.admin == before.admin
    &&& match before.lookup(id) {
        None => r == Err::<Transfer, ContractError>(ContractError::ContractNotFound)
            && after.contracts@ == before.contracts@,
        Some(c) => match step(c) {
            Ok((next, transfer)) => r == Ok::<Transfer, ContractError>(transfer)
                && after.contracts@ == before.contracts@.update(id - 1, next),
            Err(e) => r == Err::<Transfer, ContractError>(e) && after.contracts@
                == before.contracts@,
        },
    }
}

/// As `contract_moved`, for an operation that never moves value.
pub open spec fn contract_settled(
    r: Result<(), ContractError>,
    before: ConditionalRefundContract,
    after: ConditionalRefundContract,
    id: u64,
    step: spec_fn(RefundContract) -> Result<RefundContract, ContractError>,
) -> bool {
    &&& after.admin == before.admin
    &&& match before.lookup(id) {
        None => r == Err::<(), ContractError>(ContractError::ContractNotFound) && after.contracts@
            == before.contracts@,
        Some(c) => match step(c) {
            Ok(next) => r == Ok::<(), ContractError>(()) && after.contracts@
                == before.contracts@.update(id - 1, next),
            Err(e) => r == Err::<(), ContractError>(e) && after.contracts@ == before.contracts@,
        },
    }
}

impl ConditionalRefundContract {
    /// Identifiers are dense and every record keeps its invariant.
    pub open spec fn wf(self) -> bool {
        forall|i: int|
            0 <= i < self.contracts@.len() ==> (#[trigger] self.contracts@[i]).id == i + 1
                && self.contracts@[i].wf()
    }

    /// The contract stored under `id`, if there is one.
    pub open spec fn lookup(self, id: u64) -> Option<RefundContract> {
        if 1 <= id <= self.contracts@.len() {
            Some(self.contracts@[id - 1])
        } else {
            None
        }
    }

    /// Whether `who` is the admin of an initialized engine.
    pub open spec fn is_admin(self, who: Address) -> bool {
        names(self.admin, who)
    }

    /// The identifiers of the first `n` contracts in which `user` is buyer or
    /// seller, in the order of creation.
    pub open spec fn listed_upto(self, user: Address, n: nat) -> Seq<u64>
        decreases n,
    {
        if n == 0 {
            Seq::empty()
        } else {
            let before = self.listed_upto(user, (n - 1) as nat);
            let c = self.contracts@[n - 1];
            if c.is_participant(user) {
                before.push(c.id)
            } else {
                before
            }
        }
    }

    /// The identifiers of all contracts in which `user` takes part.
    pub open spec fn contracts_of(self, user: Address) -> Seq<u64> {
        self.listed_upto(user, self.contracts@.len())
    }

    /// An engine without admin and without contracts.
    pub fn new() -> (s: ConditionalRefundContract)
        ensures
            s.wf(),
            s.admin is None,
            s.contracts@.len() == 0,
    {
        ConditionalRefundContract { admin: None, contracts: Vec::new() }
    }

    /// Binds the admin, once. `admin` is the party that authorized the call.
    pub fn initialize(&mut self, admin: Address) -> (r: Result<(), ContractError>)
        ensures
            final(self).contracts == old(self).contracts,
            match old(self).admin {
                Some(_) => r == Err::<(), ContractError>(ContractError::AlreadyInitialized)
                    && final(self).admin == old(self).admin,
                None => r == Ok::<(), ContractError>(()) && final(self).admin == Some(admin),
            },
    {
        if self.admin.is_some() {
            return Err(ContractError::AlreadyInitialized);
        }
        self.admin = Some(admin);
        Ok(())
    }

    /// Whether `who` is the admin of an initialized engine.
    pub fn has_admin(&self, who: &Address) -> (r: bool)
        ensures
            r == self.is_admin(*who),
    {
        match &self.admin {
            Some(a) => a.same(who),
            None => false,
        }
    }

    /// Turns away whoever is not the admin.
    pub fn require_admin(&self, who: &Address) -> (r: Result<(), ContractError>)
        ensures
            r == (if self.is_admin(*who) {
                Ok::<(), ContractError>(())
            } else {
                Err::<(), ContractError>(ContractError::AdminOnly)
            }),
    {
        if self.has_admin(who) {
            Ok(())
        } else {
            Err(ContractError::AdminOnly)
        }
    }

    /// The position of the contract `id` among the contracts.
    fn slot(&self, id: u64) -> (r: Option<usize>)
        ensures
            match r {
                Some(i) => self.lookup(id) == Some(self.contracts@[i as int]) && i == id - 1 && i
                    < self.contracts@.len(),
                None => self.lookup(id) is None,
            },
    {
        if id == 0 || id > self.contracts.len() as u64 {
            None
        } else {
            Some((id - 1) as usize)
        }
    }

    /// Creates a contract under the next identifier and returns it. `buyer`
    /// is the party that authorized the call. An engine that has used up
    /// its identifiers allows no further creation.
    pub fn create_refund_contract(
        &mut self,
        buyer: Address,
        seller: Address,
        token: Address,
        amount: u128,
        refund_deadline: u64,
        delivery_deadline: u64,
        refund_conditions: String,
        now: u64,
    ) -> (r: Result<u64, ContractError>)
        ensures
            old(self).wf() ==> final(self).wf(),
            final(self).admin == old(self).admin,
            match creation_refusal(buyer, seller, amount, refund_deadline, delivery_deadline, now) {
                Some(e) => r == Err::<u64, ContractError>(e) && final(self).contracts@
                    == old(self).contracts@,
                None => if old(self).contracts@.len() >= u64::MAX {
                    r == Err::<u64, ContractError>(ContractError::OperationNotAllowed)
                        && final(self).contracts@ == old(self).contracts@
                } else {
                    r == Ok::<u64, ContractError>((old(self).contracts@.len() + 1) as u64)
                        && final(self).contracts@ == old(self).contracts@.push(
                        RefundContract::created(
                            (old(self).contracts@.len() + 1) as u64,
                            buyer,
                            seller,
                            token,
                            amount,
                            refund_deadline,
                            delivery_deadline,
                            refund_conditions,
                            now,
                        ),
                    )
                },
            },
    {
        let count: u64 = self.contracts.len() as u64;
        let id: u64 = if count < u64::MAX { count + 1 } else { count };
        match RefundContract::create(
            id,
            buyer,
            seller,
            token,
            amount,
            refund_deadline,
            delivery_deadline,
            refund_conditions,
            now,
        ) {
            Ok(c) => {
                if count == u64::MAX {
                    return Err(ContractError::OperationNotAllowed);
                }
                self.contracts.push(c);
                Ok(id)
            },
            Err(e) => Err(e),
        }
    }

    /// The buyer locks the full amount of contract `contract_id` in escrow.
    pub fn fund_contract(&mut self, contract_id: u64, buyer: &Address, now: u64) -> (r: Result<
        Transfer,
        ContractError,
    >)
        ensures
            old(self).wf() ==> final(self).wf(),
            contract_moved(
                r,
                *old(self),
                *final(self),
                contract_id,
                |c: RefundContract| c.fund_step(*buyer, now),
            ),
    {
        match self.slot(contract_id) {
            None => Err(ContractError::ContractNotFound),
            Some(i) => {
                let r = self.contracts[i].fund(buyer, now);
                proof {
                    replaced_at(old(self).contracts@, self.contracts@, i as int);
                }
                r
            },
        }
    }

    /// The seller reports the delivery of contract `contract_id`.
    pub fn mark_delivered(
        &mut self,
        contract_id: u64,
        seller: &Address,
        now: u64,
    ) -> (r: Result<(), ContractError>)
        ensures
            old(self).wf() ==> final(self).wf(),
            contract_settled(
                r,
                *old(self),
                *final(self),
                contract_id,
                |c: RefundContract| c.mark_delivered_step(*seller, now),
            ),
    {
        match self.slot(contract_id) {
            None => Err(ContractError::ContractNotFound),
            Some(i) => {
                let r = self.contracts[i].mark_delivered(seller, now);
                proof {
                    replaced_at(old(self).contracts@, self.contracts@, i as int);
                }
                r
            },
        }
    }

    /// The buyer confirms the delivery of contract `contract_id`, which pays the
    /// seller.
    pub fn confirm_delivery(
        &mut self,
        contract_id: u64,
        buyer: &Address,
        now: u64,
    ) -> (r: Result<Transfer, ContractError>)
        ensures
            old(self).wf() ==> final(self).wf(),
            contract_moved(
                r,
                *old(self),
                *final(self),
                contract_id,
                |c: RefundContract| c.confirm_delivery_step(*buyer, now),
            ),
    {
        match self.slot(contract_id) {
            None => Err(ContractError::ContractNotFound),
            Some(i) => {
                let r = self.contracts[i].confirm_delivery(buyer, now);
                proof {
                    replaced_at(old(self).contracts@, self.contracts@, i as int);
                }
                r
            },
        }
    }

    /// A participant asks for a refund on contract `contract_id`.
    pub fn request_refund(
        &mut self,
        contract_id: u64,
        requester: &Address,
        reason: String,
        now: u64,
    ) -> (r: Result<(), ContractError>)
        ensures
            old(self).wf() ==> final(self).wf(),
            contract_settled(
                r,
                *old(self),
                *final(self),
                contract_id,
                |c: RefundContract| c.request_refund_step(*requester, reason, now),
            ),
    {
        match self.slot(contract_id) {
            None => Err(ContractError::ContractNotFound),
            Some(i) => {
                let r = self.contracts[i].request_refund(requester, reason, now);
                proof {
                    replaced_at(old(self).contracts@, self.contracts@, i as int);
                }
                r
            },
        }
    }

    /// Returns what contract `contract_id` holds to the buyer where the refund
    /// is due. Anyone may call this.
    pub fn process_automatic_refund(
        &mut self,
        contract_id: u64,
        now: u64,
    ) -> (r: Result<Transfer, ContractError>)
        ensures
            old(self).wf() ==> final(self).wf(),
            contract_moved(
                r,
                *old(self),
                *final(self),
                contract_id,
                |c: RefundContract| c.process_automatic_refund_step(now),
            ),
    {
        match self.slot(contract_id) {
            None => Err(ContractError::ContractNotFound),
            Some(i) => {
                let r = self.contracts[i].process_automatic_refund(now);
                proof {
                    replaced_at(old(self).contracts@, self.contracts@, i as int);
                }
                r
            },
        }
    }

    /// A participant cancels contract `contract_id` before delivery is marked.
    pub fn cancel_contract(
        &mut self,
        contract_id: u64,
        canceller: &Address,
        now: u64,
    ) -> (r: Result<Transfer, ContractError>)
        ensures
            old(self).wf() ==> final(self).wf(),
            contract_moved(
                r,
                *old(self),
                *final(self),
                contract_id,
                |c: RefundContract| c.cancel_step(*canceller, now),
            ),
    {
        match self.slot(contract_id) {
            None => Err(ContractError::ContractNotFound),
            Some(i) => {
                let r = self.contracts[i].cancel(canceller, now);
                proof {
                    replaced_at(old(self).contracts@, self.contracts@, i as int);
                }
                r
            },
        }
    }

    /// The admin decides the refund requested on contract `contract_id`.
    /// Whoever is not the admin is turned away before the contract is looked
    /// at.
    pub fn resolve_refund_dispute(
        &mut self,
        contract_id: u64,
        admin: &Address,
        approve_refund: bool,
        now: u64,
    ) -> (r: Result<Transfer, ContractError>)
        ensures
            old(self).wf() ==> final(self).wf(),
            if old(self).is_admin(*admin) {
                contract_moved(
                    r,
                    *old(self),
                    *final(self),
                    contract_id,
                    |c: RefundContract| c.resolve_refund_dispute_step(approve_refund, now),
                )
            } else {
                r == Err::<Transfer, ContractError>(ContractError::AdminOnly) && *final(self)
                    == *old(self)
            },
    {
        match self.require_admin(admin) {
            Err(e) => {
                return Err(e);
            },
            Ok(()) => {},
        }
        match self.slot(contract_id) {
            None => Err(ContractError::ContractNotFound),
            Some(i) => {
                let r = self.contracts[i].resolve_refund_dispute(approve_refund, now);
                proof {
                    replaced_at(old(self).contracts@, self.contracts@, i as int);
                }
                r
            },
        }
    }

    /// The contract stored under `contract_id`.
    pub fn get_contract(&self, contract_id: u64) -> (r: Result<RefundContract, ContractError>)
        ensures
            match self.lookup(contract_id) {
                Some(c) => r == Ok::<RefundContract, ContractError>(c),
                None => r == Err::<RefundContract, ContractError>(ContractError::ContractNotFound),
            },
    {
        match self.slot(contract_id) {
            None => Err(ContractError::ContractNotFound),
            Some(i) => Ok(self.contracts[i].duplicate()),
        }
    }

    /// One page of the identifiers of the contracts in which `user` takes
    /// part, in the order of creation.
    pub fn get_user_contracts(&self, user: &Address, offset: u32, limit: u32) -> (r: Result<
        Vec<u64>,
        ContractError,
    >)
        ensures
            r matches Ok(ids) && ids@ == page_of(
                self.contracts_of(*user),
                offset as nat,
                limit as nat,
            ),
    {
        let mut all: Vec<u64> = Vec::new();
        let mut i: usize = 0;
        while i < self.contracts.len()
            invariant
                i <= self.contracts@.len(),
                all@ == self.listed_upto(*user, i as nat),
            decreases self.contracts@.len() - i,
        {
            if self.contracts[i].participant(user) {
                all.push(self.contracts[i].id);
            }
            i = i + 1;
        }
        Ok(page(&all, offset, limit))
    }
}

/// Custody is conserved: in every contract that keeps its invariant, what is
/// held, what was paid to the seller and what was returned to the buyer add
/// up to what the buyer deposited, which is the contract's total from the
/// moment it is funded. Every operation keeps the invariant.
pub proof fn custody_is_conserved(c: RefundContract)
    requires
        c.wf(),
    ensures
        c.escrowed() + c.released() + c.refunded() == c.deposited(),
        c.funded_at is Some ==> c.escrowed() + c.released() + c.refunded() == c.total(),
{
}

/// A contract in a terminal status holds nothing.
pub proof fn terminal_holds_nothing(c: RefundContract)
    requires
        c.wf(),
        c.status.is_terminal(),
    ensures
        c.escrowed() == 0,
{
}

/// A contract is funded at most once: whoever tries to fund a contract that
/// has left the status `Created` is refused, the buyer with
/// `ContractAlreadyFunded`; and the contract that a funding leaves behind
/// refuses every further funding.
pub proof fn funding_happens_once(
    c: RefundContract,
    caller: Address,
    now: u64,
    again: Address,
    later: u64,
)
    ensures
        c.status != ContractStatus::Created ==> c.fund_step(caller, now) is Err,
        c.status != ContractStatus::Created && c.buyer@ == caller@ ==> c.fund_step(caller, now)
            == Err::<(RefundContract, Transfer), ContractError>(ContractError::ContractAlreadyFunded),
        c.fund_step(caller, now) matches Ok((funded, _)) ==> funded.fund_step(again, later) is Err,
{
}

/// Deciding a requested refund empties the escrow: approval returns all that
/// is held to the buyer and ends in `RefundProcessed`, rejection pays it to
/// the seller and ends in `Completed`. A contract on which no refund is
/// requested cannot be decided.
pub proof fn dispute_resolution_is_final(c: RefundContract, approve_refund: bool, now: u64)
    ensures
        c.status != ContractStatus::RefundRequested ==> c.resolve_refund_dispute_step(
            approve_refund,
            now,
        ) == Err::<(RefundContract, Transfer), ContractError>(ContractError::RefundNotRequested),
        c.status == ContractStatus::RefundRequested ==> (c.resolve_refund_dispute_step(
            approve_refund,
            now,
        ) matches Ok((next, transfer)) && next.escrowed_amount == 0 && transfer.outflow()
            == c.escrowed() && next.status == (if approve_refund {
            ContractStatus::RefundProcessed
        } else {
            ContractStatus::Completed
        }) && (c.escrowed_amount > 0 ==> transfer == (Transfer::Payout {
            to: if approve_refund { c.buyer } else { c.seller },
            asset: c.token,
            amount: c.escrowed_amount,
        }))),
{
}

/// Custody and status change together: on a contract that keeps its
/// invariant, what an accepted step adds to or takes from the amount held is
/// what the transfer that it hands back moves.
pub proof fn custody_follows_transfer(
    c: RefundContract,
    next: RefundContract,
    transfer: Transfer,
    caller: Address,
    approve_refund: bool,
    now: u64,
)
    requires
        c.wf(),
        ({
            let done = Ok::<(RefundContract, Transfer), ContractError>((next, transfer));
            ||| c.fund_step(caller, now) == done
            ||| c.confirm_delivery_step(caller, now) == done
            ||| c.process_automatic_refund_step(now) == done
            ||| c.resolve_refund_dispute_step(approve_refund, now) == done
            ||| c.cancel_step(caller, now) == done
        }),
    ensures
        next.escrowed() == c.escrowed() + transfer.inflow() - transfer.outflow(),
{
}

/// Every accepted step keeps the invariant, and so does the creation: a
/// contract that is created keeps it, and whatever an operation makes of a
/// contract that keeps it keeps it too. With `custody_is_conserved` this
/// says that custody adds up after every operation that goes through.
pub proof fn every_step_keeps_the_invariant(
    c: RefundContract,
    caller: Address,
    reason: String,
    approve_refund: bool,
    now: u64,
)
    requires
        c.wf(),
    ensures
        c.fund_step(caller, now) matches Ok((next, _)) ==> next.wf(),
        c.mark_delivered_step(caller, now) matches Ok(next) ==> next.wf(),
        c.confirm_delivery_step(caller, now) matches Ok((next, _)) ==> next.wf(),
        c.request_refund_step(caller, reason, now) matches Ok(next) ==> next.wf(),
        c.process_automatic_refund_step(now) matches Ok((next, _)) ==> next.wf(),
        c.resolve_refund_dispute_step(approve_refund, now) matches Ok((next, _)) ==> next.wf(),
        c.cancel_step(caller, now) matches Ok((next, _)) ==> next.wf(),
        creation_refusal(c.buyer, c.seller, c.amount, c.refund_deadline, c.delivery_deadline, now)
            is None ==> RefundContract::created(
            c.id,
            c.buyer,
            c.seller,
            c.token,
            c.amount,
            c.refund_deadline,
            c.delivery_deadline,
            c.refund_conditions,
            now,
        ).wf(),
{
}

} // verus!
