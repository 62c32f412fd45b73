//! Escrow with an arbitrator: the buyer deposits the amount, and releases it
//! to the seller once satisfied. Where the two disagree, either of them
//! raises a dispute, and the arbitrator named at creation decides where the
//! amount goes.

use vstd::prelude::*;
use crate::address::Address;
use crate::custody::{moved, replaced_at, settled, Transfer};
use crate::paging::{page, page_of};

verus! {

/// Why an operation is refused.
#[derive(Clone, Copy, Debug, PartialEq, Eq, Structural)]
pub enum ContractError {
    AlreadyInitialized,
    NotInitialized,
    Unauthorized,
    AdminOnly,
    BuyerOnly,
    SellerOnly,
    ArbitratorOnly,
    ParticipantOnly,
    EscrowNotFound,
    EscrowAlreadyFunded,
    EscrowNotFunded,
    EscrowCompleted,
    EscrowCancelled,
    EscrowDisputed,
    EscrowNotDisputed,
    InvalidAmount,
    InsufficientBalance,
    TransferFailed,
    InvalidInput,
    DataNotFound,
    OperationNotAllowed,
}

/// Where an escrow stands.
#[derive(Clone, Copy, Debug, PartialEq, Eq, Structural)]
pub enum EscrowStatus {
    Created,
    Funded,
    Completed,
    Disputed,
    Cancelled,
}

impl EscrowStatus {
    /// A terminal status admits no further movement of custody.
    pub open spec fn is_terminal(self) -> bool {
        self == EscrowStatus::Completed || self == EscrowStatus::Cancelled
    }

    /// Whether the status is terminal.
    pub fn terminal(&self) -> (r: bool)
        ensures
            r == self.is_terminal(),
    {
        match self {
            EscrowStatus::Completed | EscrowStatus::Cancelled => true,
            _ => false,
        }
    }

    /// Whether the amount is in custody under this status.
    pub open spec fn holds_funds(self) -> bool {
        self == EscrowStatus::Funded || self == EscrowStatus::Disputed
    }
}

/// One escrow with its arbitrator.
#[derive(Clone, Debug, PartialEq, Eq)]
pub struct Escrow {
    pub id: u64,
    pub buyer: Address,
    pub seller: Address,
    pub arbitrator: Address,
    pub token: Address,
    pub amount: u128,
    pub description: String,
    pub status: EscrowStatus,
    pub created_at: u64,
    pub funded_at: Option<u64>,
    pub completed_at: Option<u64>,
    pub disputed_at: Option<u64>,
    pub dispute_reason: Option<String>,
}

/// Why an escrow with these terms cannot be created, if it cannot.
pub open spec fn creation_refusal(
    buyer: Address,
    seller: Address,
    arbitrator: Address,
    amount: u128,
) -> Option<ContractError> {
    if amount == 0 {
        Some(ContractError::InvalidAmount)
    } else if buyer@ == seller@ || buyer@ == arbitrator@ || seller@ == arbitrator@ {
        Some(ContractError::InvalidInput)
    } else {
        None
    }
}

impl Escrow {
    // ----- accounting -----

    /// The amount that the escrow is about.
    pub open spec fn total(self) -> nat {
        self.amount as nat
    }

    /// What the buyer has put into custody so far.
    pub open spec fn deposited(self) -> nat {
        if self.status == EscrowStatus::Created { 0 } else { self.amount as nat }
    }

    /// What is held in custody now.
    pub open spec fn escrowed(self) -> nat {
        if self.status.holds_funds() { self.amount as nat } else { 0 }
    }

    /// What has been paid to the seller.
    pub open spec fn released(self) -> nat {
        if self.status == EscrowStatus::Completed { self.amount as nat } else { 0 }
    }

    /// What has been returned to the buyer.
    pub open spec fn refunded(self) -> nat {
        if self.status == EscrowStatus::Cancelled { self.amount as nat } else { 0 }
    }

    /// The invariant of an escrow record.
    pub open spec fn wf(self) -> bool {
        &&& self.amount > 0
        &&& self.buyer@ != self.seller@
        &&& self.buyer@ != self.arbitrator@
        &&& self.seller@ != self.arbitrator@
        &&& (self.status == EscrowStatus::Created <==> self.funded_at is None)
    }

    /// Buyer and seller are the participants; the arbitrator is not.
    pub open spec fn is_participant(self, who: Address) -> bool {
        self.buyer@ == who@ || self.seller@ == who@
    }

    /// Whether `who` is the buyer or the seller.
    pub fn participant(&self, who: &Address) -> (r: bool)
        ensures
            r == self.is_participant(*who),
    {
        self.buyer.same(who) || self.seller.same(who)
    }

    /// Whether the escrow is listed for `who`: for its buyer, its seller and
    /// its arbitrator.
    pub open spec fn is_listed_for(self, who: Address) -> bool {
        self.buyer@ == who@ || self.seller@ == who@ || self.arbitrator@ == who@
    }

    /// Whether the escrow is listed for `who`.
    pub fn listed_for(&self, who: &Address) -> (r: bool)
        ensures
            r == self.is_listed_for(*who),
    {
        self.buyer.same(who) || self.seller.same(who) || self.arbitrator.same(who)
    }

    /// The parties under which the escrow is listed: its participants and
    /// its arbitrator.
    pub fn listed_parties(&self) -> (r: Vec<Address>)
        ensures
            r@ == seq![self.buyer, self.seller, self.arbitrator],
            forall|who: Address|
                self.is_listed_for(who) <==> exists|i: int|
                    0 <= i < r@.len() && (#[trigger] r@[i])@ == who@,
    {
        let mut r: Vec<Address> = Vec::new();
        r.push(self.buyer.duplicate());
        r.push(self.seller.duplicate());
        r.push(self.arbitrator.duplicate());
        proof {
            assert(r@ =~= seq![self.buyer, self.seller, self.arbitrator]);
            assert(r@[0] == self.buyer && r@[1] == self.seller && r@[2] == self.arbitrator);
        }
        r
    }

    /// A copy of the record.
    pub fn duplicate(&self) -> (c: Escrow)
        ensures
            c == *self,
    {
        Escrow {
            id: self.id,
            buyer: self.buyer.duplicate(),
            seller: self.seller.duplicate(),
            arbitrator: self.arbitrator.duplicate(),
            token: self.token.duplicate(),
            amount: self.amount,
            description: self.description.clone(),
            status: self.status,
            created_at: self.created_at,
            funded_at: self.funded_at,
            completed_at: self.completed_at,
            disputed_at: self.disputed_at,
            dispute_reason: match &self.dispute_reason {
                Some(text) => Some(text.clone()),
                None => None,
            },
        }
    }

    // ----- creation -----

    /// The record of an escrow created at `now` under `id`.
    pub open spec fn created(
        id: u64,
        buyer: Address,
        seller: Address,
        arbitrator: Address,
        token: Address,
        amount: u128,
        description: String,
        now: u64,
    ) -> Escrow {
        Escrow {
            id,
            buyer,
            seller,
            arbitrator,
            token,
            amount,
            description,
            status: EscrowStatus::Created,
            created_at: now,
            funded_at: None,
            completed_at: None,
            disputed_at: None,
            dispute_reason: None,
        }
    }

    /// Creates the record of a new escrow. `buyer` is the party that
    /// authorized the call.
    pub fn create(
        id: u64,
        buyer: Address,
        seller: Address,
        arbitrator: Address,
        token: Address,
        amount: u128,
        description: String,
        now: u64,
    ) -> (r: Result<Escrow, ContractError>)
        ensures
            match creation_refusal(buyer, seller, arbitrator, amount) {
                Some(e) => r == Err::<Escrow, ContractError>(e),
                None => r == Ok::<Escrow, ContractError>(
                    Escrow::created(id, buyer, seller, arbitrator, token, amount, description, now),
                ),
            },
            r matches Ok(c) ==> c.wf(),
    {
        if amount == 0 {
            return Err(ContractError::InvalidAmount);
        }
        if buyer.same(&seller) || buyer.same(&arbitrator) || seller.same(&arbitrator) {
            return Err(ContractError::InvalidInput);
        }
        Ok(
            Escrow {
                id,
                buyer,
                seller,
                arbitrator,
                token,
                amount,
                description,
                status: EscrowStatus::Created,
                created_at: now,
                funded_at: None,
                completed_at: None,
                disputed_at: None,
                dispute_reason: None,
            },
        )
    }

    // ----- deposit and release -----

    /// What a deposit by `caller` at `now` makes of the escrow.
    pub open spec fn deposit_step(self, caller: Address, now: u64) -> Result<
        (Escrow, Transfer),
        ContractError,
    > {
        if self.buyer@ != caller@ {
            Err(ContractError::BuyerOnly)
        } else if self.status != EscrowStatus::Created {
            Err(ContractError::EscrowAlreadyFunded)
        } else {
            Ok(
                (
                    Escrow { status: EscrowStatus::Funded, funded_at: Some(now), ..self },
                    Transfer::deposit_of(self.buyer, self.token, self.amount),
                ),
            )
        }
    }

    /// The buyer puts the full amount into custody.
    pub fn deposit(&mut self, caller: &Address, now: u64) -> (r: Result<Transfer, ContractError>)
        ensures
            moved(r, *old(self), *final(self), old(self).deposit_step(*caller, now)),
            old(self).wf() ==> final(self).wf(),
    {
        if !self.buyer.same(caller) {
            return Err(ContractError::BuyerOnly);
        }
        if self.status != EscrowStatus::Created {
            return Err(ContractError::EscrowAlreadyFunded);
        }
        let transfer = Transfer::deposit(&self.buyer, &self.token, self.amount);
        self.status = EscrowStatus::Funded;
        self.funded_at = Some(now);
        Ok(transfer)
    }

    /// What the release by `caller` at `now` makes of the escrow.
    pub open spec fn release_funds_step(self, caller: Address, now: u64) -> Result<
        (Escrow, Transfer),
        ContractError,
    > {
        if self.buyer@ != caller@ {
            Err(ContractError::BuyerOnly)
        } else if self.status != EscrowStatus::Funded {
            Err(ContractError::EscrowNotFunded)
        } else {
            Ok(
                (
                    Escrow { status: EscrowStatus::Completed, completed_at: Some(now), ..self },
                    Transfer::payout_of(self.seller, self.token, self.amount),
                ),
            )
        }
    }

    /// The buyer releases the amount to the seller.
    pub fn release_funds(&mut self, caller: &Address, now: u64) -> (r: Result<
        Transfer,
        ContractError,
    >)
        ensures
            moved(r, *old(self), *final(self), old(self).release_funds_step(*caller, now)),
            old(self).wf() ==> final(self).wf(),
    {
        if !self.buyer.same(caller) {
            return Err(ContractError::BuyerOnly);
        }
        if self.status != EscrowStatus::Funded {
            return Err(ContractError::EscrowNotFunded);
        }
        let transfer = Transfer::payout(&self.seller, &self.token, self.amount);
        self.status = EscrowStatus::Completed;
        self.completed_at = Some(now);
        Ok(transfer)
    }

    // ----- dispute and arbitration -----

    /// What the dispute raised by `caller` at `now` makes of the escrow.
    pub open spec fn raise_dispute_step(self, caller: Address, reason: String, now: u64) -> Result<
        Escrow,
        ContractError,
    > {
        if !self.is_participant(caller) {
            Err(ContractError::ParticipantOnly)
        } else if self.status != EscrowStatus::Funded {
            Err(ContractError::EscrowNotFunded)
        } else {
            Ok(
                Escrow {
                    status: EscrowStatus::Disputed,
                    disputed_at: Some(now),
                    dispute_reason: Some(reason),
                    ..self
                },
            )
        }
    }

    /// A participant disputes a funded escrow.
    pub fn raise_dispute(&mut self, caller: &Address, reason: String, now: u64) -> (r: Result<
        (),
        ContractError,
    >)
        ensures
            settled(r, *old(self), *final(self), old(self).raise_dispute_step(*caller, reason, now)),
            old(self).wf() ==> final(self).wf(),
    {
        if !self.participant(caller) {
            return Err(ContractError::ParticipantOnly);
        }
        if self.status != EscrowStatus::Funded {
            return Err(ContractError::EscrowNotFunded);
        }
        self.status = EscrowStatus::Disputed;
        self.disputed_at = Some(now);
        self.dispute_reason = Some(reason);
        Ok(())
    }

    /// What the decision of `caller` at `now` makes of the escrow.
    pub open spec fn arbitrate_step(self, caller: Address, release_to_seller: bool, now: u64) -> Result<
        (Escrow, Transfer),
        ContractError,
    > {
        if self.arbitrator@ != caller@ {
            Err(ContractError::ArbitratorOnly)
        } else if self.status != EscrowStatus::Disputed {
            Err(ContractError::EscrowNotDisputed)
        } else if release_to_seller {
            Ok(
                (
                    Escrow { status: EscrowStatus::Completed, completed_at: Some(now), ..self },
                    Transfer::payout_of(self.seller, self.token, self.amount),
                ),
            )
        } else {
            Ok(
                (
                    Escrow { status: EscrowStatus::Cancelled, completed_at: Some(now), ..self },
                    Transfer::payout_of(self.buyer, self.token, self.amount),
                ),
            )
        }
    }

    /// The arbitrator decides a dispute: the amount goes to the seller, which
    /// completes the escrow, or back to the buyer, which cancels it.
    pub fn arbitrate(&mut self, caller: &Address, release_to_seller: bool, now: u64) -> (r: Result<
        Transfer,
        ContractError,
    >)
        ensures
            moved(
                r,
                *old(self),
                *final(self),
                old(self).arbitrate_step(*caller, release_to_seller, now),
            ),
            old(self).wf() ==> final(self).wf(),
    {
        if !self.arbitrator.same(caller) {
            return Err(ContractError::ArbitratorOnly);
        }
        if self.status != EscrowStatus::Disputed {
            return Err(ContractError::EscrowNotDisputed);
        }
        if release_to_seller {
            let transfer = Transfer::payout(&self.seller, &self.token, self.amount);
            self.status = EscrowStatus::Completed;
            self.completed_at = Some(now);
            Ok(transfer)
        } else {
            let transfer = Transfer::payout(&self.buyer, &self.token, self.amount);
            self.status = EscrowStatus::Cancelled;
            self.completed_at = Some(now);
            Ok(transfer)
        }
    }

    /// What the cancellation by `caller` at `now` makes of the escrow.
    pub open spec fn refund_step(self, caller: Address, now: u64) -> Result<
        (Escrow, Transfer),
        ContractError,
    > {
        if !self.is_participant(caller) {
            Err(ContractError::ParticipantOnly)
        } else if self.status != EscrowStatus::Funded {
            Err(ContractError::OperationNotAllowed)
        } else {
            Ok(
                (
                    Escrow { status: EscrowStatus::Cancelled, completed_at: Some(now), ..self },
                    Transfer::payout_of(self.buyer, self.token, self.amount),
                ),
            )
        }
    }

    /// A participant cancels a funded escrow that is not disputed; the
    /// amount goes back to the buyer.
    pub fn refund(&mut self, caller: &Address, now: u64) -> (r: Result<Transfer, ContractError>)
        ensures
            moved(r, *old(self), *final(self), old(self).refund_step(*caller, now)),
            old(self).wf() ==> final(self).wf(),
    {
        if !self.participant(caller) {
            return Err(ContractError::ParticipantOnly);
        }
        if self.status != EscrowStatus::Funded {
            return Err(ContractError::OperationNotAllowed);
        }
        let transfer = Transfer::payout(&self.buyer, &self.token, self.amount);
        self.status = EscrowStatus::Cancelled;
        self.completed_at = Some(now);
        Ok(transfer)
    }
}

/// The engine: its admin, and every escrow ever created, in the order of
/// creation. Escrow identifiers count from 1.
#[derive(Clone, Debug)]
pub struct EscrowArbitrationContract {
    pub admin: Option<Address>,
    pub escrows: Vec<Escrow>,
}

/// What an operation on the escrow `id` makes of the engine, where `step`
/// says what it makes of that escrow: an unknown identifier is refused, a
/// refused step leaves every escrow as it was, and an accepted step replaces
/// that one escrow and nothing else.
pub open spec fn escrow_moved(
    r: Result<Transfer, ContractError>,
    before: EscrowArbitrationContract,
    after: EscrowArbitrationContract,
    id: u64,
    step: spec_fn(Escrow) -> Result<(Escrow, Transfer), ContractError>,
) -> bool {
    &&& after.admin == before.admin
    &&& match before.lookup(id) {
        None => r == Err::<Transfer, ContractError>(ContractError::EscrowNotFound)
            && after.escrows@ == before.escrows@,
        Some(c) => match step(c) {
            Ok((next, transfer)) => r == Ok::<Transfer, ContractError>(transfer) && after.escrows@
                == before.escrows@.update(id - 1, next),
            Err(e) => r == Err::<Transfer, ContractError>(e) && after.escrows@ == before.escrows@,
        },
    }
}

/// As `escrow_moved`, for an operation that never moves value.
pub open spec fn escrow_settled(
    r: Result<(), ContractError>,
    before: EscrowArbitrationContract,
    after: EscrowArbitrationContract,
    id: u64,
    step: spec_fn(Escrow) -> Result<Escrow, ContractError>,
) -> bool {
    &&& after.admin == before.admin
    &&& match before.lookup(id) {
        None => r == Err::<(), ContractError>(ContractError::EscrowNotFound) && after.escrows@
            == before.escrows@,
        Some(c) => match step(c) {
            Ok(next) => r == Ok::<(), ContractError>(()) && after.escrows@
                == before.escrows@.update(id - 1, next),
            Err(e) => r == Err::<(), ContractError>(e) && after.escrows@ == before.escrows@,
        },
    }
}

impl EscrowArbitrationContract {
    /// Identifiers are dense and every record keeps its invariant.
    pub open spec fn wf(self) -> bool {
        forall|i: int|
            0 <= i < self.escrows@.len() ==> (#[trigger] self.escrows@[i]).id == i + 1
                && self.escrows@[i].wf()
    }

    /// The escrow stored under `id`, if there is one.
    pub open spec fn lookup(self, id: u64) -> Option<Escrow> {
        if 1 <= id <= self.escrows@.len() {
            Some(self.escrows@[id - 1])
        } else {
            None
        }
    }

    /// The identifiers of the first `n` escrows that are listed for `user`,
    /// in the order of creation.
    pub open spec fn listed_upto(self, user: Address, n: nat) -> Seq<u64>
        decreases n,
    {
        if n == 0 {
            Seq::empty()
        } else {
            let before = self.listed_upto(user, (n - 1) as nat);
            let c = self.escrows@[n - 1];
            if c.is_listed_for(user) {
                before.push(c.id)
            } else {
                before
            }
        }
    }

    /// The identifiers of all escrows in which `user` is buyer, seller or
    /// arbitrator.
    pub open spec fn escrows_of(self, user: Address) -> Seq<u64> {
        self.listed_upto(user, self.escrows@.len())
    }

    /// An engine without admin and without escrows.
    pub fn new() -> (s: EscrowArbitrationContract)
        ensures
            s.wf(),
            s.admin is None,
            s.escrows@.len() == 0,
    {
        EscrowArbitrationContract { admin: None, escrows: Vec::new() }
    }

    /// Binds the admin, once. `admin` is the party that authorized the call.
    pub fn initialize(&mut self, admin: Address) -> (r: Result<(), ContractError>)
        ensures
            final(self).escrows == old(self).escrows,
            match old(self).admin {
                Some(_) => r == Err::<(), ContractError>(ContractError::AlreadyInitialized)
                    && final(self).admin == old(self).admin,
                None => r == Ok::<(), ContractError>(()) && final(self).admin == Some(admin),
            },
    {
        if self.admin.is_some() {
            return Err(ContractError::AlreadyInitialized);
        }
        self.admin = Some(admin);
        Ok(())
    }

    /// The position of the escrow `id` among the escrows.
    fn slot(&self, id: u64) -> (r: Option<usize>)
        ensures
            match r {
                Some(i) => self.lookup(id) == Some(self.escrows@[i as int]) && i == id - 1 && i
                    < self.escrows@.len(),
                None => self.lookup(id) is None,
            },
    {
        if id == 0 || id > self.escrows.len() as u64 {
            None
        } else {
            Some((id - 1) as usize)
        }
    }

    /// Creates an escrow under the next identifier and returns it. `buyer`
    /// is the party that authorized the call. An engine that has used up
    /// its identifiers allows no further creation.
    pub fn create_escrow(
        &mut self,
        buyer: Address,
        seller: Address,
        arbitrator: Address,
        token: Address,
        amount: u128,
        description: String,
        now: u64,
    ) -> (r: Result<u64, ContractError>)
        ensures
            old(self).wf() ==> final(self).wf(),
            final(self).admin == old(self).admin,
            match creation_refusal(buyer, seller, arbitrator, amount) {
                Some(e) => r == Err::<u64, ContractError>(e) && final(self).escrows@ == old(self).escrows@,
                None => if old(self).escrows@.len() >= u64::MAX {
                    r == Err::<u64, ContractError>(ContractError::OperationNotAllowed)
                        && final(self).escrows@ == old(self).escrows@
                } else {
                    r == Ok::<u64, ContractError>((old(self).escrows@.len() + 1) as u64)
                        && final(self).escrows@ == old(self).escrows@.push(
                        Escrow::created(
                            (old(self).escrows@.len() + 1) as u64,
                            buyer,
                            seller,
                            arbitrator,
                            token,
                            amount,
                            description,
                            now,
                        ),
                    )
                },
            },
    {
        let count: u64 = self.escrows.len() as u64;
        let id: u64 = if count < u64::MAX { count + 1 } else { count };
        match Escrow::create(id, buyer, seller, arbitrator, token, amount, description, now) {
            Ok(c) => {
                if count == u64::MAX {
                    return Err(ContractError::OperationNotAllowed);
                }
                self.escrows.push(c);
                Ok(id)
            },
            Err(e) => Err(e),
        }
    }

    /// The buyer puts the full amount of escrow `escrow_id` into custody.
    pub fn deposit(
        &mut self,
        escrow_id: u64,
        buyer: &Address,
        now: u64,
    ) -> (r: Result<Transfer, ContractError>)
        ensures
            old(self).wf() ==> final(self).wf(),
            escrow_moved(
                r,
                *old(self),
                *final(self),
                escrow_id,
                |c: Escrow| c.deposit_step(*buyer, now),
            ),
    {
        match self.slot(escrow_id) {
            None => Err(ContractError::EscrowNotFound),
            Some(i) => {
                let r = self.escrows[i].deposit(buyer, now);
                proof {
                    replaced_at(old(self).escrows@, self.escrows@, i as int);
                }
                r
            },
        }
    }

    /// The buyer releases the amount of escrow `escrow_id` to the seller.
    pub fn release_funds(
        &mut self,
        escrow_id: u64,
        buyer: &Address,
        now: u64,
    ) -> (r: Result<Transfer, ContractError>)
        ensures
            old(self).wf() ==> final(self).wf(),
            escrow_moved(
                r,
                *old(self),
                *final(self),
                escrow_id,
                |c: Escrow| c.release_funds_step(*buyer, now),
            ),
    {
        match self.slot(escrow_id) {
            None => Err(ContractError::EscrowNotFound),
            Some(i) => {
                let r = self.escrows[i].release_funds(buyer, now);
                proof {
                    replaced_at(old(self).escrows@, self.escrows@, i as int);
                }
                r
            },
        }
    }

    /// A participant disputes escrow `escrow_id`.
    pub fn raise_dispute(
        &mut self,
        escrow_id: u64,
        disputer: &Address,
        reason: String,
        now: u64,
    ) -> (r: Result<(), ContractError>)
        ensures
            old(self).wf() ==> final(self).wf(),
            escrow_settled(
                r,
                *old(self),
                *final(self),
                escrow_id,
                |c: Escrow| c.raise_dispute_step(*disputer, reason, now),
            ),
    {
        match self.slot(escrow_id) {
            None => Err(ContractError::EscrowNotFound),
            Some(i) => {
                let r = self.escrows[i].raise_dispute(disputer, reason, now);
                proof {
                    replaced_at(old(self).escrows@, self.escrows@, i as int);
                }
                r
            },
        }
    }

    /// The arbitrator of escrow `escrow_id` decides its dispute.
    pub fn arbitrate(
        &mut self,
        escrow_id: u64,
        arbitrator: &Address,
        release_to_seller: bool,
        now: u64,
    ) -> (r: Result<Transfer, ContractError>)
        ensures
            old(self).wf() ==> final(self).wf(),
            escrow_moved(
                r,
                *old(self),
                *final(self),
                escrow_id,
                |c: Escrow| c.arbitrate_step(*arbitrator, release_to_seller, now),
            ),
    {
        match self.slot(escrow_id) {
            None => Err(ContractError::EscrowNotFound),
            Some(i) => {
                let r = self.escrows[i].arbitrate(arbitrator, release_to_seller, now);
                proof {
                    replaced_at(old(self).escrows@, self.escrows@, i as int);
                }
                r
            },
        }
    }

    /// A participant cancels the funded escrow `escrow_id`.
    pub fn refund(
        &mut self,
        escrow_id: u64,
        requester: &Address,
        now: u64,
    ) -> (r: Result<Transfer, ContractError>)
        ensures
            old(self).wf() ==> final(self).wf(),
            escrow_moved(
                r,
                *old(self),
                *final(self),
                escrow_id,
                |c: Escrow| c.refund_step(*requester, now),
            ),
    {
        match self.slot(escrow_id) {
            None => Err(ContractError::EscrowNotFound),
            Some(i) => {
                let r = self.escrows[i].refund(requester, now);
                proof {
                    replaced_at(old(self).escrows@, self.escrows@, i as int);
                }
                r
            },
        }
    }

    /// The escrow stored under `escrow_id`.
    pub fn get_escrow(&self, escrow_id: u64) -> (r: Result<Escrow, ContractError>)
        ensures
            match self.lookup(escrow_id) {
                Some(c) => r == Ok::<Escrow, ContractError>(c),
                None => r == Err::<Escrow, ContractError>(ContractError::EscrowNotFound),
            },
    {
        match self.slot(escrow_id) {
            None => Err(ContractError::EscrowNotFound),
            Some(i) => Ok(self.escrows[i].duplicate()),
        }
    }

    /// One page of the identifiers of the escrows in which `user` is buyer,
    /// seller or arbitrator, in the order of creation.
    pub fn get_user_escrows(&self, user: &Address, offset: u32, limit: u32) -> (r: Result<
        Vec<u64>,
        ContractError,
    >)
        ensures
            r matches Ok(ids) && ids@ == page_of(self.escrows_of(*user), offset as nat, limit as nat),
    {
        let mut all: Vec<u64> = Vec::new();
        let mut i: usize = 0;
        while i < self.escrows.len()
            invariant
                i <= self.escrows@.len(),
                all@ == self.listed_upto(*user, i as nat),
            decreases self.escrows@.len() - i,
        {
            if self.escrows[i].listed_for(user) {
                all.push(self.escrows[i].id);
            }
            i = i + 1;
        }
        Ok(page(&all, offset, limit))
    }
}

/// Custody is conserved: in every escrow that keeps its invariant, what is
/// held, what was paid to the seller and what was returned to the buyer add
/// up to what the buyer deposited, which is the escrow's total from the
/// deposit on. Every operation keeps the invariant.
pub proof fn custody_is_conserved(c: Escrow)
    requires
        c.wf(),
    ensures
        c.escrowed() + c.released() + c.refunded() == c.deposited(),
        c.funded_at is Some ==> c.escrowed() + c.released() + c.refunded() == c.total(),
{
}

/// An escrow in a terminal status holds nothing.
pub proof fn terminal_holds_nothing(c: Escrow)
    requires
        c.status.is_terminal(),
    ensures
        c.escrowed() == 0,
{
}

/// Custody and status change together: what an accepted step adds to or
/// takes from the amount held is what the transfer that it hands back moves.
pub proof fn custody_follows_transfer(
    c: Escrow,
    next: Escrow,
    transfer: Transfer,
    caller: Address,
    release_to_seller: bool,
    now: u64,
)
    requires
        ({
            let done = Ok::<(Escrow, Transfer), ContractError>((next, transfer));
            ||| c.deposit_step(caller, now) == done
            ||| c.release_funds_step(caller, now) == done
            ||| c.arbitrate_step(caller, release_to_seller, now) == done
            ||| c.refund_step(caller, now) == done
        }),
    ensures
        next.escrowed() == c.escrowed() + transfer.inflow() - transfer.outflow(),
{
}

/// An escrow is funded at most once: whoever tries to deposit into an escrow
/// that has left the status `Created` is refused, the buyer with
/// `EscrowAlreadyFunded`; and the escrow that a deposit leaves behind
/// refuses every further deposit.
pub proof fn funding_happens_once(c: Escrow, caller: Address, now: u64, again: Address, later: u64)
    ensures
        c.status != EscrowStatus::Created ==> c.deposit_step(caller, now) is Err,
        c.status != EscrowStatus::Created && c.buyer@ == caller@ ==> c.deposit_step(caller, now)
            == Err::<(Escrow, Transfer), ContractError>(ContractError::EscrowAlreadyFunded),
        c.deposit_step(caller, now) matches Ok((funded, _)) ==> funded.deposit_step(again, later)
            is Err,
{
}

/// Arbitration is final and moves all that is held: on a disputed escrow the
/// arbitrator's decision for the seller pays the full amount to the seller
/// and completes the escrow, the decision against pays it to the buyer and
/// cancels the escrow. An escrow that is not disputed cannot be arbitrated,
/// so a decided dispute cannot be decided again.
pub proof fn arbitration_is_final(c: Escrow, release_to_seller: bool, now: u64, later: u64)
    requires
        c.amount > 0,
    ensures
        c.status != EscrowStatus::Disputed ==> c.arbitrate_step(c.arbitrator, release_to_seller, now)
            == Err::<(Escrow, Transfer), ContractError>(ContractError::EscrowNotDisputed),
        c.status == EscrowStatus::Disputed ==> (c.arbitrate_step(
            c.arbitrator,
            release_to_seller,
            now,
        ) matches Ok((next, transfer)) && next.escrowed() == 0 && transfer == (Transfer::Payout {
            to: if release_to_seller { c.seller } else { c.buyer },
            asset: c.token,
            amount: c.amount,
        }) && next.status == (if release_to_seller {
            EscrowStatus::Completed
        } else {
            EscrowStatus::Cancelled
        }) && next.arbitrate_step(c.arbitrator, release_to_seller, later) is Err),
{
}

/// A dispute is raised at most once: an escrow that is disputed already
/// refuses a second dispute.
pub proof fn dispute_happens_once(c: Escrow, caller: Address, reason: String, now: u64)
    requires
        c.status == EscrowStatus::Disputed,
    ensures
        c.raise_dispute_step(caller, reason, now) is Err,
{
}

/// Every accepted step keeps the invariant, and so does the creation: an
/// escrow that is created keeps it, and whatever an operation makes of an
/// escrow that keeps it keeps it too. With `custody_is_conserved` this says
/// that custody adds up after every operation that goes through.
pub proof fn every_step_keeps_the_invariant(
    c: Escrow,
    caller: Address,
    reason: String,
    release_to_seller: bool,
    now: u64,
)
    requires
        c.wf(),
    ensures
        c.deposit_step(caller, now) matches Ok((next, _)) ==> next.wf(),
        c.release_funds_step(caller, now) matches Ok((next, _)) ==> next.wf(),
        c.raise_dispute_step(caller, reason, now) matches Ok(next) ==> next.wf(),
        c.arbitrate_step(caller, release_to_seller, now) matches Ok((next, _)) ==> next.wf(),
        c.refund_step(caller, now) matches Ok((next, _)) ==> next.wf(),
        creation_refusal(c.buyer, c.seller, c.arbitrator, c.amount) is None ==> Escrow::created(
            c.id,
            c.buyer,
            c.seller,
            c.arbitrator,
            c.token,
            c.amount,
            c.description,
            now,
        ).wf(),
{
}

} // verus!
