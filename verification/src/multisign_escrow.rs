//! Escrow released by a threshold of approvals: buyer, seller and an
//! optional mediator may each approve once, and the amount is released to
//! the seller as soon as the required number of them has approved. After the
//! deadline the amount may be returned to the buyer instead.

use vstd::prelude::*;
use crate::address::{names, Address};
use crate::approval_marks::{
    copy_marks, count_entries, entry_count, has_mark, mark, marked, new_marks,
};
use crate::custody::{movable, movable_amount, moved, settled, Transfer};

verus! {

/// Where an escrow stands.
#[derive(Clone, Copy, Debug, PartialEq, Eq, Structural)]
pub enum EscrowStatus {
    Initialized,
    Deposited,
    Released,
    Refunded,
}

/// Why an operation is refused.
#[derive(Clone, Copy, Debug, PartialEq, Eq, Structural)]
pub enum EscrowError {
    Unauthorized,
    InvalidAmount,
    InvalidRequiredApprovals,
    InvalidStatus,
    AlreadyApproved,
    NotEnoughApprovals,
    DeadlineNotReached,
    AlreadyInitialized,
}

impl EscrowStatus {
    /// A terminal status admits no further movement of custody.
    pub open spec fn is_terminal(self) -> bool {
        self == EscrowStatus::Released || self == EscrowStatus::Refunded
    }

    /// Whether the status is terminal.
    pub fn terminal(&self) -> (r: bool)
        ensures
            r == self.is_terminal(),
    {
        match self {
            EscrowStatus::Released | EscrowStatus::Refunded => true,
            _ => false,
        }
    }
}

impl EscrowError {
    /// The text that goes with the error.
    pub fn message(&self) -> (r: String)
        ensures
            r@ == (match *self {
                EscrowError::Unauthorized => "Unauthorized operation"@,
                EscrowError::InvalidAmount => "Input data is invalid"@,
                EscrowError::InvalidRequiredApprovals => "Requested resource not found"@,
                EscrowError::InvalidStatus => "This operation is not allowed"@,
                EscrowError::AlreadyApproved => "Arithmetic operation failed"@,
                EscrowError::NotEnoughApprovals => "Already initialized"@,
                EscrowError::DeadlineNotReached => "Dead line not reached"@,
                EscrowError::AlreadyInitialized => "already initilized"@,
            }),
    {
        match self {
            EscrowError::Unauthorized => "Unauthorized operation".to_owned(),
            EscrowError::InvalidAmount => "Input data is invalid".to_owned(),
            EscrowError::InvalidRequiredApprovals => "Requested resource not found".to_owned(),
            EscrowError::InvalidStatus => "This operation is not allowed".to_owned(),
            EscrowError::AlreadyApproved => "Arithmetic operation failed".to_owned(),
            EscrowError::NotEnoughApprovals => "Already initialized".to_owned(),
            EscrowError::DeadlineNotReached => "Dead line not reached".to_owned(),
            EscrowError::AlreadyInitialized => "already initilized".to_owned(),
        }
    }
}

/// The escrow: its parties, its terms, and who has approved so far.
#[derive(Debug, PartialEq, Eq)]
pub struct EscrowState {
    pub buyer: Address,
    pub seller: Address,
    pub mediator: Option<Address>,
    pub asset: Address,
    pub amount: i128,
    /// Who has approved: the buyer is marked at place 0, the seller at 1,
    /// the mediator at 2; a party that holds several places is marked at the
    /// first of them.
    pub approvals: soroban_sdk::Map<u32, bool>,
    pub approved_count: u32,
    pub required_approvals: u32,
    pub status: EscrowStatus,
    pub deadline: u64,
}

/// The mathematical value of an `EscrowState`.
pub struct EscrowStateView {
    pub buyer: Address,
    pub seller: Address,
    pub mediator: Option<Address>,
    pub asset: Address,
    pub amount: i128,
    /// The places that are marked.
    pub approvals: Set<u32>,
    /// How many entries the record of approvals holds.
    pub approval_entries: nat,
    pub approved_count: u32,
    pub required_approvals: u32,
    pub status: EscrowStatus,
    pub deadline: u64,
}

impl Clone for EscrowState {
    fn clone(&self) -> (c: EscrowState)
        ensures
            c@ == self@,
    {
        self.duplicate()
    }
}

impl View for EscrowState {
    type V = EscrowStateView;

    open spec fn view(&self) -> EscrowStateView {
        EscrowStateView {
            buyer: self.buyer,
            seller: self.seller,
            mediator: self.mediator,
            asset: self.asset,
            amount: self.amount,
            approvals: marked(self.approvals),
            approval_entries: entry_count(self.approvals),
            approved_count: self.approved_count,
            required_approvals: self.required_approvals,
            status: self.status,
            deadline: self.deadline,
        }
    }
}

/// How many parties may approve: buyer and seller, and the mediator where
/// there is one, each identity counted once.
pub open spec fn eligible_count(buyer: Address, seller: Address, mediator: Option<Address>) -> u32 {
    let two: u32 = if buyer@ == seller@ { 1 } else { 2 };
    match mediator {
        Some(m) => if m@ == buyer@ || m@ == seller@ { two } else { (two + 1) as u32 },
        None => two,
    }
}

/// Counts the parties that may approve.
pub fn count_eligible(buyer: &Address, seller: &Address, mediator: &Option<Address>) -> (r: u32)
    ensures
        r == eligible_count(*buyer, *seller, *mediator),
        1 <= r <= 3,
{
    let two: u32 = if buyer.same(seller) { 1 } else { 2 };
    match mediator {
        Some(m) => if m.same(buyer) || m.same(seller) { two } else { two + 1 },
        None => two,
    }
}

/// Why an escrow with these terms cannot be set up, if it cannot: the amount
/// is not positive, or more approvals are required than there are parties
/// to give them.
pub open spec fn creation_refusal(
    buyer: Address,
    seller: Address,
    mediator: Option<Address>,
    amount: i128,
    required_approvals: u32,
) -> Option<EscrowError> {
    if amount <= 0 {
        Some(EscrowError::InvalidAmount)
    } else if required_approvals == 0 || required_approvals > eligible_count(
        buyer,
        seller,
        mediator,
    ) {
        Some(EscrowError::InvalidRequiredApprovals)
    } else {
        None
    }
}

/// One where the place is marked, nothing where it is not.
pub open spec fn counted(approvals: Set<u32>, place: u32) -> nat {
    if approvals.contains(place) { 1 } else { 0 }
}

impl EscrowStateView {
    // ----- accounting -----

    /// The amount that the escrow is about.
    pub open spec fn total(self) -> nat {
        movable(self.amount) as nat
    }

    /// What the buyer has put into custody so far.
    pub open spec fn deposited(self) -> nat {
        if self.status == EscrowStatus::Initialized { 0 } else { self.total() }
    }

    /// What is held in custody now.
    pub open spec fn escrowed(self) -> nat {
        if self.status == EscrowStatus::Deposited { self.total() } else { 0 }
    }

    /// What has been paid to the seller.
    pub open spec fn released(self) -> nat {
        if self.status == EscrowStatus::Released { self.total() } else { 0 }
    }

    /// What has been returned to the buyer.
    pub open spec fn refunded(self) -> nat {
        if self.status == EscrowStatus::Refunded { self.total() } else { 0 }
    }

    /// The place at which `who` is marked: the first of the places that it
    /// holds among buyer, seller and mediator.
    pub open spec fn place_of(self, who: Address) -> Option<u32> {
        if self.buyer@ == who@ {
            Some(0u32)
        } else if self.seller@ == who@ {
            Some(1u32)
        } else if names(self.mediator, who) {
            Some(2u32)
        } else {
            None
        }
    }

    /// Whether `who` may approve.
    pub open spec fn is_eligible(self, who: Address) -> bool {
        self.buyer@ == who@ || self.seller@ == who@ || names(self.mediator, who)
    }

    /// Whether `who` has approved.
    pub open spec fn has_approved(self, who: Address) -> bool {
        self.place_of(who) matches Some(place) && self.approvals.contains(place)
    }

    /// Whether a party is marked at the place: the buyer at 0, a seller that
    /// is not the buyer at 1, a mediator that is neither at 2.
    pub open spec fn place_is_used(self, place: u32) -> bool {
        ||| place == 0
        ||| place == 1 && self.seller@ != self.buyer@
        ||| place == 2 && (self.mediator matches Some(m) && m@ != self.buyer@ && m@
            != self.seller@)
    }

    /// Whether enough parties have approved.
    pub open spec fn threshold_met(self) -> bool {
        self.approved_count >= self.required_approvals
    }

    /// The invariant of the escrow: the threshold can be met, every mark
    /// stands for a party that may approve, and the count of approvals is
    /// the number of marks.
    pub open spec fn wf(self) -> bool {
        &&& self.amount > 0
        &&& 1 <= self.required_approvals <= eligible_count(self.buyer, self.seller, self.mediator)
        &&& forall|place: u32| #[trigger] self.approvals.contains(place) ==> self.place_is_used(place)
        &&& self.approved_count == counted(self.approvals, 0) + counted(self.approvals, 1)
            + counted(self.approvals, 2)
        &&& self.approval_entries == self.approved_count
        &&& self.status == EscrowStatus::Initialized ==> self.approved_count == 0
    }

    // ----- creation -----

    /// The escrow as it is set up, with no approval yet.
    pub open spec fn created(
        buyer: Address,
        seller: Address,
        mediator: Option<Address>,
        asset: Address,
        amount: i128,
        required_approvals: u32,
        deadline: u64,
    ) -> EscrowStateView {
        EscrowStateView {
            buyer,
            seller,
            mediator,
            asset,
            amount,
            approvals: Set::empty(),
            approval_entries: 0,
            approved_count: 0,
            required_approvals,
            status: EscrowStatus::Initialized,
            deadline,
        }
    }

    // ----- steps -----

    /// What the deposit by `caller` makes of the escrow.
    pub open spec fn deposit_step(self, caller: Address) -> Result<
        (EscrowStateView, Transfer),
        EscrowError,
    > {
        if self.status != EscrowStatus::Initialized {
            Err(EscrowError::InvalidStatus)
        } else if self.buyer@ != caller@ {
            Err(EscrowError::Unauthorized)
        } else {
            Ok(
                (
                    EscrowStateView { status: EscrowStatus::Deposited, ..self },
                    Transfer::deposit_of(self.buyer, self.asset, movable(self.amount)),
                ),
            )
        }
    }

    /// Whether the record of approvals can take no further approval.
    pub open spec fn is_full(self) -> bool {
        self.approval_entries >= u32::MAX || self.approved_count >= u32::MAX
    }

    /// What the approval by `party` makes of the escrow. An escrow whose
    /// record of approvals is full is in no state to take an approval.
    pub open spec fn approve_step(self, party: Address) -> Result<EscrowStateView, EscrowError> {
        if self.status != EscrowStatus::Deposited {
            Err(EscrowError::InvalidStatus)
        } else {
            match self.place_of(party) {
                None => Err(EscrowError::Unauthorized),
                Some(place) => if self.approvals.contains(place) {
                    Err(EscrowError::AlreadyApproved)
                } else if self.is_full() {
                    Err(EscrowError::InvalidStatus)
                } else {
                    Ok(
                        EscrowStateView {
                            approvals: self.approvals.insert(place),
                            approval_entries: self.approval_entries + 1,
                            approved_count: (self.approved_count + 1) as u32,
                            ..self
                        },
                    )
                },
            }
        }
    }

    /// What the release makes of the escrow.
    pub open spec fn release_step(self) -> Result<(EscrowStateView, Transfer), EscrowError> {
        if self.status != EscrowStatus::Deposited {
            Err(EscrowError::InvalidStatus)
        } else if !self.threshold_met() {
            Err(EscrowError::NotEnoughApprovals)
        } else {
            Ok(
                (
                    EscrowStateView { status: EscrowStatus::Released, ..self },
                    Transfer::payout_of(self.seller, self.asset, movable(self.amount)),
                ),
            )
        }
    }

    /// What the refund at `now` makes of the escrow. Before the deadline the
    /// amount is returned only where the threshold is met.
    pub open spec fn refund_step(self, now: u64) -> Result<(EscrowStateView, Transfer), EscrowError> {
        if self.status != EscrowStatus::Deposited {
            Err(EscrowError::InvalidStatus)
        } else if now < self.deadline && !self.threshold_met() {
            Err(EscrowError::DeadlineNotReached)
        } else {
            Ok(
                (
                    EscrowStateView { status: EscrowStatus::Refunded, ..self },
                    Transfer::payout_of(self.buyer, self.asset, movable(self.amount)),
                ),
            )
        }
    }
}

impl EscrowState {
    /// Sets up an escrow, with its record of approvals in the given
    /// environment.
    pub fn create(
        env: &soroban_sdk::Env,
        buyer: Address,
        seller: Address,
        mediator: Option<Address>,
        asset: Address,
        amount: i128,
        required_approvals: u32,
        deadline: u64,
    ) -> (r: Result<EscrowState, EscrowError>)
        ensures
            match creation_refusal(buyer, seller, mediator, amount, required_approvals) {
                Some(e) => r == Err::<EscrowState, EscrowError>(e),
                None => r matches Ok(s) && s@ == EscrowStateView::created(
                    buyer,
                    seller,
                    mediator,
                    asset,
                    amount,
                    required_approvals,
                    deadline,
                ),
            },
            r matches Ok(s) ==> s@.wf(),
    {
        if amount <= 0 {
            return Err(EscrowError::InvalidAmount);
        }
        let max_possible_approvals: u32 = count_eligible(&buyer, &seller, &mediator);
        if required_approvals == 0 || required_approvals > max_possible_approvals {
            return Err(EscrowError::InvalidRequiredApprovals);
        }
        Ok(
            EscrowState {
                buyer,
                seller,
                mediator,
                asset,
                amount,
                approvals: new_marks(env),
                approved_count: 0,
                required_approvals,
                status: EscrowStatus::Initialized,
                deadline,
            },
        )
    }

    /// Whether `who` may approve.
    pub fn eligible(&self, who: &Address) -> (r: bool)
        ensures
            r == self@.is_eligible(*who),
    {
        self.buyer.same(who) || self.seller.same(who) || match &self.mediator {
            Some(m) => m.same(who),
            None => false,
        }
    }

    /// The place at which `who` is marked, if it may approve.
    pub fn place(&self, who: &Address) -> (r: Option<u32>)
        ensures
            r == self@.place_of(*who),
    {
        if self.buyer.same(who) {
            Some(0)
        } else if self.seller.same(who) {
            Some(1)
        } else {
            match &self.mediator {
                Some(m) => if m.same(who) { Some(2) } else { None },
                None => None,
            }
        }
    }

    /// The party that is marked at the place, if there is one.
    pub fn party_at(&self, place: u32) -> (r: Option<Address>)
        ensures
            match r {
                Some(who) => self@.place_is_used(place) && self@.place_of(who) == Some(place)
                    && (who == self.buyer || who == self.seller || self.mediator == Some(who)),
                None => !self@.place_is_used(place),
            },
    {
        if place == 0 {
            Some(self.buyer.duplicate())
        } else if place == 1 {
            if self.seller.same(&self.buyer) {
                None
            } else {
                Some(self.seller.duplicate())
            }
        } else if place == 2 {
            match &self.mediator {
                Some(m) => if m.same(&self.buyer) || m.same(&self.seller) {
                    None
                } else {
                    Some(m.duplicate())
                },
                None => None,
            }
        } else {
            None
        }
    }

    /// Whether `who` has approved.
    pub fn approved_by(&self, who: &Address) -> (r: bool)
        ensures
            r == self@.has_approved(*who),
    {
        match self.place(who) {
            Some(place) => has_mark(&self.approvals, place),
            None => false,
        }
    }

    /// A copy of the record.
    pub fn duplicate(&self) -> (c: EscrowState)
        ensures
            c@ == self@,
    {
        EscrowState {
            buyer: self.buyer.duplicate(),
            seller: self.seller.duplicate(),
            mediator: match &self.mediator {
                Some(m) => Some(m.duplicate()),
                None => None,
            },
            asset: self.asset.duplicate(),
            amount: self.amount,
            approvals: copy_marks(&self.approvals),
            approved_count: self.approved_count,
            required_approvals: self.required_approvals,
            status: self.status,
            deadline: self.deadline,
        }
    }

    /// The buyer pays the amount into custody. `caller` is the party that
    /// authorized the call.
    pub fn deposit(&mut self, caller: &Address) -> (r: Result<Transfer, EscrowError>)
        ensures
            moved(r, old(self)@, final(self)@, old(self)@.deposit_step(*caller)),
            old(self)@.wf() ==> final(self)@.wf(),
    {
        if self.status != EscrowStatus::Initialized {
            return Err(EscrowError::InvalidStatus);
        }
        if !self.buyer.same(caller) {
            return Err(EscrowError::Unauthorized);
        }
        let transfer = Transfer::deposit(&self.buyer, &self.asset, movable_amount(self.amount));
        self.status = EscrowStatus::Deposited;
        Ok(transfer)
    }

    /// An eligible party approves the release, once. `party` is the party
    /// that authorized the call.
    pub fn approve(&mut self, party: &Address) -> (r: Result<(), EscrowError>)
        ensures
            settled(r, old(self)@, final(self)@, old(self)@.approve_step(*party)),
            old(self)@.wf() ==> final(self)@.wf(),
    {
        if self.status != EscrowStatus::Deposited {
            return Err(EscrowError::InvalidStatus);
        }
        let place = match self.place(party) {
            Some(place) => place,
            None => {
                return Err(EscrowError::Unauthorized);
            },
        };
        if has_mark(&self.approvals, place) {
            return Err(EscrowError::AlreadyApproved);
        }
        if count_entries(&self.approvals) == u32::MAX || self.approved_count == u32::MAX {
            return Err(EscrowError::InvalidStatus);
        }
        mark(&mut self.approvals, place);
        self.approved_count = self.approved_count + 1;
        Ok(())
    }

    /// Pays the amount to the seller once the threshold is met. Anyone may
    /// call this.
    pub fn release(&mut self) -> (r: Result<Transfer, EscrowError>)
        ensures
            moved(r, old(self)@, final(self)@, old(self)@.release_step()),
            old(self)@.wf() ==> final(self)@.wf(),
    {
        if self.status != EscrowStatus::Deposited {
            return Err(EscrowError::InvalidStatus);
        }
        if self.approved_count < self.required_approvals {
            return Err(EscrowError::NotEnoughApprovals);
        }
        let transfer = Transfer::payout(&self.seller, &self.asset, movable_amount(self.amount));
        self.status = EscrowStatus::Released;
        Ok(transfer)
    }

    /// Returns the amount to the buyer: from the deadline on, or before it
    /// where the threshold is met. Anyone may call this.
    pub fn refund(&mut self, now: u64) -> (r: Result<Transfer, EscrowError>)
        ensures
            moved(r, old(self)@, final(self)@, old(self)@.refund_step(now)),
            old(self)@.wf() ==> final(self)@.wf(),
    {
        if self.status != EscrowStatus::Deposited {
            return Err(EscrowError::InvalidStatus);
        }
        if now < self.deadline && self.approved_count < self.required_approvals {
            return Err(EscrowError::DeadlineNotReached);
        }
        let transfer = Transfer::payout(&self.buyer, &self.asset, movable_amount(self.amount));
        self.status = EscrowStatus::Refunded;
        Ok(transfer)
    }
}

/// The engine: at most one escrow, set up once.
#[derive(Clone, Debug)]
pub struct EscrowContract {
    pub state: Option<EscrowState>,
}

/// What an operation makes of the engine, where `step` says what it makes of
/// the escrow: without an escrow it is refused, a refused step leaves the
/// escrow as it was, and an accepted step replaces it.
pub open spec fn escrow_moved(
    r: Result<Transfer, EscrowError>,
    before: EscrowContract,
    after: EscrowContract,
    step: spec_fn(EscrowStateView) -> Result<(EscrowStateView, Transfer), EscrowError>,
) -> bool {
    match before.current() {
        None => r == Err::<Transfer, EscrowError>(EscrowError::InvalidStatus) && after.current()
            is None,
        Some(s) => match step(s) {
            Ok((next, transfer)) => r == Ok::<Transfer, EscrowError>(transfer) && after.current()
                == Some(next),
            Err(e) => r == Err::<Transfer, EscrowError>(e) && after.current() == before.current(),
        },
    }
}

impl EscrowContract {
    /// The escrow as a mathematical value, if one is set up.
    pub open spec fn current(self) -> Option<EscrowStateView> {
        match self.state {
            Some(s) => Some(s@),
            None => None,
        }
    }

    /// The escrow, where there is one, keeps its invariant.
    pub open spec fn wf(self) -> bool {
        self.current() matches Some(s) ==> s.wf()
    }

    /// An engine without escrow.
    pub fn new() -> (s: EscrowContract)
        ensures
            s.wf(),
            s.current() is None,
    {
        EscrowContract { state: None }
    }

    /// Sets up the escrow, once, with its record of approvals in the given
    /// environment.
    pub fn initialize(
        &mut self,
        env: &soroban_sdk::Env,
        buyer: Address,
        seller: Address,
        mediator: Option<Address>,
        asset: Address,
        amount: i128,
        required_approvals: u32,
        deadline: u64,
    ) -> (r: Result<(), EscrowError>)
        ensures
            old(self).wf() ==> final(self).wf(),
            if old(self).current() is Some {
                r == Err::<(), EscrowError>(EscrowError::AlreadyInitialized) && final(self).current()
                    == old(self).current()
            } else {
                match creation_refusal(buyer, seller, mediator, amount, required_approvals) {
                    Some(e) => r == Err::<(), EscrowError>(e) && final(self).current() is None,
                    None => r == Ok::<(), EscrowError>(()) && final(self).current() == Some(
                        EscrowStateView::created(
                            buyer,
                            seller,
                            mediator,
                            asset,
                            amount,
                            required_approvals,
                            deadline,
                        ),
                    ),
                }
            },
    {
        if self.state.is_some() {
            return Err(EscrowError::AlreadyInitialized);
        }
        match EscrowState::create(
            env,
            buyer,
            seller,
            mediator,
            asset,
            amount,
            required_approvals,
            deadline,
        ) {
            Ok(s) => {
                self.state = Some(s);
                Ok(())
            },
            Err(e) => Err(e),
        }
    }

    /// The buyer pays the amount into custody. `caller` is the party that
    /// authorized the call.
    pub fn deposit(&mut self, caller: &Address) -> (r: Result<Transfer, EscrowError>)
        ensures
            escrow_moved(
                r,
                *old(self),
                *final(self),
                |s: EscrowStateView| s.deposit_step(*caller),
            ),
            old(self).wf() ==> final(self).wf(),
    {
        match &mut self.state {
            None => Err(EscrowError::InvalidStatus),
            Some(s) => s.deposit(caller),
        }
    }

    /// An eligible party approves the release, once. `party` is the party
    /// that authorized the call.
    pub fn approve(&mut self, party: &Address) -> (r: Result<(), EscrowError>)
        ensures
            old(self).wf() ==> final(self).wf(),
            match old(self).current() {
                None => r == Err::<(), EscrowError>(EscrowError::InvalidStatus)
                    && final(self).current() is None,
                Some(s) => match s.approve_step(*party) {
                    Ok(next) => r == Ok::<(), EscrowError>(()) && final(self).current() == Some(next),
                    Err(e) => r == Err::<(), EscrowError>(e) && final(self).current() == old(self).current(),
                },
            },
    {
        match &mut self.state {
            None => Err(EscrowError::InvalidStatus),
            Some(s) => s.approve(party),
        }
    }

    /// Pays the amount to the seller once the threshold is met. Anyone may
    /// call this.
    pub fn release(&mut self) -> (r: Result<Transfer, EscrowError>)
        ensures
            escrow_moved(r, *old(self), *final(self), |s: EscrowStateView| s.release_step()),
            old(self).wf() ==> final(self).wf(),
    {
        match &mut self.state {
            None => Err(EscrowError::InvalidStatus),
            Some(s) => s.release(),
        }
    }

    /// Returns the amount to the buyer: from the deadline on, or before it
    /// where the threshold is met. Anyone may call this.
    pub fn refund(&mut self, now: u64) -> (r: Result<Transfer, EscrowError>)
        ensures
            escrow_moved(r, *old(self), *final(self), |s: EscrowStateView| s.refund_step(now)),
            old(self).wf() ==> final(self).wf(),
    {
        match &mut self.state {
            None => Err(EscrowError::InvalidStatus),
            Some(s) => s.refund(now),
        }
    }

    /// The escrow as it stands.
    pub fn get_state(&self) -> (r: Result<EscrowState, EscrowError>)
        ensures
            match self.current() {
                Some(s) => r matches Ok(c) && c@ == s,
                None => r == Err::<EscrowState, EscrowError>(EscrowError::InvalidStatus),
            },
    {
        match &self.state {
            Some(s) => Ok(s.duplicate()),
            None => Err(EscrowError::InvalidStatus),
        }
    }
}

/// Custody is conserved: what is held, what was paid to the seller and what
/// was returned to the buyer add up to what the buyer deposited, which is
/// the escrow's amount from the deposit on.
pub proof fn custody_is_conserved(s: EscrowStateView)
    ensures
        s.escrowed() + s.released() + s.refunded() == s.deposited(),
        s.status != EscrowStatus::Initialized ==> s.escrowed() + s.released() + s.refunded()
            == s.total(),
        s.wf() ==> s.total() == s.amount,
{
}

/// An escrow in a terminal status holds nothing.
pub proof fn terminal_holds_nothing(s: EscrowStateView)
    requires
        s.status.is_terminal(),
    ensures
        s.escrowed() == 0,
{
}

/// The deposit happens once: an escrow that has left the status
/// `Initialized` refuses every deposit as out of place, and no transfer
/// comes of it.
pub proof fn funding_happens_once(s: EscrowStateView, caller: Address, again: Address)
    ensures
        s.status != EscrowStatus::Initialized ==> s.deposit_step(caller) == Err::<
            (EscrowStateView, Transfer),
            EscrowError,
        >(EscrowError::InvalidStatus),
        s.deposit_step(caller) matches Ok((funded, _)) ==> funded.deposit_step(again) is Err,
{
}

/// Every party approves once: the escrow that an approval leaves behind
/// refuses a second approval by the same party with `AlreadyApproved`, counts
/// one approval more than before, and knows the party as one that has
/// approved.
pub proof fn approval_counts_once(s: EscrowStateView, party: Address)
    requires
        s.wf(),
        s.approve_step(party) is Ok,
    ensures
        s.approve_step(party)->Ok_0.approve_step(party) == Err::<EscrowStateView, EscrowError>(
            EscrowError::AlreadyApproved,
        ),
        s.approve_step(party)->Ok_0.approved_count == s.approved_count + 1,
        !s.has_approved(party),
        s.approve_step(party)->Ok_0.has_approved(party),
        s.approve_step(party)->Ok_0.wf(),
{
}

/// The approvals never outnumber the parties: in an escrow that keeps its
/// invariant the count of approvals is at most the number of parties that
/// may approve, so the record of approvals is never full, and a party that
/// may approve and has not done so is never turned away while the escrow
/// holds its deposit.
pub proof fn approvals_stay_within_the_parties(s: EscrowStateView, party: Address)
    requires
        s.wf(),
    ensures
        s.approved_count <= eligible_count(s.buyer, s.seller, s.mediator) <= 3,
        !s.is_full(),
        s.place_of(party) is Some <==> s.is_eligible(party),
        s.status == EscrowStatus::Deposited && s.is_eligible(party) && !s.has_approved(party)
            ==> s.approve_step(party) is Ok,
{
    assert(s.approvals.contains(1u32) ==> s.place_is_used(1u32));
    assert(s.approvals.contains(2u32) ==> s.place_is_used(2u32));
}

/// The release waits for the threshold: on an escrow that holds its
/// deposit, the release goes through exactly when the approvals have
/// reached the required number, and then pays the full amount to the
/// seller; in no status does it go through with fewer approvals.
pub proof fn release_needs_the_threshold(s: EscrowStateView)
    ensures
        s.status == EscrowStatus::Deposited ==> (s.release_step() is Ok <==> s.approved_count
            >= s.required_approvals),
        s.status == EscrowStatus::Deposited && s.approved_count < s.required_approvals
            ==> s.release_step() == Err::<(EscrowStateView, Transfer), EscrowError>(
            EscrowError::NotEnoughApprovals,
        ),
        s.release_step() is Ok ==> s.approved_count >= s.required_approvals,
        s.release_step() matches Ok((next, transfer)) ==> next.status == EscrowStatus::Released
            && transfer == Transfer::payout_of(s.seller, s.asset, movable(s.amount))
            && next.escrowed() == 0,
{
}

/// Custody and status change together: what an accepted step adds to or
/// takes from the amount held is what the transfer that it hands back moves.
pub proof fn custody_follows_transfer(
    s: EscrowStateView,
    next: EscrowStateView,
    transfer: Transfer,
    caller: Address,
    now: u64,
)
    requires
        ({
            let done = Ok::<(EscrowStateView, Transfer), EscrowError>((next, transfer));
            ||| s.deposit_step(caller) == done
            ||| s.release_step() == done
            ||| s.refund_step(now) == done
        }),
    ensures
        next.escrowed() == s.escrowed() + transfer.inflow() - transfer.outflow(),
{
}

/// Every accepted step keeps the invariant, and so does the setup.
pub proof fn every_step_keeps_the_invariant(s: EscrowStateView, caller: Address, now: u64)
    requires
        s.wf(),
    ensures
        s.deposit_step(caller) matches Ok((next, _)) ==> next.wf(),
        s.approve_step(caller) matches Ok(next) ==> next.wf(),
        s.release_step() matches Ok((next, _)) ==> next.wf(),
        s.refund_step(now) matches Ok((next, _)) ==> next.wf(),
        creation_refusal(s.buyer, s.seller, s.mediator, s.amount, s.required_approvals) is None
            ==> EscrowStateView::created(
            s.buyer,
            s.seller,
            s.mediator,
            s.asset,
            s.amount,
            s.required_approvals,
            s.deadline,
        ).wf(),
{
}

} // verus!
