//! Payment by milestones: the buyer funds the whole amount, the seller
//! completes the milestones one by one, and every milestone that the buyer
//! approves pays its share to the seller. A completed milestone may be
//! disputed, and the admin decides the dispute.

use vstd::prelude::*;
use crate::address::{names, Address};
use crate::custody::{moved, replaced_at, settled, Transfer};
use crate::paging::{page, page_of};

verus! {

/// Why an operation is refused.
#[derive(Clone, Copy, Debug, PartialEq, Eq, Structural)]
pub enum ContractError {
    AlreadyInitialized,
    NotInitialized,
    Unauthorized,
    AdminOnly,
    BuyerOnly,
    SellerOnly,
    ParticipantOnly,
    ContractNotFound,
    ContractAlreadyFunded,
    ContractNotFunded,
    ContractCancelled,
    ContractCompleted,
    MilestoneNotFound,
    MilestoneAlreadyCompleted,
    MilestoneNotCompleted,
    MilestoneDisputed,
    MilestoneNotDisputed,
    InvalidMilestoneData,
    InsufficientBalance,
    TransferFailed,
    InvalidAmount,
    TotalAmountMismatch,
    InvalidInput,
    DataNotFound,
    OperationNotAllowed,
}

/// Where a contract stands.
#[derive(Clone, Copy, Debug, PartialEq, Eq, Structural)]
pub enum ContractStatus {
    Created,
    Funded,
    Active,
    Completed,
    Cancelled,
}

/// Where a milestone stands.
#[derive(Clone, Copy, Debug, PartialEq, Eq, Structural)]
pub enum MilestoneStatus {
    Pending,
    Completed,
    Approved,
    Disputed,
    Resolved,
}

impl ContractStatus {
    /// A terminal status admits no further movement of custody.
    pub open spec fn is_terminal(self) -> bool {
        self == ContractStatus::Completed || self == ContractStatus::Cancelled
    }

    /// Whether the status is terminal.
    pub fn terminal(&self) -> (r: bool)
        ensures
            r == self.is_terminal(),
    {
        match self {
            ContractStatus::Completed | ContractStatus::Cancelled => true,
            _ => false,
        }
    }
}

/// What a milestone is to be, as given at creation.
#[derive(Clone, Debug, PartialEq, Eq)]
pub struct MilestoneData {
    pub description: String,
    pub amount: u128,
    pub release_criteria: String,
}

/// One milestone of a contract. Its identifier is its position among the
/// milestones of the contract, counted from 0.
#[derive(Clone, Debug, PartialEq, Eq)]
pub struct Milestone {
    pub id: u32,
    pub description: String,
    pub amount: u128,
    pub release_criteria: String,
    pub status: MilestoneStatus,
    pub completed_at: Option<u64>,
    pub approved_at: Option<u64>,
    pub dispute_reason: Option<String>,
    pub disputed_at: Option<u64>,
}

/// The terms and the accounts of a contract.
#[derive(Clone, Debug, PartialEq, Eq)]
pub struct Contract {
    pub id: u64,
    pub buyer: Address,
    pub seller: Address,
    pub token: Address,
    pub total_amount: u128,
    pub escrowed_amount: u128,
    pub released_amount: u128,
    pub status: ContractStatus,
    pub created_at: u64,
    pub funded_at: Option<u64>,
    pub completed_at: Option<u64>,
    pub cancelled_at: Option<u64>,
    pub milestone_count: u32,
}

/// A contract together with the milestones that it owns.
#[derive(Clone, Debug, PartialEq, Eq)]
pub struct Agreement {
    pub contract: Contract,
    pub milestones: Vec<Milestone>,
}

/// The mathematical value of an `Agreement`.
pub struct AgreementView {
    pub contract: Contract,
    pub milestones: Seq<Milestone>,
}

impl View for Agreement {
    type V = AgreementView;

    open spec fn view(&self) -> AgreementView {
        AgreementView { contract: self.contract, milestones: self.milestones@ }
    }
}

// ----- sums over milestones -----

/// The sum of the amounts of the first `n` entries.
pub open spec fn planned_sum(data: Seq<MilestoneData>, n: nat) -> nat
    decreases n,
{
    if n == 0 {
        0
    } else {
        planned_sum(data, (n - 1) as nat) + data[n - 1].amount as nat
    }
}

/// The sum of the amounts of the first `n` milestones.
pub open spec fn amount_sum(milestones: Seq<Milestone>, n: nat) -> nat
    decreases n,
{
    if n == 0 {
        0
    } else {
        amount_sum(milestones, (n - 1) as nat) + milestones[n - 1].amount as nat
    }
}

/// The sum of the amounts of the approved ones among the first `n`
/// milestones.
pub open spec fn approved_sum(milestones: Seq<Milestone>, n: nat) -> nat
    decreases n,
{
    if n == 0 {
        0
    } else {
        approved_sum(milestones, (n - 1) as nat) + if milestones[n - 1].status
            == MilestoneStatus::Approved {
            milestones[n - 1].amount as nat
        } else {
            0
        }
    }
}

/// The sum of the amounts of those among the first `n` milestones whose
/// dispute was decided for the buyer.
pub open spec fn resolved_sum(milestones: Seq<Milestone>, n: nat) -> nat
    decreases n,
{
    if n == 0 {
        0
    } else {
        resolved_sum(milestones, (n - 1) as nat) + if milestones[n - 1].status
            == MilestoneStatus::Resolved {
            milestones[n - 1].amount as nat
        } else {
            0
        }
    }
}

/// Whether every one of the first `n` milestones is approved.
pub open spec fn all_approved(milestones: Seq<Milestone>, n: nat) -> bool {
    forall|i: int| 0 <= i < n ==> (#[trigger] milestones[i]).status == MilestoneStatus::Approved
}

proof fn planned_sum_grows(data: Seq<MilestoneData>, n: nat, m: nat)
    requires
        n <= m,
    ensures
        planned_sum(data, n) <= planned_sum(data, m),
    decreases m,
{
    if n < m {
        planned_sum_grows(data, n, (m - 1) as nat);
    }
}

/// The approved and the resolved amounts are part of all amounts; a
/// milestone that is neither approved nor resolved leaves room for its own
/// amount.
proof fn approved_sum_is_bounded(milestones: Seq<Milestone>, n: nat)
    ensures
        approved_sum(milestones, n) + resolved_sum(milestones, n) <= amount_sum(milestones, n),
        forall|i: int|
            0 <= i < n && (#[trigger] milestones[i]).status != MilestoneStatus::Approved
                && milestones[i].status != MilestoneStatus::Resolved ==> approved_sum(
                milestones,
                n,
            ) + resolved_sum(milestones, n) + milestones[i].amount <= amount_sum(milestones, n),
    decreases n,
{
    if n > 0 {
        approved_sum_is_bounded(milestones, (n - 1) as nat);
    }
}

proof fn approved_sum_of_all_approved(milestones: Seq<Milestone>, n: nat)
    requires
        all_approved(milestones, n),
    ensures
        approved_sum(milestones, n) == amount_sum(milestones, n),
        resolved_sum(milestones, n) == 0,
    decreases n,
{
    if n > 0 {
        approved_sum_of_all_approved(milestones, (n - 1) as nat);
    }
}

/// What replacing the milestone at `at` does to the sums, where the
/// replacement keeps the amount.
proof fn sums_after_update(milestones: Seq<Milestone>, at: int, next: Milestone, n: nat)
    requires
        0 <= at < milestones.len(),
        n <= milestones.len(),
        next.amount == milestones[at].amount,
    ensures
        amount_sum(milestones.update(at, next), n) == amount_sum(milestones, n),
        approved_sum(milestones.update(at, next), n) == approved_sum(milestones, n) + (if at < n
            && next.status == MilestoneStatus::Approved {
            next.amount as int
        } else {
            0
        }) - (if at < n && milestones[at].status == MilestoneStatus::Approved {
            next.amount as int
        } else {
            0
        }),
        resolved_sum(milestones.update(at, next), n) == resolved_sum(milestones, n) + (if at < n
            && next.status == MilestoneStatus::Resolved {
            next.amount as int
        } else {
            0
        }) - (if at < n && milestones[at].status == MilestoneStatus::Resolved {
            next.amount as int
        } else {
            0
        }),
    decreases n,
{
    if n > 0 {
        sums_after_update(milestones, at, next, (n - 1) as nat);
    }
}

// ----- validation -----

/// Whether one of the milestones is worth nothing.
pub open spec fn has_zero_amount(data: Seq<MilestoneData>) -> bool {
    exists|i: int| 0 <= i < data.len() && (#[trigger] data[i]).amount == 0
}

/// Why these milestones cannot make up a contract over `total_amount`, if
/// they cannot: one of them is worth nothing, or their sum cannot be
/// represented; their sum is not the total, which holds of the empty list
/// whenever the total is positive; or there is none of them, or more than
/// can be numbered.
pub open spec fn milestones_refusal(data: Seq<MilestoneData>, total_amount: u128) -> Option<
    ContractError,
> {
    if has_zero_amount(data) || planned_sum(data, data.len()) > u128::MAX {
        Some(ContractError::InvalidAmount)
    } else if planned_sum(data, data.len()) != total_amount {
        Some(ContractError::TotalAmountMismatch)
    } else if data.len() == 0 || data.len() > u32::MAX {
        Some(ContractError::InvalidMilestoneData)
    } else {
        None
    }
}

/// Why a contract with these terms cannot be created, if it cannot.
pub open spec fn creation_refusal(
    buyer: Address,
    seller: Address,
    total_amount: u128,
    data: Seq<MilestoneData>,
) -> Option<ContractError> {
    if total_amount == 0 {
        Some(ContractError::InvalidAmount)
    } else if buyer@ == seller@ {
        Some(ContractError::InvalidInput)
    } else {
        milestones_refusal(data, total_amount)
    }
}

/// Checks that the milestones make up a contract over `total_amount`.
pub fn validate_milestones(milestones: &Vec<MilestoneData>, total_amount: u128) -> (r: Result<
    (),
    ContractError,
>)
    ensures
        match milestones_refusal(milestones@, total_amount) {
            Some(e) => r == Err::<(), ContractError>(e),
            None => r == Ok::<(), ContractError>(()),
        },
{
    let mut sum: u128 = 0;
    let mut i: usize = 0;
    while i < milestones.len()
        invariant
            i <= milestones@.len(),
            sum == planned_sum(milestones@, i as nat),
            forall|j: int| 0 <= j < i ==> (#[trigger] milestones@[j]).amount != 0,
        decreases milestones@.len() - i,
    {
        let amount = milestones[i].amount;
        if amount == 0 {
            assert(milestones@[i as int].amount == 0);
            return Err(ContractError::InvalidAmount);
        }
        assert(planned_sum(milestones@, (i + 1) as nat) == sum + amount);
        match sum.checked_add(amount) {
            Some(next) => {
                sum = next;
            },
            None => {
                proof {
                    planned_sum_grows(milestones@, (i + 1) as nat, milestones@.len());
                }
                return Err(ContractError::InvalidAmount);
            },
        }
        i = i + 1;
    }
    assert(!has_zero_amount(milestones@));
    if sum != total_amount {
        return Err(ContractError::TotalAmountMismatch);
    }
    if milestones.len() == 0 || milestones.len() > u32::MAX as usize {
        return Err(ContractError::InvalidMilestoneData);
    }
    Ok(())
}

impl Milestone {
    /// The milestone number `id` as planned by `data`, with nothing done yet.
    pub open spec fn planned(id: u32, data: MilestoneData) -> Milestone {
        Milestone {
            id,
            description: data.description,
            amount: data.amount,
            release_criteria: data.release_criteria,
            status: MilestoneStatus::Pending,
            completed_at: None,
            approved_at: None,
            dispute_reason: None,
            disputed_at: None,
        }
    }

    /// A copy of the milestone.
    pub fn duplicate(&self) -> (m: Milestone)
        ensures
            m == *self,
    {
        Milestone {
            id: self.id,
            description: self.description.clone(),
            amount: self.amount,
            release_criteria: self.release_criteria.clone(),
            status: self.status,
            completed_at: self.completed_at,
            approved_at: self.approved_at,
            dispute_reason: match &self.dispute_reason {
                Some(text) => Some(text.clone()),
                None => None,
            },
            disputed_at: self.disputed_at,
        }
    }
}

impl Contract {
    /// Buyer and seller are the participants.
    pub open spec fn is_participant(self, who: Address) -> bool {
        self.buyer@ == who@ || self.seller@ == who@
    }

    /// Whether `who` is the buyer or the seller.
    pub fn participant(&self, who: &Address) -> (r: bool)
        ensures
            r == self.is_participant(*who),
    {
        self.buyer.same(who) || self.seller.same(who)
    }

    /// The parties under which the contract is listed: its participants.
    pub fn listed_parties(&self) -> (r: Vec<Address>)
        ensures
            r@ == seq![self.buyer, self.seller],
            forall|who: Address|
                self.is_participant(who) <==> exists|i: int|
                    0 <= i < r@.len() && (#[trigger] r@[i])@ == who@,
    {
        let mut r: Vec<Address> = Vec::new();
        r.push(self.buyer.duplicate());
        r.push(self.seller.duplicate());
        proof {
            assert(r@ =~= seq![self.buyer, self.seller]);
            assert(r@[0] == self.buyer && r@[1] == self.seller);
        }
        r
    }

    /// A copy of the record.
    pub fn duplicate(&self) -> (c: Contract)
        ensures
            c == *self,
    {
        Contract {
            id: self.id,
            buyer: self.buyer.duplicate(),
            seller: self.seller.duplicate(),
            token: self.token.duplicate(),
            total_amount: self.total_amount,
            escrowed_amount: self.escrowed_amount,
            released_amount: self.released_amount,
            status: self.status,
            created_at: self.created_at,
            funded_at: self.funded_at,
            completed_at: self.completed_at,
            cancelled_at: self.cancelled_at,
            milestone_count: self.milestone_count,
        }
    }
}

impl AgreementView {
    // ----- accounting -----

    /// The amount that the contract is about.
    pub open spec fn total(self) -> nat {
        self.contract.total_amount as nat
    }

    /// What the buyer has put into custody so far.
    pub open spec fn deposited(self) -> nat {
        if self.contract.funded_at is Some { self.contract.total_amount as nat } else { 0 }
    }

    /// What is held in custody now.
    pub open spec fn escrowed(self) -> nat {
        self.contract.escrowed_amount as nat
    }

    /// What has been paid to the seller.
    pub open spec fn released(self) -> nat {
        self.contract.released_amount as nat
    }

    /// What has been returned to the buyer: the amounts of the milestones
    /// whose dispute was decided for the buyer and, on cancellation, all
    /// else that was deposited and not released before.
    pub open spec fn refunded(self) -> nat {
        if self.contract.status == ContractStatus::Cancelled && self.deposited() >= self.released() {
            (self.deposited() - self.released()) as nat
        } else {
            resolved_sum(self.milestones, self.milestones.len())
        }
    }

    /// The invariant of a contract with its milestones: the milestones are
    /// numbered by position, each is worth something, their amounts sum to
    /// the total, the released amount is the sum of the approved ones, and
    /// what is held is what was deposited and neither released nor returned.
    pub open spec fn wf(self) -> bool {
        let c = self.contract;
        let ms = self.milestones;
        &&& c.total_amount > 0
        &&& c.buyer@ != c.seller@
        &&& 0 < ms.len() == c.milestone_count
        &&& forall|i: int| 0 <= i < ms.len() ==> (#[trigger] ms[i]).id == i && ms[i].amount > 0
        &&& amount_sum(ms, ms.len()) == c.total_amount
        &&& approved_sum(ms, ms.len()) == c.released_amount
        &&& c.status != ContractStatus::Active
        &&& c.status == ContractStatus::Created ==> c.funded_at is None
        &&& (c.status == ContractStatus::Funded || c.status == ContractStatus::Completed)
            ==> c.funded_at is Some
        &&& c.released_amount + resolved_sum(ms, ms.len()) <= self.deposited()
        &&& c.escrowed_amount == if c.status == ContractStatus::Cancelled {
            0
        } else {
            self.deposited() - c.released_amount - resolved_sum(ms, ms.len())
        }
        &&& c.status == ContractStatus::Completed ==> c.released_amount == c.total_amount
    }

    /// The milestone number `id`, if there is one.
    pub open spec fn milestone(self, id: u32) -> Option<Milestone> {
        if id < self.milestones.len() {
            Some(self.milestones[id as int])
        } else {
            None
        }
    }

    // ----- creation -----

    /// The contract created at `now` under `id`, with its milestones as
    /// planned.
    pub open spec fn created(
        id: u64,
        buyer: Address,
        seller: Address,
        token: Address,
        total_amount: u128,
        data: Seq<MilestoneData>,
        now: u64,
    ) -> AgreementView {
        AgreementView {
            contract: Contract {
                id,
                buyer,
                seller,
                token,
                total_amount,
                escrowed_amount: 0,
                released_amount: 0,
                status: ContractStatus::Created,
                created_at: now,
                funded_at: None,
                completed_at: None,
                cancelled_at: None,
                milestone_count: data.len() as u32,
            },
            milestones: Seq::new(data.len(), |i: int| Milestone::planned(i as u32, data[i])),
        }
    }

    // ----- steps -----

    /// What funding by `caller` at `now` makes of the contract.
    pub open spec fn fund_step(self, caller: Address, now: u64) -> Result<
        (AgreementView, Transfer),
        ContractError,
    > {
        let c = self.contract;
        if c.buyer@ != caller@ {
            Err(ContractError::BuyerOnly)
        } else if c.status != ContractStatus::Created {
            Err(ContractError::ContractAlreadyFunded)
        } else {
            Ok(
                (
                    AgreementView {
                        contract: Contract {
                            escrowed_amount: c.total_amount,
                            status: ContractStatus::Funded,
                            funded_at: Some(now),
                            ..c
                        },
                        ..self
                    },
                    Transfer::deposit_of(c.buyer, c.token, c.total_amount),
                ),
            )
        }
    }

    /// What the completion of a milestone reported by `caller` at `now` makes
    /// of the contract.
    pub open spec fn complete_milestone_step(self, milestone_id: u32, caller: Address, now: u64) -> Result<
        AgreementView,
        ContractError,
    > {
        let c = self.contract;
        if c.status != ContractStatus::Funded {
            Err(ContractError::ContractNotFunded)
        } else if c.seller@ != caller@ {
            Err(ContractError::SellerOnly)
        } else {
            match self.milestone(milestone_id) {
                None => Err(ContractError::MilestoneNotFound),
                Some(m) => if m.status != MilestoneStatus::Pending {
                    Err(ContractError::MilestoneAlreadyCompleted)
                } else {
                    Ok(
                        AgreementView {
                            milestones: self.milestones.update(
                                milestone_id as int,
                                Milestone {
                                    status: MilestoneStatus::Completed,
                                    completed_at: Some(now),
                                    ..m
                                },
                            ),
                            ..self
                        },
                    )
                },
            }
        }
    }

    /// What the release of the existing milestone `milestone_id` at `now`
    /// makes of the contract: the milestone is approved, its amount passes
    /// from the escrowed to the released account and is paid to the seller,
    /// and the contract is completed where no milestone is left unapproved.
    /// The release is refused where the accounts cannot bear it.
    pub open spec fn release_step(self, milestone_id: u32, now: u64) -> Result<
        (AgreementView, Transfer),
        ContractError,
    > {
        let c = self.contract;
        let m = self.milestones[milestone_id as int];
        if c.released_amount + m.amount > u128::MAX || c.escrowed_amount < m.amount {
            Err(ContractError::InvalidAmount)
        } else {
            let milestones = self.milestones.update(
                milestone_id as int,
                Milestone { status: MilestoneStatus::Approved, approved_at: Some(now), ..m },
            );
            let accounts = Contract {
                released_amount: (c.released_amount + m.amount) as u128,
                escrowed_amount: (c.escrowed_amount - m.amount) as u128,
                ..c
            };
            let contract = if all_approved(milestones, milestones.len()) {
                Contract {
                    status: ContractStatus::Completed,
                    completed_at: Some(now),
                    ..accounts
                }
            } else {
                accounts
            };
            Ok((AgreementView { contract, milestones }, Transfer::payout_of(c.seller, c.token, m.amount)))
        }
    }

    /// What the approval of a milestone by `caller` at `now` makes of the
    /// contract.
    pub open spec fn approve_milestone_step(self, milestone_id: u32, caller: Address, now: u64) -> Result<
        (AgreementView, Transfer),
        ContractError,
    > {
        let c = self.contract;
        if c.buyer@ != caller@ {
            Err(ContractError::BuyerOnly)
        } else if c.status != ContractStatus::Funded {
            Err(ContractError::ContractNotFunded)
        } else {
            match self.milestone(milestone_id) {
                None => Err(ContractError::MilestoneNotFound),
                Some(m) => if m.status != MilestoneStatus::Completed {
                    Err(ContractError::MilestoneNotCompleted)
                } else {
                    self.release_step(milestone_id, now)
                },
            }
        }
    }

    /// What the dispute over a milestone raised by `caller` at `now` makes of
    /// the contract.
    pub open spec fn dispute_milestone_step(
        self,
        milestone_id: u32,
        caller: Address,
        reason: String,
        now: u64,
    ) -> Result<AgreementView, ContractError> {
        if !self.contract.is_participant(caller) {
            Err(ContractError::ParticipantOnly)
        } else {
            match self.milestone(milestone_id) {
                None => Err(ContractError::MilestoneNotFound),
                Some(m) => if m.status != MilestoneStatus::Completed {
                    Err(ContractError::MilestoneNotCompleted)
                } else {
                    Ok(
                        AgreementView {
                            milestones: self.milestones.update(
                                milestone_id as int,
                                Milestone {
                                    status: MilestoneStatus::Disputed,
                                    dispute_reason: Some(reason),
                                    disputed_at: Some(now),
                                    ..m
                                },
                            ),
                            ..self
                        },
                    )
                },
            }
        }
    }

    /// What the return of the existing milestone `milestone_id` makes of the
    /// contract: the milestone is resolved, and its amount leaves the
    /// escrowed account and is paid back to the buyer. The return is refused
    /// where the account does not hold the amount.
    pub open spec fn return_step(self, milestone_id: u32) -> Result<
        (AgreementView, Transfer),
        ContractError,
    > {
        let c = self.contract;
        let m = self.milestones[milestone_id as int];
        if c.escrowed_amount < m.amount {
            Err(ContractError::InvalidAmount)
        } else {
            Ok(
                (
                    AgreementView {
                        contract: Contract {
                            escrowed_amount: (c.escrowed_amount - m.amount) as u128,
                            ..c
                        },
                        milestones: self.milestones.update(
                            milestone_id as int,
                            Milestone { status: MilestoneStatus::Resolved, ..m },
                        ),
                    },
                    Transfer::payout_of(c.buyer, c.token, m.amount),
                ),
            )
        }
    }

    /// What the admin's decision over a disputed milestone at `now` makes of
    /// the contract: the milestone's amount goes to the seller or back to the
    /// buyer.
    pub open spec fn resolve_dispute_step(self, milestone_id: u32, approve: bool, now: u64) -> Result<
        (AgreementView, Transfer),
        ContractError,
    > {
        match self.milestone(milestone_id) {
            None => Err(ContractError::MilestoneNotFound),
            Some(m) => if m.status != MilestoneStatus::Disputed {
                Err(ContractError::MilestoneNotDisputed)
            } else if approve {
                self.release_step(milestone_id, now)
            } else {
                self.return_step(milestone_id)
            },
        }
    }

    /// What the cancellation by `caller` at `now` makes of the contract.
    pub open spec fn cancel_step(self, caller: Address, now: u64) -> Result<
        (AgreementView, Transfer),
        ContractError,
    > {
        let c = self.contract;
        if !c.is_participant(caller) {
            Err(ContractError::ParticipantOnly)
        } else if c.status.is_terminal() {
            Err(ContractError::OperationNotAllowed)
        } else {
            Ok(
                (
                    AgreementView {
                        contract: Contract {
                            status: ContractStatus::Cancelled,
                            cancelled_at: Some(now),
                            escrowed_amount: 0,
                            ..c
                        },
                        ..self
                    },
                    Transfer::payout_of(c.buyer, c.token, c.escrowed_amount),
                ),
            )
        }
    }
}

/// The milestones as planned sum to what was planned, and none of them is
/// approved.
proof fn sums_of_planned(data: Seq<MilestoneData>, milestones: Seq<Milestone>, n: nat)
    requires
        n <= data.len() == milestones.len(),
        forall|i: int|
            0 <= i < data.len() ==> #[trigger] milestones[i] == Milestone::planned(i as u32, data[i]),
    ensures
        amount_sum(milestones, n) == planned_sum(data, n),
        approved_sum(milestones, n) == 0,
        resolved_sum(milestones, n) == 0,
    decreases n,
{
    if n > 0 {
        sums_of_planned(data, milestones, (n - 1) as nat);
    }
}

impl Agreement {
    /// Creates a contract with its milestones. `buyer` is the party that
    /// authorized the call.
    pub fn create(
        id: u64,
        buyer: Address,
        seller: Address,
        token: Address,
        total_amount: u128,
        milestones: Vec<MilestoneData>,
        now: u64,
    ) -> (r: Result<Agreement, ContractError>)
        ensures
            match creation_refusal(buyer, seller, total_amount, milestones@) {
                Some(e) => r == Err::<Agreement, ContractError>(e),
                None => r matches Ok(a) && a@ == AgreementView::created(
                    id,
                    buyer,
                    seller,
                    token,
                    total_amount,
                    milestones@,
                    now,
                ),
            },
            r matches Ok(a) ==> a@.wf(),
    {
        if total_amount == 0 {
            return Err(ContractError::InvalidAmount);
        }
        if buyer.same(&seller) {
            return Err(ContractError::InvalidInput);
        }
        match validate_milestones(&milestones, total_amount) {
            Err(e) => {
                return Err(e);
            },
            Ok(()) => {},
        }
        let count: usize = milestones.len();
        let mut planned: Vec<Milestone> = Vec::new();
        let mut i: usize = 0;
        while i < count
            invariant
                count == milestones@.len() <= u32::MAX,
                i <= count,
                planned@.len() == i,
                forall|j: int|
                    0 <= j < i ==> #[trigger] planned@[j] == Milestone::planned(
                        j as u32,
                        milestones@[j],
                    ),
            decreases count - i,
        {
            planned.push(
                Milestone {
                    id: i as u32,
                    description: milestones[i].description.clone(),
                    amount: milestones[i].amount,
                    release_criteria: milestones[i].release_criteria.clone(),
                    status: MilestoneStatus::Pending,
                    completed_at: None,
                    approved_at: None,
                    dispute_reason: None,
                    disputed_at: None,
                },
            );
            i = i + 1;
        }
        let contract = Contract {
            id,
            buyer,
            seller,
            token,
            total_amount,
            escrowed_amount: 0,
            released_amount: 0,
            status: ContractStatus::Created,
            created_at: now,
            funded_at: None,
            completed_at: None,
            cancelled_at: None,
            milestone_count: count as u32,
        };
        let agreement = Agreement { contract, milestones: planned };
        proof {
            let expected = AgreementView::created(
                id,
                buyer,
                seller,
                token,
                total_amount,
                milestones@,
                now,
            );
            assert(agreement@.milestones =~= expected.milestones);
            creation_keeps_the_invariant(
                id,
                buyer,
                seller,
                token,
                total_amount,
                milestones@,
                now,
            );
        }
        Ok(agreement)
    }

    /// The position of the milestone `milestone_id` among the milestones.
    fn slot(&self, milestone_id: u32) -> (r: Option<usize>)
        ensures
            match r {
                Some(i) => self@.milestone(milestone_id) == Some(self.milestones@[i as int]) && i
                    == milestone_id && i < self.milestones@.len(),
                None => self@.milestone(milestone_id) is None,
            },
    {
        if (milestone_id as usize) < self.milestones.len() {
            Some(milestone_id as usize)
        } else {
            None
        }
    }

    /// Whether every milestone is approved.
    pub fn every_milestone_approved(&self) -> (r: bool)
        ensures
            r == all_approved(self.milestones@, self.milestones@.len()),
    {
        let mut i: usize = 0;
        while i < self.milestones.len()
            invariant
                i <= self.milestones@.len(),
                all_approved(self.milestones@, i as nat),
            decreases self.milestones@.len() - i,
        {
            if self.milestones[i].status != MilestoneStatus::Approved {
                return false;
            }
            i = i + 1;
        }
        true
    }

    /// The buyer locks the full amount in escrow.
    pub fn fund(&mut self, caller: &Address, now: u64) -> (r: Result<Transfer, ContractError>)
        ensures
            moved(r, old(self)@, final(self)@, old(self)@.fund_step(*caller, now)),
            old(self)@.wf() ==> final(self)@.wf(),
    {
        if !self.contract.buyer.same(caller) {
            return Err(ContractError::BuyerOnly);
        }
        if self.contract.status != ContractStatus::Created {
            return Err(ContractError::ContractAlreadyFunded);
        }
        let transfer = Transfer::deposit(
            &self.contract.buyer,
            &self.contract.token,
            self.contract.total_amount,
        );
        self.contract.escrowed_amount = self.contract.total_amount;
        self.contract.status = ContractStatus::Funded;
        self.contract.funded_at = Some(now);
        Ok(transfer)
    }

    /// The seller reports a pending milestone as completed.
    pub fn complete_milestone(&mut self, milestone_id: u32, caller: &Address, now: u64) -> (r: Result<
        (),
        ContractError,
    >)
        ensures
            settled(
                r,
                old(self)@,
                final(self)@,
                old(self)@.complete_milestone_step(milestone_id, *caller, now),
            ),
            old(self)@.wf() ==> final(self)@.wf(),
    {
        if self.contract.status != ContractStatus::Funded {
            return Err(ContractError::ContractNotFunded);
        }
        if !self.contract.seller.same(caller) {
            return Err(ContractError::SellerOnly);
        }
        match self.slot(milestone_id) {
            None => Err(ContractError::MilestoneNotFound),
            Some(i) => {
                if self.milestones[i].status != MilestoneStatus::Pending {
                    return Err(ContractError::MilestoneAlreadyCompleted);
                }
                self.milestones[i].status = MilestoneStatus::Completed;
                self.milestones[i].completed_at = Some(now);
                proof {
                    let before = old(self)@.milestones;
                    assert(self@.milestones =~= before.update(i as int, self.milestones@[i as int]));
                    sums_after_update(before, i as int, self.milestones@[i as int], before.len());
                }
                Ok(())
            },
        }
    }

    /// Releases the milestone at position `i`.
    fn release(&mut self, i: usize, now: u64) -> (r: Result<Transfer, ContractError>)
        requires
            i < old(self).milestones@.len(),
            i <= u32::MAX,
            old(self).milestones@[i as int].status != MilestoneStatus::Approved,
            old(self).milestones@[i as int].status != MilestoneStatus::Resolved,
        ensures
            moved(r, old(self)@, final(self)@, old(self)@.release_step(i as u32, now)),
            old(self)@.wf() ==> final(self)@.wf(),
            old(self)@.wf() && old(self).contract.status == ContractStatus::Funded ==> r is Ok,
    {
        let amount = self.milestones[i].amount;
        proof {
            approved_sum_is_bounded(old(self)@.milestones, old(self)@.milestones.len());
        }
        let released = match self.contract.released_amount.checked_add(amount) {
            Some(sum) => sum,
            None => {
                return Err(ContractError::InvalidAmount);
            },
        };
        let escrowed = match self.contract.escrowed_amount.checked_sub(amount) {
            Some(rest) => rest,
            None => {
                return Err(ContractError::InvalidAmount);
            },
        };
        let transfer = Transfer::payout(&self.contract.seller, &self.contract.token, amount);
        self.milestones[i].status = MilestoneStatus::Approved;
        self.milestones[i].approved_at = Some(now);
        self.contract.released_amount = released;
        self.contract.escrowed_amount = escrowed;
        proof {
            let before = old(self)@.milestones;
            assert(self@.milestones =~= before.update(i as int, self.milestones@[i as int]));
            sums_after_update(before, i as int, self.milestones@[i as int], before.len());
        }
        if self.every_milestone_approved() {
            self.contract.status = ContractStatus::Completed;
            self.contract.completed_at = Some(now);
            proof {
                approved_sum_of_all_approved(self@.milestones, self@.milestones.len());
            }
        }
        Ok(transfer)
    }
}

impl Agreement {
    /// The buyer approves a completed milestone, which pays its amount to
    /// the seller; the approval of the last milestone completes the contract.
    pub fn approve_milestone(&mut self, milestone_id: u32, caller: &Address, now: u64) -> (r: Result<
        Transfer,
        ContractError,
    >)
        ensures
            moved(
                r,
                old(self)@,
                final(self)@,
                old(self)@.approve_milestone_step(milestone_id, *caller, now),
            ),
            old(self)@.wf() ==> final(self)@.wf(),
    {
        if !self.contract.buyer.same(caller) {
            return Err(ContractError::BuyerOnly);
        }
        if self.contract.status != ContractStatus::Funded {
            return Err(ContractError::ContractNotFunded);
        }
        match self.slot(milestone_id) {
            None => Err(ContractError::MilestoneNotFound),
            Some(i) => {
                if self.milestones[i].status != MilestoneStatus::Completed {
                    return Err(ContractError::MilestoneNotCompleted);
                }
                self.release(i, now)
            },
        }
    }

    /// A participant disputes a completed milestone.
    pub fn dispute_milestone(
        &mut self,
        milestone_id: u32,
        caller: &Address,
        reason: String,
        now: u64,
    ) -> (r: Result<(), ContractError>)
        ensures
            settled(
                r,
                old(self)@,
                final(self)@,
                old(self)@.dispute_milestone_step(milestone_id, *caller, reason, now),
            ),
            old(self)@.wf() ==> final(self)@.wf(),
    {
        if !self.contract.participant(caller) {
            return Err(ContractError::ParticipantOnly);
        }
        match self.slot(milestone_id) {
            None => Err(ContractError::MilestoneNotFound),
            Some(i) => {
                if self.milestones[i].status != MilestoneStatus::Completed {
                    return Err(ContractError::MilestoneNotCompleted);
                }
                self.milestones[i].status = MilestoneStatus::Disputed;
                self.milestones[i].dispute_reason = Some(reason);
                self.milestones[i].disputed_at = Some(now);
                proof {
                    let before = old(self)@.milestones;
                    assert(self@.milestones =~= before.update(i as int, self.milestones@[i as int]));
                    sums_after_update(before, i as int, self.milestones@[i as int], before.len());
                }
                Ok(())
            },
        }
    }

    /// Decides the dispute over a milestone: approval releases the milestone
    /// as the buyer's approval would, rejection returns the milestone's
    /// amount to the buyer. The caller has established before that the admin
    /// decides.
    pub fn resolve_dispute(&mut self, milestone_id: u32, approve: bool, now: u64) -> (r: Result<
        Transfer,
        ContractError,
    >)
        ensures
            moved(
                r,
                old(self)@,
                final(self)@,
                old(self)@.resolve_dispute_step(milestone_id, approve, now),
            ),
            old(self)@.wf() ==> final(self)@.wf(),
    {
        match self.slot(milestone_id) {
            None => Err(ContractError::MilestoneNotFound),
            Some(i) => {
                if self.milestones[i].status != MilestoneStatus::Disputed {
                    return Err(ContractError::MilestoneNotDisputed);
                }
                if approve {
                    self.release(i, now)
                } else {
                    let amount = self.milestones[i].amount;
                    let escrowed = match self.contract.escrowed_amount.checked_sub(amount) {
                        Some(rest) => rest,
                        None => {
                            return Err(ContractError::InvalidAmount);
                        },
                    };
                    let transfer = Transfer::payout(
                        &self.contract.buyer,
                        &self.contract.token,
                        amount,
                    );
                    self.milestones[i].status = MilestoneStatus::Resolved;
                    self.contract.escrowed_amount = escrowed;
                    proof {
                        let before = old(self)@.milestones;
                        assert(self@.milestones =~= before.update(
                            i as int,
                            self.milestones@[i as int],
                        ));
                        sums_after_update(before, i as int, self.milestones@[i as int], before.len());
                        approved_sum_is_bounded(before, before.len());
                    }
                    Ok(transfer)
                }
            },
        }
    }

    /// A participant cancels the contract; what is still held goes back to
    /// the buyer.
    pub fn cancel(&mut self, caller: &Address, now: u64) -> (r: Result<Transfer, ContractError>)
        ensures
            moved(r, old(self)@, final(self)@, old(self)@.cancel_step(*caller, now)),
            old(self)@.wf() ==> final(self)@.wf(),
    {
        if !self.contract.participant(caller) {
            return Err(ContractError::ParticipantOnly);
        }
        if self.contract.status.terminal() {
            return Err(ContractError::OperationNotAllowed);
        }
        let transfer = Transfer::payout(
            &self.contract.buyer,
            &self.contract.token,
            self.contract.escrowed_amount,
        );
        self.contract.status = ContractStatus::Cancelled;
        self.contract.cancelled_at = Some(now);
        self.contract.escrowed_amount = 0;
        Ok(transfer)
    }

    /// Copies of the milestones, in their order.
    pub fn milestones_copy(&self) -> (r: Vec<Milestone>)
        ensures
            r@ == self.milestones@,
    {
        let mut r: Vec<Milestone> = Vec::new();
        let mut i: usize = 0;
        while i < self.milestones.len()
            invariant
                i <= self.milestones@.len(),
                r@ == self.milestones@.take(i as int),
            decreases self.milestones@.len() - i,
        {
            r.push(self.milestones[i].duplicate());
            i = i + 1;
            assert(r@ =~= self.milestones@.take(i as int));
        }
        assert(r@ =~= self.milestones@);
        r
    }
}

/// The engine: the admin that decides disputed milestones, and every
/// contract ever created with its milestones, in the order of creation.
/// Contract identifiers count from 1.
#[derive(Clone, Debug)]
pub struct MilestonePaymentContract {
    pub admin: Option<Address>,
    pub agreements: Vec<Agreement>,
}

/// What an operation on the contract `id` makes of the engine, where `step`
/// says what it makes of that contract and its milestones: an unknown
/// identifier is refused, a refused step leaves every contract as it was, and
/// an accepted step replaces that one contract and nothing else.
pub open spec fn agreement_moved(
    r: Result<Transfer, ContractError>,
    before: MilestonePaymentContract,
    after: MilestonePaymentContract,
    id: u64,
    step: spec_fn(AgreementView) -> Result<(AgreementView, Transfer), ContractError>,
) -> bool {
    &&& after.admin == before.admin
    &&& match before.lookup(id) {
        None => r == Err::<Transfer, ContractError>(ContractError::ContractNotFound)
            && after.records() == before.records(),
        Some(a) => match step(a) {
            Ok((next, transfer)) => r == Ok::<Transfer, ContractError>(transfer) && after.records()
                == before.records().update(id - 1, next),
            Err(e) => r == Err::<Transfer, ContractError>(e) && after.records()
                == before.records(),
        },
    }
}

/// As `agreement_moved`, for an operation that never moves value.
pub open spec fn agreement_settled(
    r: Result<(), ContractError>,
    before: MilestonePaymentContract,
    after: MilestonePaymentContract,
    id: u64,
    step: spec_fn(AgreementView) -> Result<AgreementView, ContractError>,
) -> bool {
    &&& after.admin == before.admin
    &&& match before.lookup(id) {
        None => r == Err::<(), ContractError>(ContractError::ContractNotFound) && after.records()
            == before.records(),
        Some(a) => match step(a) {
            Ok(next) => r == Ok::<(), ContractError>(()) && after.records()
                == before.records().update(id - 1, next),
            Err(e) => r == Err::<(), ContractError>(e) && after.records() == before.records(),
        },
    }
}

impl MilestonePaymentContract {
    /// The contracts with their milestones, as mathematical values.
    pub open spec fn records(self) -> Seq<AgreementView> {
        self.agreements@.map_values(|a: Agreement| a@)
    }

    /// Identifiers are dense and every record keeps its invariant.
    pub open spec fn wf(self) -> bool {
        forall|i: int|
            0 <= i < self.records().len() ==> (#[trigger] self.records()[i]).contract.id == i + 1
                && self.records()[i].wf()
    }

    /// The contract stored under `id`, if there is one.
    pub open spec fn lookup(self, id: u64) -> Option<AgreementView> {
        if 1 <= id <= self.records().len() {
            Some(self.records()[id - 1])
        } else {
            None
        }
    }

    /// Whether `who` is the admin of an initialized engine.
    pub open spec fn is_admin(self, who: Address) -> bool {
        names(self.admin, who)
    }

    /// The identifiers of the first `n` contracts in which `user` is buyer or
    /// seller, in the order of creation.
    pub open spec fn listed_upto(self, user: Address, n: nat) -> Seq<u64>
        decreases n,
    {
        if n == 0 {
            Seq::empty()
        } else {
            let before = self.listed_upto(user, (n - 1) as nat);
            let c = self.records()[n - 1].contract;
            if c.is_participant(user) {
                before.push(c.id)
            } else {
                before
            }
        }
    }

    /// The identifiers of all contracts in which `user` takes part.
    pub open spec fn contracts_of(self, user: Address) -> Seq<u64> {
        self.listed_upto(user, self.records().len())
    }

    /// An engine without admin and without contracts.
    pub fn new() -> (s: MilestonePaymentContract)
        ensures
            s.wf(),
            s.admin is None,
            s.records().len() == 0,
    {
        MilestonePaymentContract { admin: None, agreements: Vec::new() }
    }

    /// Binds the admin, once. `admin` is the party that authorized the call.
    pub fn initialize(&mut self, admin: Address) -> (r: Result<(), ContractError>)
        ensures
            final(self).agreements == old(self).agreements,
            match old(self).admin {
                Some(_) => r == Err::<(), ContractError>(ContractError::AlreadyInitialized)
                    && final(self).admin == old(self).admin,
                None => r == Ok::<(), ContractError>(()) && final(self).admin == Some(admin),
            },
    {
        if self.admin.is_some() {
            return Err(ContractError::AlreadyInitialized);
        }
        self.admin = Some(admin);
        Ok(())
    }

    /// Whether `who` is the admin of an initialized engine.
    pub fn has_admin(&self, who: &Address) -> (r: bool)
        ensures
            r == self.is_admin(*who),
    {
        match &self.admin {
            Some(a) => a.same(who),
            None => false,
        }
    }

    /// Turns away whoever is not the admin.
    pub fn require_admin(&self, who: &Address) -> (r: Result<(), ContractError>)
        ensures
            r == (if self.is_admin(*who) {
                Ok::<(), ContractError>(())
            } else {
                Err::<(), ContractError>(ContractError::AdminOnly)
            }),
    {
        if self.has_admin(who) {
            Ok(())
        } else {
            Err(ContractError::AdminOnly)
        }
    }

    /// The position of the contract `id` among the contracts.
    fn slot(&self, id: u64) -> (r: Option<usize>)
        ensures
            match r {
                Some(i) => self.lookup(id) == Some(self.agreements@[i as int]@) && i == id - 1 && i
                    < self.agreements@.len(),
                None => self.lookup(id) is None,
            },
    {
        if id == 0 || id > self.agreements.len() as u64 {
            None
        } else {
            Some((id - 1) as usize)
        }
    }

    /// Creates a contract under the next identifier and returns it. `buyer`
    /// is the party that authorized the call. An engine that has used up
    /// its identifiers allows no further creation.
    pub fn create_contract(
        &mut self,
        buyer: Address,
        seller: Address,
        token: Address,
        total_amount: u128,
        milestones: Vec<MilestoneData>,
        now: u64,
    ) -> (r: Result<u64, ContractError>)
        ensures
            old(self).wf() ==> final(self).wf(),
            final(self).admin == old(self).admin,
            match creation_refusal(buyer, seller, total_amount, milestones@) {
                Some(e) => r == Err::<u64, ContractError>(e) && final(self).records() == old(self).records(),
                None => if old(self).records().len() >= u64::MAX {
                    r == Err::<u64, ContractError>(ContractError::OperationNotAllowed)
                        && final(self).records() == old(self).records()
                } else {
                    r == Ok::<u64, ContractError>((old(self).records().len() + 1) as u64)
                        && final(self).records() == old(self).records().push(
                        AgreementView::created(
                            (old(self).records().len() + 1) as u64,
                            buyer,
                            seller,
                            token,
                            total_amount,
                            milestones@,
                            now,
                        ),
                    )
                },
            },
    {
        let count: u64 = self.agreements.len() as u64;
        let id: u64 = if count < u64::MAX { count + 1 } else { count };
        match Agreement::create(id, buyer, seller, token, total_amount, milestones, now) {
            Ok(a) => {
                if count == u64::MAX {
                    return Err(ContractError::OperationNotAllowed);
                }
                self.agreements.push(a);
                proof {
                    assert(self.records() =~= old(self).records().push(a@));
                }
                Ok(id)
            },
            Err(e) => Err(e),
        }
    }

    /// The buyer locks the full amount of contract `contract_id` in escrow.
    pub fn fund_contract(
        &mut self,
        contract_id: u64,
        buyer: &Address,
        now: u64,
    ) -> (r: Result<Transfer, ContractError>)
        ensures
            old(self).wf() ==> final(self).wf(),
            agreement_moved(
                r,
                *old(self),
                *final(self),
                contract_id,
                |a: AgreementView| a.fund_step(*buyer, now),
            ),
    {
        match self.slot(contract_id) {
            None => Err(ContractError::ContractNotFound),
            Some(i) => {
                let r = self.agreements[i].fund(buyer, now);
                proof {
                    replaced_at(old(self).records(), self.records(), i as int);
                }
                r
            },
        }
    }

    /// The seller reports a milestone of contract `contract_id` as completed.
    pub fn complete_milestone(
        &mut self,
        contract_id: u64,
        milestone_id: u32,
        completor: &Address,
        now: u64,
    ) -> (r: Result<(), ContractError>)
        ensures
            old(self).wf() ==> final(self).wf(),
            agreement_settled(
                r,
                *old(self),
                *final(self),
                contract_id,
                |a: AgreementView| a.complete_milestone_step(milestone_id, *completor, now),
            ),
    {
        match self.slot(contract_id) {
            None => Err(ContractError::ContractNotFound),
            Some(i) => {
                let r = self.agreements[i].complete_milestone(milestone_id, completor, now);
                proof {
                    replaced_at(old(self).records(), self.records(), i as int);
                }
                r
            },
        }
    }

    /// The buyer approves a completed milestone of contract `contract_id`,
    /// which pays its amount to the seller.
    pub fn approve_milestone(
        &mut self,
        contract_id: u64,
        milestone_id: u32,
        buyer: &Address,
        now: u64,
    ) -> (r: Result<Transfer, ContractError>)
        ensures
            old(self).wf() ==> final(self).wf(),
            agreement_moved(
                r,
                *old(self),
                *final(self),
                contract_id,
                |a: AgreementView| a.approve_milestone_step(milestone_id, *buyer, now),
            ),
    {
        match self.slot(contract_id) {
            None => Err(ContractError::ContractNotFound),
            Some(i) => {
                let r = self.agreements[i].approve_milestone(milestone_id, buyer, now);
                proof {
                    replaced_at(old(self).records(), self.records(), i as int);
                }
                r
            },
        }
    }

    /// A participant disputes a completed milestone of contract `contract_id`.
    pub fn dispute_milestone(
        &mut self,
        contract_id: u64,
        milestone_id: u32,
        disputer: &Address,
        reason: String,
        now: u64,
    ) -> (r: Result<(), ContractError>)
        ensures
            old(self).wf() ==> final(self).wf(),
            agreement_settled(
                r,
                *old(self),
                *final(self),
                contract_id,
                |a: AgreementView| a.dispute_milestone_step(milestone_id, *disputer, reason, now),
            ),
    {
        match self.slot(contract_id) {
            None => Err(ContractError::ContractNotFound),
            Some(i) => {
                let r = self.agreements[i].dispute_milestone(milestone_id, disputer, reason, now);
                proof {
                    replaced_at(old(self).records(), self.records(), i as int);
                }
                r
            },
        }
    }

    /// A participant cancels contract `contract_id`.
    pub fn cancel_contract(
        &mut self,
        contract_id: u64,
        canceller: &Address,
        now: u64,
    ) -> (r: Result<Transfer, ContractError>)
        ensures
            old(self).wf() ==> final(self).wf(),
            agreement_moved(
                r,
                *old(self),
                *final(self),
                contract_id,
                |a: AgreementView| a.cancel_step(*canceller, now),
            ),
    {
        match self.slot(contract_id) {
            None => Err(ContractError::ContractNotFound),
            Some(i) => {
                let r = self.agreements[i].cancel(canceller, now);
                proof {
                    replaced_at(old(self).records(), self.records(), i as int);
                }
                r
            },
        }
    }

    /// The admin decides the dispute over a milestone of contract
    /// `contract_id`. Whoever is not the admin is turned away before the
    /// contract is looked at.
    pub fn resolve_dispute(
        &mut self,
        contract_id: u64,
        milestone_id: u32,
        admin: &Address,
        approve: bool,
        now: u64,
    ) -> (r: Result<Transfer, ContractError>)
        ensures
            old(self).wf() ==> final(self).wf(),
            if old(self).is_admin(*admin) {
                agreement_moved(
                    r,
                    *old(self),
                    *final(self),
                    contract_id,
                    |a: AgreementView| a.resolve_dispute_step(milestone_id, approve, now),
                )
            } else {
                r == Err::<Transfer, ContractError>(ContractError::AdminOnly) && *final(self)
                    == *old(self)
            },
    {
        match self.require_admin(admin) {
            Err(e) => {
                return Err(e);
            },
            Ok(()) => {},
        }
        match self.slot(contract_id) {
            None => Err(ContractError::ContractNotFound),
            Some(i) => {
                let r = self.agreements[i].resolve_dispute(milestone_id, approve, now);
                proof {
                    replaced_at(old(self).records(), self.records(), i as int);
                }
                r
            },
        }
    }

    /// The terms and accounts of the contract stored under `contract_id`.
    pub fn get_contract(&self, contract_id: u64) -> (r: Result<Contract, ContractError>)
        ensures
            match self.lookup(contract_id) {
                Some(a) => r == Ok::<Contract, ContractError>(a.contract),
                None => r == Err::<Contract, ContractError>(ContractError::ContractNotFound),
            },
    {
        match self.slot(contract_id) {
            None => Err(ContractError::ContractNotFound),
            Some(i) => Ok(self.agreements[i].contract.duplicate()),
        }
    }

    /// The milestone `milestone_id` of the contract `contract_id`. A
    /// milestone of an unknown contract is an unknown milestone.
    pub fn get_milestone(&self, contract_id: u64, milestone_id: u32) -> (r: Result<
        Milestone,
        ContractError,
    >)
        ensures
            match self.lookup(contract_id) {
                Some(a) => match a.milestone(milestone_id) {
                    Some(m) => r == Ok::<Milestone, ContractError>(m),
                    None => r == Err::<Milestone, ContractError>(ContractError::MilestoneNotFound),
                },
                None => r == Err::<Milestone, ContractError>(ContractError::MilestoneNotFound),
            },
    {
        match self.slot(contract_id) {
            None => Err(ContractError::MilestoneNotFound),
            Some(i) => match self.agreements[i].slot(milestone_id) {
                None => Err(ContractError::MilestoneNotFound),
                Some(j) => Ok(self.agreements[i].milestones[j].duplicate()),
            },
        }
    }

    /// The milestones of the contract `contract_id` in their order; none for
    /// an unknown contract.
    pub fn get_contract_milestones(&self, contract_id: u64) -> (r: Result<
        Vec<Milestone>,
        ContractError,
    >)
        ensures
            r matches Ok(ms) && ms@ == (match self.lookup(contract_id) {
                Some(a) => a.milestones,
                None => Seq::<Milestone>::empty(),
            }),
    {
        match self.slot(contract_id) {
            None => Ok(Vec::new()),
            Some(i) => Ok(self.agreements[i].milestones_copy()),
        }
    }

    /// One page of the identifiers of the contracts in which `user` takes
    /// part, in the order of creation.
    pub fn get_user_contracts(&self, user: &Address, offset: u32, limit: u32) -> (r: Result<
        Vec<u64>,
        ContractError,
    >)
        ensures
            r matches Ok(ids) && ids@ == page_of(
                self.contracts_of(*user),
                offset as nat,
                limit as nat,
            ),
    {
        let mut all: Vec<u64> = Vec::new();
        let mut i: usize = 0;
        while i < self.agreements.len()
            invariant
                i <= self.agreements@.len(),
                all@ == self.listed_upto(*user, i as nat),
            decreases self.agreements@.len() - i,
        {
            if self.agreements[i].contract.participant(user) {
                all.push(self.agreements[i].contract.id);
            }
            i = i + 1;
        }
        Ok(page(&all, offset, limit))
    }
}

/// Custody is conserved: in every contract that keeps its invariant, what is
/// held, what was paid to the seller and what was returned to the buyer add
/// up to what the buyer deposited, which is the contract's total from the
/// moment it is funded. Every operation keeps the invariant.
pub proof fn custody_is_conserved(a: AgreementView)
    requires
        a.wf(),
    ensures
        a.escrowed() + a.released() + a.refunded() == a.deposited(),
        a.contract.funded_at is Some ==> a.escrowed() + a.released() + a.refunded() == a.total(),
{
}

/// A contract in a terminal status holds nothing.
pub proof fn terminal_holds_nothing(a: AgreementView)
    requires
        a.wf(),
        a.contract.status.is_terminal(),
    ensures
        a.escrowed() == 0,
{
}

/// A contract is funded at most once: whoever tries to fund a contract that
/// has left the status `Created` is refused, the buyer with
/// `ContractAlreadyFunded`; and the contract that a funding leaves behind
/// refuses every further funding.
pub proof fn funding_happens_once(
    a: AgreementView,
    caller: Address,
    now: u64,
    again: Address,
    later: u64,
)
    ensures
        a.contract.status != ContractStatus::Created ==> a.fund_step(caller, now) is Err,
        a.contract.status != ContractStatus::Created && a.contract.buyer@ == caller@ ==> a.fund_step(
            caller,
            now,
        ) == Err::<(AgreementView, Transfer), ContractError>(ContractError::ContractAlreadyFunded),
        a.fund_step(caller, now) matches Ok((funded, _)) ==> funded.fund_step(again, later) is Err,
{
}

/// The milestones must add up: a contract is created only over a list of
/// milestones that is not empty and whose amounts sum to the declared total.
/// Where nothing else is wrong with the terms (the total is positive, buyer
/// and seller differ, no milestone is worth nothing, and the sum can be
/// represented), a sum that differs from the total is refused with
/// `TotalAmountMismatch`, whatever the length of the list; that holds of the
/// empty list too, whose sum is nothing.
pub proof fn milestones_must_add_up(
    buyer: Address,
    seller: Address,
    total_amount: u128,
    data: Seq<MilestoneData>,
)
    ensures
        creation_refusal(buyer, seller, total_amount, data) is None ==> data.len() > 0
            && planned_sum(data, data.len()) == total_amount,
        planned_sum(data, data.len()) != total_amount ==> creation_refusal(
            buyer,
            seller,
            total_amount,
            data,
        ) is Some,
        data.len() == 0 ==> creation_refusal(buyer, seller, total_amount, data) is Some,
        total_amount > 0 && buyer@ != seller@ ==> {
            &&& data.len() == 0 ==> creation_refusal(buyer, seller, total_amount, data) == Some(
                ContractError::TotalAmountMismatch,
            )
            &&& !has_zero_amount(data) && planned_sum(data, data.len()) <= u128::MAX && planned_sum(
                data,
                data.len(),
            ) != total_amount ==> creation_refusal(buyer, seller, total_amount, data) == Some(
                ContractError::TotalAmountMismatch,
            )
        },
{
    if data.len() == 0 {
        assert(!has_zero_amount(data));
    }
}

/// On a funded contract that keeps its invariant, the buyer's approval of a
/// completed milestone always goes through: it pays exactly the milestone's
/// amount to the seller, and moves that amount from the escrowed to the
/// released account. A milestone that is not completed is never paid by an
/// approval.
pub proof fn approval_pays_the_milestone(a: AgreementView, milestone_id: u32, now: u64)
    requires
        a.wf(),
        a.contract.status == ContractStatus::Funded,
        milestone_id < a.milestones.len(),
    ensures
        a.milestones[milestone_id as int].status != MilestoneStatus::Completed
            ==> a.approve_milestone_step(milestone_id, a.contract.buyer, now) == Err::<
            (AgreementView, Transfer),
            ContractError,
        >(ContractError::MilestoneNotCompleted),
        a.milestones[milestone_id as int].status == MilestoneStatus::Completed ==> (
        a.approve_milestone_step(milestone_id, a.contract.buyer, now) matches Ok((next, transfer))
            && transfer == (Transfer::Payout {
            to: a.contract.seller,
            asset: a.contract.token,
            amount: a.milestones[milestone_id as int].amount,
        }) && next.escrowed() + a.milestones[milestone_id as int].amount == a.escrowed()
            && next.released() == a.released() + a.milestones[milestone_id as int].amount
            && next.milestones[milestone_id as int].status == MilestoneStatus::Approved),
{
    approved_sum_is_bounded(a.milestones, a.milestones.len());
}

/// Deciding a disputed milestone moves its amount, one way or the other:
/// approval pays it to the seller, rejection returns it to the buyer; either
/// way the amount leaves the escrowed account. A milestone that is not
/// disputed cannot be decided, so a decided dispute cannot be decided again.
/// On a funded contract the decision always goes through.
pub proof fn dispute_resolution_is_final(
    a: AgreementView,
    milestone_id: u32,
    approve: bool,
    now: u64,
    later: u64,
)
    requires
        a.wf(),
        milestone_id < a.milestones.len(),
    ensures
        a.milestones[milestone_id as int].status != MilestoneStatus::Disputed
            ==> a.resolve_dispute_step(milestone_id, approve, now) == Err::<
            (AgreementView, Transfer),
            ContractError,
        >(ContractError::MilestoneNotDisputed),
        a.resolve_dispute_step(milestone_id, approve, now) matches Ok((next, transfer)) ==> {
            &&& next.resolve_dispute_step(milestone_id, approve, later) is Err
            &&& next.escrowed() + a.milestones[milestone_id as int].amount == a.escrowed()
            &&& transfer == (Transfer::Payout {
                to: if approve { a.contract.seller } else { a.contract.buyer },
                asset: a.contract.token,
                amount: a.milestones[milestone_id as int].amount,
            })
            &&& next.milestones[milestone_id as int].status == (if approve {
                MilestoneStatus::Approved
            } else {
                MilestoneStatus::Resolved
            })
            &&& next.released() == a.released() + (if approve {
                a.milestones[milestone_id as int].amount as int
            } else {
                0
            })
            &&& next.refunded() == a.refunded() + (if approve {
                0
            } else {
                a.milestones[milestone_id as int].amount as int
            })
        },
        a.contract.status == ContractStatus::Funded && a.milestones[milestone_id as int].status
            == MilestoneStatus::Disputed ==> a.resolve_dispute_step(milestone_id, approve, now)
            is Ok,
{
    let ms = a.milestones;
    let at = milestone_id as int;
    let m = ms[at];
    approved_sum_is_bounded(ms, ms.len());
    sums_after_update(ms, at, Milestone { status: MilestoneStatus::Resolved, ..m }, ms.len());
    sums_after_update(
        ms,
        at,
        Milestone { status: MilestoneStatus::Approved, approved_at: Some(now), ..m },
        ms.len(),
    );
}

/// Custody and status change together: on a contract that keeps its
/// invariant, what an accepted step adds to or takes from the amount held is
/// what the transfer that it hands back moves.
pub proof fn custody_follows_transfer(
    a: AgreementView,
    next: AgreementView,
    transfer: Transfer,
    milestone_id: u32,
    caller: Address,
    approve: bool,
    now: u64,
)
    requires
        a.wf(),
        ({
            let done = Ok::<(AgreementView, Transfer), ContractError>((next, transfer));
            ||| a.fund_step(caller, now) == done
            ||| a.approve_milestone_step(milestone_id, caller, now) == done
            ||| a.resolve_dispute_step(milestone_id, approve, now) == done
            ||| a.cancel_step(caller, now) == done
        }),
    ensures
        next.escrowed() == a.escrowed() + transfer.inflow() - transfer.outflow(),
{
}

/// Every accepted step keeps the invariant: whatever an operation makes of a
/// contract that keeps it keeps it too. With `custody_is_conserved` this
/// says that custody adds up after every operation that goes through.
pub proof fn every_step_keeps_the_invariant(
    a: AgreementView,
    milestone_id: u32,
    caller: Address,
    reason: String,
    approve: bool,
    now: u64,
)
    requires
        a.wf(),
    ensures
        a.fund_step(caller, now) matches Ok((next, _)) ==> next.wf(),
        a.complete_milestone_step(milestone_id, caller, now) matches Ok(next) ==> next.wf(),
        a.approve_milestone_step(milestone_id, caller, now) matches Ok((next, _)) ==> next.wf(),
        a.dispute_milestone_step(milestone_id, caller, reason, now) matches Ok(next)
            ==> next.wf(),
        a.resolve_dispute_step(milestone_id, approve, now) matches Ok((next, _)) ==> next.wf(),
        a.cancel_step(caller, now) matches Ok((next, _)) ==> next.wf(),
{
    let ms = a.milestones;
    approved_sum_is_bounded(ms, ms.len());
    if milestone_id < ms.len() {
        let m = ms[milestone_id as int];
        let at = milestone_id as int;
        sums_after_update(
            ms,
            at,
            Milestone { status: MilestoneStatus::Completed, completed_at: Some(now), ..m },
            ms.len(),
        );
        sums_after_update(
            ms,
            at,
            Milestone {
                status: MilestoneStatus::Disputed,
                dispute_reason: Some(reason),
                disputed_at: Some(now),
                ..m
            },
            ms.len(),
        );
        sums_after_update(ms, at, Milestone { status: MilestoneStatus::Resolved, ..m }, ms.len());
        let approved = Milestone { status: MilestoneStatus::Approved, approved_at: Some(now), ..m };
        sums_after_update(ms, at, approved, ms.len());
        if all_approved(ms.update(at, approved), ms.len()) {
            approved_sum_of_all_approved(ms.update(at, approved), ms.len());
        }
    }
}

/// The milestones of a contract that is created add up to its total, and the
/// contract keeps the invariant.
pub proof fn creation_keeps_the_invariant(
    id: u64,
    buyer: Address,
    seller: Address,
    token: Address,
    total_amount: u128,
    data: Seq<MilestoneData>,
    now: u64,
)
    requires
        creation_refusal(buyer, seller, total_amount, data) is None,
    ensures
        AgreementView::created(id, buyer, seller, token, total_amount, data, now).wf(),
        amount_sum(
            AgreementView::created(id, buyer, seller, token, total_amount, data, now).milestones,
            data.len(),
        ) == total_amount,
{
    let made = AgreementView::created(id, buyer, seller, token, total_amount, data, now);
    sums_of_planned(data, made.milestones, data.len());
    assert forall|i: int| 0 <= i < data.len() implies (#[trigger] data[i]).amount > 0 by {
        if data[i].amount == 0 {
            assert(has_zero_amount(data));
        }
    }
}

} // verus!
