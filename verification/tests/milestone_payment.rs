use std::collections::HashMap;

use escrow_contracts::address::Address;
use escrow_contracts::custody::Transfer;
use escrow_contracts::milestone_payment::{
    validate_milestones, Contract, ContractError, ContractStatus, Milestone, MilestoneData,
    MilestonePaymentContract, MilestoneStatus,
};

const MILESTONE_AMOUNT_1: u128 = 500;
const MILESTONE_AMOUNT_2: u128 = 300;
const MILESTONE_AMOUNT_3: u128 = 200;
const TOTAL_AMOUNT: u128 = MILESTONE_AMOUNT_1 + MILESTONE_AMOUNT_2 + MILESTONE_AMOUNT_3;

/// The key under which the token keeps what the engine holds in custody.
const CUSTODY: &str = "milestone-engine";

/// The transfer could not be carried out.
#[derive(Debug, PartialEq, Eq)]
struct TransferFailed;

/// A fungible token that carries out the transfers that the engine asks for.
struct Token {
    address: Address,
    balances: HashMap<String, i128>,
}

impl Token {
    fn new(key: &str) -> Token {
        Token { address: Address::new(key), balances: HashMap::new() }
    }

    fn mint(&mut self, to: &Address, amount: i128) {
        *self.balances.entry(to.key.clone()).or_insert(0) += amount;
    }

    fn balance(&self, who: &Address) -> i128 {
        self.balances.get(&who.key).copied().unwrap_or(0)
    }

    fn held(&self) -> i128 {
        self.balances.get(CUSTODY).copied().unwrap_or(0)
    }

    fn move_value(&mut self, from: &str, to: &str, amount: u128) -> Result<(), TransferFailed> {
        let amount = i128::try_from(amount).map_err(|_| TransferFailed)?;
        let available = self.balances.get(from).copied().unwrap_or(0);
        if available < amount {
            return Err(TransferFailed);
        }
        *self.balances.entry(from.to_string()).or_insert(0) -= amount;
        *self.balances.entry(to.to_string()).or_insert(0) += amount;
        Ok(())
    }

    fn carry_out(&mut self, transfer: &Transfer) -> Result<(), TransferFailed> {
        match transfer {
            Transfer::Nothing => Ok(()),
            Transfer::Deposit { from, asset, amount } => {
                assert_eq!(asset, &self.address);
                self.move_value(&from.key, CUSTODY, *amount)
            }
            Transfer::Payout { to, asset, amount } => {
                assert_eq!(asset, &self.address);
                self.move_value(CUSTODY, &to.key, *amount)
            }
        }
    }
}

type CallResult<T> = Result<T, Result<ContractError, TransferFailed>>;

fn milestone(description: &str, amount: u128, release_criteria: &str) -> MilestoneData {
    MilestoneData {
        description: String::from(description),
        amount,
        release_criteria: String::from(release_criteria),
    }
}

struct MilestoneTest {
    now: u64,
    admin: Address,
    buyer: Address,
    seller: Address,
    token: Token,
    contract: MilestonePaymentContract,
    milestones: Vec<MilestoneData>,
}

impl MilestoneTest {
    fn setup() -> Self {
        let admin = Address::new("admin");
        let buyer = Address::new("buyer");
        let seller = Address::new("seller");
        let mut token = Token::new("token");
        token.mint(&buyer, TOTAL_AMOUNT as i128);
        let mut contract = MilestonePaymentContract::new();
        let _ = contract.initialize(admin.clone());
        let milestones = vec![
            milestone("First milestone", MILESTONE_AMOUNT_1, "Complete development phase 1"),
            milestone("Second milestone", MILESTONE_AMOUNT_2, "Complete testing phase"),
            milestone("Final milestone", MILESTONE_AMOUNT_3, "Complete deployment"),
        ];
        MilestoneTest { now: 0, admin, buyer, seller, token, contract, milestones }
    }

    /// Carries out the transfer of an accepted call; where that fails, the
    /// whole call fails and the engine is as it was before.
    fn settle(
        &mut self,
        before: MilestonePaymentContract,
        outcome: Result<Transfer, ContractError>,
    ) -> CallResult<()> {
        match outcome {
            Err(e) => Err(Ok(e)),
            Ok(transfer) => match self.token.carry_out(&transfer) {
                Ok(()) => Ok(()),
                Err(failed) => {
                    self.contract = before;
                    Err(Err(failed))
                }
            },
        }
    }

    fn try_create_contract(
        &mut self,
        buyer: &Address,
        seller: &Address,
        total_amount: u128,
        milestones: &Vec<MilestoneData>,
    ) -> CallResult<u64> {
        self.contract
            .create_contract(
                buyer.clone(),
                seller.clone(),
                self.token.address.clone(),
                total_amount,
                milestones.clone(),
                self.now,
            )
            .map_err(Ok)
    }

    fn create_contract(&mut self) -> u64 {
        let (buyer, seller, milestones) =
            (self.buyer.clone(), self.seller.clone(), self.milestones.clone());
        self.try_create_contract(&buyer, &seller, TOTAL_AMOUNT, &milestones).unwrap()
    }

    fn try_fund_contract(&mut self, id: u64, who: &Address) -> CallResult<()> {
        let before = self.contract.clone();
        let outcome = self.contract.fund_contract(id, who, self.now);
        self.settle(before, outcome)
    }

    fn fund_contract(&mut self, id: u64) {
        let buyer = self.buyer.clone();
        self.try_fund_contract(id, &buyer).unwrap();
    }

    fn try_complete_milestone(&mut self, id: u64, milestone_id: u32, who: &Address) -> CallResult<()> {
        self.contract.complete_milestone(id, milestone_id, who, self.now).map_err(Ok)
    }

    fn try_approve_milestone(&mut self, id: u64, milestone_id: u32, who: &Address) -> CallResult<()> {
        let before = self.contract.clone();
        let outcome = self.contract.approve_milestone(id, milestone_id, who, self.now);
        self.settle(before, outcome)
    }

    fn try_dispute_milestone(
        &mut self,
        id: u64,
        milestone_id: u32,
        who: &Address,
        reason: &str,
    ) -> CallResult<()> {
        self.contract
            .dispute_milestone(id, milestone_id, who, reason.to_string(), self.now)
            .map_err(Ok)
    }

    fn try_resolve_dispute(
        &mut self,
        id: u64,
        milestone_id: u32,
        who: &Address,
        approve: bool,
    ) -> CallResult<()> {
        let before = self.contract.clone();
        let outcome = self.contract.resolve_dispute(id, milestone_id, who, approve, self.now);
        self.settle(before, outcome)
    }

    fn try_cancel_contract(&mut self, id: u64, who: &Address) -> CallResult<()> {
        let before = self.contract.clone();
        let outcome = self.contract.cancel_contract(id, who, self.now);
        self.settle(before, outcome)
    }

    fn get_contract(&self, id: u64) -> Contract {
        self.contract.get_contract(id).unwrap()
    }

    fn get_milestone(&self, id: u64, milestone_id: u32) -> Milestone {
        self.contract.get_milestone(id, milestone_id).unwrap()
    }

    fn setup_with_funded_contract() -> (Self, u64) {
        let mut test = Self::setup();
        let contract_id = test.create_contract();
        test.fund_contract(contract_id);
        (test, contract_id)
    }
}

// Initialization tests
#[test]
fn milestone_test_initialize_success() {
    let admin = Address::new("admin");
    let mut contract = MilestonePaymentContract::new();
    let result = contract.initialize(admin.clone());
    assert_eq!(result, Ok(()));
    assert_eq!(contract.admin, Some(admin));
}

#[test]
fn milestone_test_initialize_duplicate() {
    let mut test = MilestoneTest::setup();
    let result = test.contract.initialize(test.admin.clone());
    assert!(result.is_err());
    assert_eq!(result.unwrap_err(), ContractError::AlreadyInitialized);
}

// Contract creation tests
#[test]
fn test_create_contract_success() {
    let mut test = MilestoneTest::setup();
    let contract_id = test.create_contract();

    let contract_data = test.get_contract(contract_id);
    assert_eq!(contract_data.buyer, test.buyer);
    assert_eq!(contract_data.seller, test.seller);
    assert_eq!(contract_data.total_amount, TOTAL_AMOUNT);
    assert_eq!(contract_data.status, ContractStatus::Created);
    assert_eq!(contract_data.milestone_count, 3);
}

#[test]
fn test_create_contract_zero_amount() {
    let mut test = MilestoneTest::setup();
    let (buyer, seller, milestones) = (test.buyer.clone(), test.seller.clone(), test.milestones.clone());
    let result = test.try_create_contract(&buyer, &seller, 0, &milestones);
    assert!(result.is_err());
    assert_eq!(result.unwrap_err(), Ok(ContractError::InvalidAmount));
}

#[test]
fn test_create_contract_same_buyer_seller() {
    let mut test = MilestoneTest::setup();
    let (buyer, milestones) = (test.buyer.clone(), test.milestones.clone());
    let result = test.try_create_contract(&buyer, &buyer, TOTAL_AMOUNT, &milestones);
    assert!(result.is_err());
    assert_eq!(result.unwrap_err(), Ok(ContractError::InvalidInput));
}

#[test]
fn test_create_contract_milestone_amount_mismatch() {
    let mut test = MilestoneTest::setup();
    let wrong_total = TOTAL_AMOUNT + 100;
    let (buyer, seller, milestones) = (test.buyer.clone(), test.seller.clone(), test.milestones.clone());
    let result = test.try_create_contract(&buyer, &seller, wrong_total, &milestones);
    assert!(result.is_err());
    assert_eq!(result.unwrap_err(), Ok(ContractError::TotalAmountMismatch));
}

#[test]
fn test_create_contract_empty_milestones() {
    let mut test = MilestoneTest::setup();
    let empty_milestones = vec![];
    let (buyer, seller) = (test.buyer.clone(), test.seller.clone());
    let result = test.try_create_contract(&buyer, &seller, TOTAL_AMOUNT, &empty_milestones);
    assert!(result.is_err());
    // no milestones add up to nothing, which is not the total
    assert_eq!(result.unwrap_err(), Ok(ContractError::TotalAmountMismatch));
}

#[test]
fn test_create_contract_zero_milestone_amount() {
    let mut test = MilestoneTest::setup();
    let invalid_milestones = vec![milestone("Invalid milestone", 0, "Invalid criteria")];
    let (buyer, seller) = (test.buyer.clone(), test.seller.clone());
    let result = test.try_create_contract(&buyer, &seller, TOTAL_AMOUNT, &invalid_milestones);
    assert!(result.is_err());
    assert_eq!(result.unwrap_err(), Ok(ContractError::InvalidAmount));
}

// Fund contract tests
#[test]
fn test_test_fund_contract_success() {
    let mut test = MilestoneTest::setup();
    let contract_id = test.create_contract();

    let buyer_balance_before = test.token.balance(&test.buyer);
    let contract_balance_before = test.token.held();

    test.fund_contract(contract_id);

    assert_eq!(test.token.balance(&test.buyer), buyer_balance_before - TOTAL_AMOUNT as i128);
    assert_eq!(test.token.held(), contract_balance_before + TOTAL_AMOUNT as i128);

    let contract_data = test.get_contract(contract_id);
    assert_eq!(contract_data.status, ContractStatus::Funded);
    assert_eq!(contract_data.escrowed_amount, TOTAL_AMOUNT);
}

#[test]
fn test_test_fund_contract_non_buyer() {
    let mut test = MilestoneTest::setup();
    let contract_id = test.create_contract();
    let seller = test.seller.clone();
    let result = test.try_fund_contract(contract_id, &seller);
    assert!(result.is_err());
    assert_eq!(result.unwrap_err(), Ok(ContractError::BuyerOnly));
}

#[test]
fn test_test_fund_contract_already_funded() {
    let mut test = MilestoneTest::setup();
    let contract_id = test.create_contract();
    test.fund_contract(contract_id);
    let buyer = test.buyer.clone();
    let result = test.try_fund_contract(contract_id, &buyer);
    assert!(result.is_err());
    assert_eq!(result.unwrap_err(), Ok(ContractError::ContractAlreadyFunded));
}

#[test]
fn test_test_fund_nonexistent_contract() {
    let mut test = MilestoneTest::setup();
    let buyer = test.buyer.clone();
    let result = test.try_fund_contract(999, &buyer);
    assert!(result.is_err());
    assert_eq!(result.unwrap_err(), Ok(ContractError::ContractNotFound));
}

// Milestone completion tests
#[test]
fn test_complete_milestone_success() {
    let (mut test, contract_id) = MilestoneTest::setup_with_funded_contract();
    let seller = test.seller.clone();
    test.try_complete_milestone(contract_id, 0, &seller).unwrap();

    let milestone = test.get_milestone(contract_id, 0);
    assert_eq!(milestone.status, MilestoneStatus::Completed);
    assert!(milestone.completed_at.is_some());
}

#[test]
fn test_complete_milestone_unfunded_contract() {
    let mut test = MilestoneTest::setup();
    let contract_id = test.create_contract();
    let seller = test.seller.clone();
    let result = test.try_complete_milestone(contract_id, 0, &seller);
    assert!(result.is_err());
    assert_eq!(result.unwrap_err(), Ok(ContractError::ContractNotFunded));
}

#[test]
fn test_complete_milestone_non_seller() {
    let (mut test, contract_id) = MilestoneTest::setup_with_funded_contract();
    let buyer = test.buyer.clone();
    let result = test.try_complete_milestone(contract_id, 0, &buyer);
    assert!(result.is_err());
    assert_eq!(result.unwrap_err(), Ok(ContractError::SellerOnly));
}

#[test]
fn test_complete_milestone_already_completed() {
    let (mut test, contract_id) = MilestoneTest::setup_with_funded_contract();
    let seller = test.seller.clone();
    test.try_complete_milestone(contract_id, 0, &seller).unwrap();
    let result = test.try_complete_milestone(contract_id, 0, &seller);
    assert!(result.is_err());
    assert_eq!(result.unwrap_err(), Ok(ContractError::MilestoneAlreadyCompleted));
}

#[test]
fn test_complete_nonexistent_milestone() {
    let (mut test, contract_id) = MilestoneTest::setup_with_funded_contract();
    let seller = test.seller.clone();
    let result = test.try_complete_milestone(contract_id, 999, &seller);
    assert!(result.is_err());
    assert_eq!(result.unwrap_err(), Ok(ContractError::MilestoneNotFound));
}

// Milestone approval and fund release tests
#[test]
fn test_approve_milestone_success() {
    let (mut test, contract_id) = MilestoneTest::setup_with_funded_contract();
    let (buyer, seller) = (test.buyer.clone(), test.seller.clone());
    test.try_complete_milestone(contract_id, 0, &seller).unwrap();

    let seller_balance_before = test.token.balance(&test.seller);
    let contract_balance_before = test.token.held();

    test.try_approve_milestone(contract_id, 0, &buyer).unwrap();

    assert_eq!(test.token.balance(&test.seller), seller_balance_before + MILESTONE_AMOUNT_1 as i128);
    assert_eq!(test.token.held(), contract_balance_before - MILESTONE_AMOUNT_1 as i128);

    let milestone = test.get_milestone(contract_id, 0);
    assert_eq!(milestone.status, MilestoneStatus::Approved);

    let contract_data = test.get_contract(contract_id);
    assert_eq!(contract_data.released_amount, MILESTONE_AMOUNT_1);
    assert_eq!(contract_data.escrowed_amount, TOTAL_AMOUNT - MILESTONE_AMOUNT_1);
}

#[test]
fn test_approve_milestone_non_buyer() {
    let (mut test, contract_id) = MilestoneTest::setup_with_funded_contract();
    let seller = test.seller.clone();
    test.try_complete_milestone(contract_id, 0, &seller).unwrap();
    let result = test.try_approve_milestone(contract_id, 0, &seller);
    assert!(result.is_err());
    assert_eq!(result.unwrap_err(), Ok(ContractError::BuyerOnly));
}

#[test]
fn test_approve_milestone_not_completed() {
    let (mut test, contract_id) = MilestoneTest::setup_with_funded_contract();
    let buyer = test.buyer.clone();
    let result = test.try_approve_milestone(contract_id, 0, &buyer);
    assert!(result.is_err());
    assert_eq!(result.unwrap_err(), Ok(ContractError::MilestoneNotCompleted));
}

#[test]
fn test_complete_all_milestones_contract_completion() {
    let (mut test, contract_id) = MilestoneTest::setup_with_funded_contract();
    let (buyer, seller) = (test.buyer.clone(), test.seller.clone());

    // Complete and approve all milestones
    for i in 0..3u32 {
        test.try_complete_milestone(contract_id, i, &seller).unwrap();
        test.try_approve_milestone(contract_id, i, &buyer).unwrap();
    }

    let contract_data = test.get_contract(contract_id);
    assert_eq!(contract_data.status, ContractStatus::Completed);
    assert_eq!(contract_data.released_amount, TOTAL_AMOUNT);
    assert_eq!(contract_data.escrowed_amount, 0);
    assert!(contract_data.completed_at.is_some());
}

// Dispute tests
#[test]
fn test_dispute_milestone_success() {
    let (mut test, contract_id) = MilestoneTest::setup_with_funded_contract();
    let (buyer, seller) = (test.buyer.clone(), test.seller.clone());
    test.try_complete_milestone(contract_id, 0, &seller).unwrap();

    let dispute_reason = "Work not satisfactory";
    test.try_dispute_milestone(contract_id, 0, &buyer, dispute_reason).unwrap();

    let milestone = test.get_milestone(contract_id, 0);
    assert_eq!(milestone.status, MilestoneStatus::Disputed);
    assert_eq!(milestone.dispute_reason, Some(dispute_reason.to_string()));
    assert!(milestone.disputed_at.is_some());
}

#[test]
fn test_dispute_milestone_non_participant() {
    let (mut test, contract_id) = MilestoneTest::setup_with_funded_contract();
    let seller = test.seller.clone();
    test.try_complete_milestone(contract_id, 0, &seller).unwrap();

    let outsider = Address::new("outsider");
    let result = test.try_dispute_milestone(contract_id, 0, &outsider, "Unauthorized dispute");
    assert!(result.is_err());
    assert_eq!(result.unwrap_err(), Ok(ContractError::ParticipantOnly));
}

#[test]
fn test_dispute_milestone_not_completed() {
    let (mut test, contract_id) = MilestoneTest::setup_with_funded_contract();
    let buyer = test.buyer.clone();
    let result = test.try_dispute_milestone(contract_id, 0, &buyer, "Premature dispute");
    assert!(result.is_err());
    assert_eq!(result.unwrap_err(), Ok(ContractError::MilestoneNotCompleted));
}

// Dispute resolution tests
#[test]
fn test_resolve_dispute_approve() {
    let (mut test, contract_id) = MilestoneTest::setup_with_funded_contract();
    let (buyer, seller, admin) = (test.buyer.clone(), test.seller.clone(), test.admin.clone());
    test.try_complete_milestone(contract_id, 0, &seller).unwrap();
    test.try_dispute_milestone(contract_id, 0, &buyer, "Work not satisfactory").unwrap();

    let seller_balance_before = test.token.balance(&test.seller);

    test.try_resolve_dispute(contract_id, 0, &admin, true).unwrap();

    assert_eq!(test.token.balance(&test.seller), seller_balance_before + MILESTONE_AMOUNT_1 as i128);

    let milestone = test.get_milestone(contract_id, 0);
    assert_eq!(milestone.status, MilestoneStatus::Approved);
}

#[test]
fn test_resolve_dispute_reject() {
    let (mut test, contract_id) = MilestoneTest::setup_with_funded_contract();
    let (buyer, seller, admin) = (test.buyer.clone(), test.seller.clone(), test.admin.clone());
    test.try_complete_milestone(contract_id, 0, &seller).unwrap();
    test.try_dispute_milestone(contract_id, 0, &buyer, "Work not satisfactory").unwrap();

    let seller_balance_before = test.token.balance(&test.seller);
    let buyer_balance_before = test.token.balance(&test.buyer);

    test.try_resolve_dispute(contract_id, 0, &admin, false).unwrap();

    assert_eq!(test.token.balance(&test.seller), seller_balance_before);

    let milestone = test.get_milestone(contract_id, 0);
    assert_eq!(milestone.status, MilestoneStatus::Resolved);

    // the amount of the milestone is back with the buyer
    assert_eq!(test.token.balance(&test.buyer), buyer_balance_before + MILESTONE_AMOUNT_1 as i128);
    let contract_data = test.get_contract(contract_id);
    assert_eq!(contract_data.escrowed_amount, TOTAL_AMOUNT - MILESTONE_AMOUNT_1);
    assert_eq!(contract_data.released_amount, 0);
    assert_eq!(test.token.held(), (TOTAL_AMOUNT - MILESTONE_AMOUNT_1) as i128);
}

#[test]
fn test_resolve_dispute_non_admin() {
    let (mut test, contract_id) = MilestoneTest::setup_with_funded_contract();
    let (buyer, seller) = (test.buyer.clone(), test.seller.clone());
    test.try_complete_milestone(contract_id, 0, &seller).unwrap();
    test.try_dispute_milestone(contract_id, 0, &buyer, "Work not satisfactory").unwrap();

    let result = test.try_resolve_dispute(contract_id, 0, &buyer, true);
    assert!(result.is_err());
    assert_eq!(result.unwrap_err(), Ok(ContractError::AdminOnly));
}

#[test]
fn test_resolve_dispute_not_disputed() {
    let (mut test, contract_id) = MilestoneTest::setup_with_funded_contract();
    let (seller, admin) = (test.seller.clone(), test.admin.clone());
    test.try_complete_milestone(contract_id, 0, &seller).unwrap();

    let result = test.try_resolve_dispute(contract_id, 0, &admin, true);
    assert!(result.is_err());
    assert_eq!(result.unwrap_err(), Ok(ContractError::MilestoneNotDisputed));
}

// Contract cancellation tests
#[test]
fn test_test_cancel_contract_success() {
    let mut test = MilestoneTest::setup();
    let contract_id = test.create_contract();
    test.fund_contract(contract_id);
    let buyer = test.buyer.clone();

    let buyer_balance_before = test.token.balance(&test.buyer);

    test.try_cancel_contract(contract_id, &buyer).unwrap();

    assert_eq!(test.token.balance(&test.buyer), buyer_balance_before + TOTAL_AMOUNT as i128);

    let contract_data = test.get_contract(contract_id);
    assert_eq!(contract_data.status, ContractStatus::Cancelled);
    assert_eq!(contract_data.escrowed_amount, 0);
    assert!(contract_data.cancelled_at.is_some());
}

#[test]
fn test_cancel_contract_partial_refund() {
    let (mut test, contract_id) = MilestoneTest::setup_with_funded_contract();
    let (buyer, seller) = (test.buyer.clone(), test.seller.clone());

    // Complete and approve one milestone
    test.try_complete_milestone(contract_id, 0, &seller).unwrap();
    test.try_approve_milestone(contract_id, 0, &buyer).unwrap();

    let buyer_balance_before = test.token.balance(&test.buyer);
    let expected_refund = TOTAL_AMOUNT - MILESTONE_AMOUNT_1;

    test.try_cancel_contract(contract_id, &buyer).unwrap();

    assert_eq!(test.token.balance(&test.buyer), buyer_balance_before + expected_refund as i128);
}

#[test]
fn test_test_cancel_contract_non_participant() {
    let (mut test, contract_id) = MilestoneTest::setup_with_funded_contract();
    let outsider = Address::new("outsider");
    let result = test.try_cancel_contract(contract_id, &outsider);
    assert!(result.is_err());
    assert_eq!(result.unwrap_err(), Ok(ContractError::ParticipantOnly));
}

#[test]
fn test_test_cancel_completed_contract() {
    let (mut test, contract_id) = MilestoneTest::setup_with_funded_contract();
    let (buyer, seller) = (test.buyer.clone(), test.seller.clone());

    // Complete all milestones
    for i in 0..3u32 {
        test.try_complete_milestone(contract_id, i, &seller).unwrap();
        test.try_approve_milestone(contract_id, i, &buyer).unwrap();
    }

    let result = test.try_cancel_contract(contract_id, &buyer);
    assert!(result.is_err());
    assert_eq!(result.unwrap_err(), Ok(ContractError::OperationNotAllowed));
}

#[test]
fn test_cancel_already_cancelled_contract() {
    let (mut test, contract_id) = MilestoneTest::setup_with_funded_contract();
    let buyer = test.buyer.clone();
    test.try_cancel_contract(contract_id, &buyer).unwrap();

    let result = test.try_cancel_contract(contract_id, &buyer);
    assert!(result.is_err());
    assert_eq!(result.unwrap_err(), Ok(ContractError::OperationNotAllowed));
}

// Edge case tests
#[test]
fn test_milestone_exceeding_total_payment() {
    let mut test = MilestoneTest::setup();
    let excessive_milestones =
        vec![milestone("Excessive milestone", TOTAL_AMOUNT + 1, "Too much money")];
    let (buyer, seller) = (test.buyer.clone(), test.seller.clone());
    let result = test.try_create_contract(&buyer, &seller, TOTAL_AMOUNT, &excessive_milestones);
    assert!(result.is_err());
    assert_eq!(result.unwrap_err(), Ok(ContractError::TotalAmountMismatch));
}

#[test]
fn test_test_get_user_contracts_pagination() {
    let mut test = MilestoneTest::setup();

    // Create multiple contracts
    let mut contract_ids = vec![];
    for _ in 0..5 {
        let contract_id = test.create_contract();
        contract_ids.push(contract_id);
    }

    // Test pagination
    let first_page = test.contract.get_user_contracts(&test.buyer, 0, 3).unwrap();
    assert_eq!(first_page.len(), 3);

    let second_page = test.contract.get_user_contracts(&test.buyer, 3, 3).unwrap();
    assert_eq!(second_page.len(), 2);
}

#[test]
fn test_get_contract_milestones() {
    let (test, contract_id) = MilestoneTest::setup_with_funded_contract();

    let milestones = test.contract.get_contract_milestones(contract_id).unwrap();
    assert_eq!(milestones.len(), 3);

    for (i, milestone) in milestones.iter().enumerate() {
        assert_eq!(milestone.id, i as u32);
        assert_eq!(milestone.status, MilestoneStatus::Pending);
    }
}

#[test]
fn test_test_fund_contract_insufficient_balance() {
    let mut test = MilestoneTest::setup();

    // Create buyer with insufficient balance
    let poor_buyer = Address::new("poor buyer");
    let (seller, milestones) = (test.seller.clone(), test.milestones.clone());
    let contract_id =
        test.try_create_contract(&poor_buyer, &seller, TOTAL_AMOUNT, &milestones).unwrap();

    // This should fail due to insufficient balance
    let result = test.try_fund_contract(contract_id, &poor_buyer);
    assert!(result.is_err());
    // The failure comes from the token, and the contract is as it was
    assert_eq!(result.unwrap_err(), Err(TransferFailed));
    assert_eq!(test.get_contract(contract_id).status, ContractStatus::Created);
}

#[test]
fn test_unauthorized_access_protection() {
    let (mut test, contract_id) = MilestoneTest::setup_with_funded_contract();
    let unauthorized = Address::new("unauthorized");
    let seller = test.seller.clone();

    // Test various unauthorized access attempts
    let result = test.try_complete_milestone(contract_id, 0, &unauthorized);
    assert!(result.is_err());
    assert_eq!(result.unwrap_err(), Ok(ContractError::SellerOnly));

    test.try_complete_milestone(contract_id, 0, &seller).unwrap();

    let result = test.try_approve_milestone(contract_id, 0, &unauthorized);
    assert!(result.is_err());
    assert_eq!(result.unwrap_err(), Ok(ContractError::BuyerOnly));

    let result = test.try_dispute_milestone(contract_id, 0, &unauthorized, "Unauthorized dispute");
    assert!(result.is_err());
    assert_eq!(result.unwrap_err(), Ok(ContractError::ParticipantOnly));
}

// ----- further cases -----

#[test]
fn milestone_created_records_are_exact() {
    let mut test = MilestoneTest::setup();
    test.now = 9;
    let id = test.create_contract();
    assert_eq!(id, 1);
    assert_eq!(
        test.get_contract(id),
        Contract {
            id: 1,
            buyer: Address::new("buyer"),
            seller: Address::new("seller"),
            token: Address::new("token"),
            total_amount: 1000,
            escrowed_amount: 0,
            released_amount: 0,
            status: ContractStatus::Created,
            created_at: 9,
            funded_at: None,
            completed_at: None,
            cancelled_at: None,
            milestone_count: 3,
        }
    );
    assert_eq!(
        test.get_milestone(id, 1),
        Milestone {
            id: 1,
            description: String::from("Second milestone"),
            amount: 300,
            release_criteria: String::from("Complete testing phase"),
            status: MilestoneStatus::Pending,
            completed_at: None,
            approved_at: None,
            dispute_reason: None,
            disputed_at: None,
        }
    );
    assert_eq!(test.contract.get_milestone(id, 3).unwrap_err(), ContractError::MilestoneNotFound);
    assert_eq!(test.contract.get_milestone(7, 0).unwrap_err(), ContractError::MilestoneNotFound);
    assert_eq!(test.contract.get_contract(7).unwrap_err(), ContractError::ContractNotFound);
    assert_eq!(test.contract.get_contract_milestones(7), Ok(vec![]));
}

#[test]
fn milestone_validation_names_each_fault() {
    let three = MilestoneTest::setup().milestones;
    assert_eq!(validate_milestones(&three, 1000), Ok(()));
    assert_eq!(validate_milestones(&three, 999), Err(ContractError::TotalAmountMismatch));
    assert_eq!(validate_milestones(&three, 1001), Err(ContractError::TotalAmountMismatch));
    assert_eq!(validate_milestones(&vec![], 0), Err(ContractError::InvalidMilestoneData));
    assert_eq!(validate_milestones(&vec![], 1000), Err(ContractError::TotalAmountMismatch));
    assert_eq!(validate_milestones(&vec![], 1), Err(ContractError::TotalAmountMismatch));
    // a milestone without amount is refused even where the sum is right
    let with_zero = vec![milestone("a", 1000, "x"), milestone("b", 0, "y")];
    assert_eq!(validate_milestones(&with_zero, 1000), Err(ContractError::InvalidAmount));
    // a sum that cannot be represented is refused as an amount
    let too_much = vec![milestone("a", u128::MAX, "x"), milestone("b", 1, "y")];
    assert_eq!(validate_milestones(&too_much, u128::MAX), Err(ContractError::InvalidAmount));
    let just_fits = vec![milestone("a", u128::MAX - 1, "x"), milestone("b", 1, "y")];
    assert_eq!(validate_milestones(&just_fits, u128::MAX), Ok(()));
}

#[test]
fn milestone_transfers_and_times_are_exact() {
    let mut test = MilestoneTest::setup();
    let id = test.create_contract();
    let (buyer, seller) = (test.buyer.clone(), test.seller.clone());
    assert_eq!(
        test.contract.fund_contract(id, &buyer, 3),
        Ok(Transfer::Deposit { from: buyer.clone(), asset: Address::new("token"), amount: 1000 })
    );
    assert_eq!(test.get_contract(id).funded_at, Some(3));
    assert_eq!(test.contract.complete_milestone(id, 1, &seller, 4), Ok(()));
    assert_eq!(test.get_milestone(id, 1).completed_at, Some(4));
    assert_eq!(
        test.contract.approve_milestone(id, 1, &buyer, 5),
        Ok(Transfer::Payout { to: seller.clone(), asset: Address::new("token"), amount: 300 })
    );
    assert_eq!(test.get_milestone(id, 1).approved_at, Some(5));
    let contract = test.get_contract(id);
    assert_eq!(contract.released_amount, 300);
    assert_eq!(contract.escrowed_amount, 700);
    assert_eq!(contract.status, ContractStatus::Funded);
    assert_eq!(
        test.contract.cancel_contract(id, &seller, 6),
        Ok(Transfer::Payout { to: buyer.clone(), asset: Address::new("token"), amount: 700 })
    );
    let contract = test.get_contract(id);
    assert_eq!(contract.cancelled_at, Some(6));
    assert_eq!(contract.released_amount, 300);
    assert_eq!(contract.escrowed_amount, 0);
}

#[test]
fn milestone_custody_adds_up_after_every_step() {
    let (mut test, id) = MilestoneTest::setup_with_funded_contract();
    let (buyer, seller) = (test.buyer.clone(), test.seller.clone());
    for i in 0..3u32 {
        test.try_complete_milestone(id, i, &seller).unwrap();
        let c = test.get_contract(id);
        assert_eq!(c.escrowed_amount + c.released_amount, c.total_amount);
        assert_eq!(c.escrowed_amount as i128, test.token.held());
        test.try_approve_milestone(id, i, &buyer).unwrap();
        let c = test.get_contract(id);
        assert_eq!(c.escrowed_amount + c.released_amount, c.total_amount);
        assert_eq!(c.escrowed_amount as i128, test.token.held());
        assert_eq!(c.released_amount as i128, test.token.balance(&seller));
    }
    assert!(test.get_contract(id).status.terminal());
    assert_eq!(test.token.held(), 0);
}

#[test]
fn milestone_approved_twice_is_not_paid_twice() {
    let (mut test, id) = MilestoneTest::setup_with_funded_contract();
    let (buyer, seller) = (test.buyer.clone(), test.seller.clone());
    test.try_complete_milestone(id, 0, &seller).unwrap();
    test.try_approve_milestone(id, 0, &buyer).unwrap();
    assert_eq!(test.try_approve_milestone(id, 0, &buyer).unwrap_err(), Ok(ContractError::MilestoneNotCompleted));
    assert_eq!(test.token.balance(&seller), 500);
}

#[test]
fn milestone_dispute_after_cancellation_cannot_release() {
    let (mut test, id) = MilestoneTest::setup_with_funded_contract();
    let (buyer, seller, admin) = (test.buyer.clone(), test.seller.clone(), test.admin.clone());
    test.try_complete_milestone(id, 2, &seller).unwrap();
    test.try_cancel_contract(id, &buyer).unwrap();
    // the milestone can still be disputed, but nothing is left to release or to return
    test.try_dispute_milestone(id, 2, &seller, "it was done").unwrap();
    assert_eq!(test.try_resolve_dispute(id, 2, &admin, true).unwrap_err(), Ok(ContractError::InvalidAmount));
    assert_eq!(test.try_resolve_dispute(id, 2, &admin, false).unwrap_err(), Ok(ContractError::InvalidAmount));
    assert_eq!(test.get_milestone(id, 2).status, MilestoneStatus::Disputed);
    assert_eq!(test.get_contract(id).status, ContractStatus::Cancelled);
    assert_eq!(test.token.balance(&buyer), 1000);
}

#[test]
fn milestone_rejected_dispute_returns_the_amount_once() {
    let (mut test, id) = MilestoneTest::setup_with_funded_contract();
    let (buyer, seller, admin) = (test.buyer.clone(), test.seller.clone(), test.admin.clone());
    test.try_complete_milestone(id, 0, &seller).unwrap();
    test.try_dispute_milestone(id, 0, &buyer, "not as agreed").unwrap();
    assert_eq!(
        test.contract.resolve_dispute(id, 0, &admin, false, 7),
        Ok(Transfer::Payout { to: buyer.clone(), asset: Address::new("token"), amount: 500 })
    );
    let contract = test.get_contract(id);
    assert_eq!((contract.escrowed_amount, contract.released_amount), (500, 0));
    assert_eq!(contract.status, ContractStatus::Funded);
    // the dispute is closed: it cannot be decided again, and the milestone cannot be approved
    assert_eq!(test.try_resolve_dispute(id, 0, &admin, false).unwrap_err(), Ok(ContractError::MilestoneNotDisputed));
    assert_eq!(test.try_resolve_dispute(id, 0, &admin, true).unwrap_err(), Ok(ContractError::MilestoneNotDisputed));
    assert_eq!(test.try_approve_milestone(id, 0, &buyer).unwrap_err(), Ok(ContractError::MilestoneNotCompleted));
    // the other milestones go on, and a cancellation returns what is left
    test.try_complete_milestone(id, 1, &seller).unwrap();
    assert_eq!(
        test.contract.approve_milestone(id, 1, &buyer, 8),
        Ok(Transfer::Payout { to: seller.clone(), asset: Address::new("token"), amount: 300 })
    );
    assert_eq!(test.get_contract(id).status, ContractStatus::Funded);
    assert_eq!(
        test.contract.cancel_contract(id, &buyer, 9),
        Ok(Transfer::Payout { to: buyer.clone(), asset: Address::new("token"), amount: 200 })
    );
    let contract = test.get_contract(id);
    assert_eq!((contract.escrowed_amount, contract.released_amount), (0, 300));
}

#[test]
fn milestone_resolved_in_favour_completes_the_contract() {
    let (mut test, id) = MilestoneTest::setup_with_funded_contract();
    let (buyer, seller, admin) = (test.buyer.clone(), test.seller.clone(), test.admin.clone());
    for i in 0..2u32 {
        test.try_complete_milestone(id, i, &seller).unwrap();
        test.try_approve_milestone(id, i, &buyer).unwrap();
    }
    test.try_complete_milestone(id, 2, &seller).unwrap();
    test.try_dispute_milestone(id, 2, &buyer, "not yet").unwrap();
    test.now = 50;
    assert_eq!(
        test.contract.resolve_dispute(id, 2, &admin, true, test.now),
        Ok(Transfer::Payout { to: seller.clone(), asset: Address::new("token"), amount: 200 })
    );
    let contract = test.get_contract(id);
    assert_eq!(contract.status, ContractStatus::Completed);
    assert_eq!(contract.completed_at, Some(50));
    assert_eq!(contract.released_amount, 1000);
}

#[test]
fn milestone_admin_is_checked_first() {
    let mut test = MilestoneTest::setup();
    let (buyer, admin) = (test.buyer.clone(), test.admin.clone());
    assert_eq!(test.try_resolve_dispute(999, 0, &buyer, true).unwrap_err(), Ok(ContractError::AdminOnly));
    assert_eq!(test.try_resolve_dispute(999, 0, &admin, true).unwrap_err(), Ok(ContractError::ContractNotFound));
    let id = test.create_contract();
    assert_eq!(test.try_resolve_dispute(id, 9, &admin, true).unwrap_err(), Ok(ContractError::MilestoneNotFound));
}

#[test]
fn milestone_pages_hold_the_identifiers_in_order() {
    let mut test = MilestoneTest::setup();
    for _ in 0..5 {
        test.create_contract();
    }
    assert_eq!(test.contract.get_user_contracts(&test.buyer, 0, 3), Ok(vec![1, 2, 3]));
    assert_eq!(test.contract.get_user_contracts(&test.seller, 3, 3), Ok(vec![4, 5]));
    assert_eq!(test.contract.get_user_contracts(&test.seller, 6, 3), Ok(vec![]));
    assert_eq!(test.contract.get_user_contracts(&test.admin, 0, 3), Ok(vec![]));
}

#[test]
fn milestone_contract_is_listed_for_its_participants() {
    let mut test = MilestoneTest::setup();
    let id = test.create_contract();
    let contract = test.get_contract(id);
    assert_eq!(contract.listed_parties(), vec![Address::new("buyer"), Address::new("seller")]);
    assert!(contract.participant(&test.buyer) && contract.participant(&test.seller));
    assert!(!contract.participant(&test.admin));
}
