use std::collections::HashMap;

use escrow_contracts::address::Address;
use escrow_contracts::custody::Transfer;
use escrow_contracts::escrow_arbitration::{
    ContractError, Escrow, EscrowArbitrationContract, EscrowStatus,
};

const ESCROW_AMOUNT: u128 = 1000;
const TEST_DESCRIPTION: &str = "Test escrow transaction";

/// The key under which the token keeps what the engine holds in custody.
const CUSTODY: &str = "escrow-engine";

/// The transfer could not be carried out.
#[derive(Debug, PartialEq, Eq)]
struct TransferFailed;

/// A fungible token that carries out the transfers that the engine asks for.
struct Token {
    address: Address,
    balances: HashMap<String, i128>,
}

impl Token {
    fn new(key: &str) -> Token {
        Token { address: Address::new(key), balances: HashMap::new() }
    }

    fn mint(&mut self, to: &Address, amount: i128) {
        *self.balances.entry(to.key.clone()).or_insert(0) += amount;
    }

    fn balance(&self, who: &Address) -> i128 {
        self.balances.get(&who.key).copied().unwrap_or(0)
    }

    fn held(&self) -> i128 {
        self.balances.get(CUSTODY).copied().unwrap_or(0)
    }

    fn move_value(&mut self, from: &str, to: &str, amount: u128) -> Result<(), TransferFailed> {
        let amount = i128::try_from(amount).map_err(|_| TransferFailed)?;
        let available = self.balances.get(from).copied().unwrap_or(0);
        if available < amount {
            return Err(TransferFailed);
        }
        *self.balances.entry(from.to_string()).or_insert(0) -= amount;
        *self.balances.entry(to.to_string()).or_insert(0) += amount;
        Ok(())
    }

    fn carry_out(&mut self, transfer: &Transfer) -> Result<(), TransferFailed> {
        match transfer {
            Transfer::Nothing => Ok(()),
            Transfer::Deposit { from, asset, amount } => {
                assert_eq!(asset, &self.address);
                self.move_value(&from.key, CUSTODY, *amount)
            }
            Transfer::Payout { to, asset, amount } => {
                assert_eq!(asset, &self.address);
                self.move_value(CUSTODY, &to.key, *amount)
            }
        }
    }
}

type CallResult<T> = Result<T, Result<ContractError, TransferFailed>>;

struct EscrowTest {
    now: u64,
    admin: Address,
    buyer: Address,
    seller: Address,
    arbitrator: Address,
    token: Token,
    contract: EscrowArbitrationContract,
    description: String,
}

impl EscrowTest {
    fn setup() -> Self {
        let admin = Address::new("admin");
        let buyer = Address::new("buyer");
        let seller = Address::new("seller");
        let arbitrator = Address::new("arbitrator");
        let mut token = Token::new("token");
        token.mint(&buyer, ESCROW_AMOUNT as i128);
        let mut contract = EscrowArbitrationContract::new();
        let _ = contract.initialize(admin.clone());
        EscrowTest {
            now: 0,
            admin,
            buyer,
            seller,
            arbitrator,
            token,
            contract,
            description: String::from(TEST_DESCRIPTION),
        }
    }

    /// Carries out the transfer of an accepted call; where that fails, the
    /// whole call fails and the engine is as it was before.
    fn settle(
        &mut self,
        before: EscrowArbitrationContract,
        outcome: Result<Transfer, ContractError>,
    ) -> CallResult<()> {
        match outcome {
            Err(e) => Err(Ok(e)),
            Ok(transfer) => match self.token.carry_out(&transfer) {
                Ok(()) => Ok(()),
                Err(failed) => {
                    self.contract = before;
                    Err(Err(failed))
                }
            },
        }
    }

    fn try_create_escrow(
        &mut self,
        buyer: &Address,
        seller: &Address,
        arbitrator: &Address,
        amount: u128,
    ) -> CallResult<u64> {
        self.contract
            .create_escrow(
                buyer.clone(),
                seller.clone(),
                arbitrator.clone(),
                self.token.address.clone(),
                amount,
                self.description.clone(),
                self.now,
            )
            .map_err(Ok)
    }

    fn create_escrow(&mut self) -> u64 {
        let (buyer, seller, arbitrator) =
            (self.buyer.clone(), self.seller.clone(), self.arbitrator.clone());
        self.try_create_escrow(&buyer, &seller, &arbitrator, ESCROW_AMOUNT).unwrap()
    }

    fn try_deposit(&mut self, id: u64, who: &Address) -> CallResult<()> {
        let before = self.contract.clone();
        let outcome = self.contract.deposit(id, who, self.now);
        self.settle(before, outcome)
    }

    fn deposit_funds(&mut self, id: u64) {
        let buyer = self.buyer.clone();
        self.try_deposit(id, &buyer).unwrap();
    }

    fn try_release_funds(&mut self, id: u64, who: &Address) -> CallResult<()> {
        let before = self.contract.clone();
        let outcome = self.contract.release_funds(id, who, self.now);
        self.settle(before, outcome)
    }

    fn try_raise_dispute(&mut self, id: u64, who: &Address, reason: &str) -> CallResult<()> {
        self.contract.raise_dispute(id, who, reason.to_string(), self.now).map_err(Ok)
    }

    fn try_arbitrate(&mut self, id: u64, who: &Address, release_to_seller: bool) -> CallResult<()> {
        let before = self.contract.clone();
        let outcome = self.contract.arbitrate(id, who, release_to_seller, self.now);
        self.settle(before, outcome)
    }

    fn try_refund(&mut self, id: u64, who: &Address) -> CallResult<()> {
        let before = self.contract.clone();
        let outcome = self.contract.refund(id, who, self.now);
        self.settle(before, outcome)
    }

    fn get_escrow(&self, id: u64) -> Escrow {
        self.contract.get_escrow(id).unwrap()
    }

    fn setup_with_funded_escrow() -> (Self, u64) {
        let mut test = Self::setup();
        let escrow_id = test.create_escrow();
        test.deposit_funds(escrow_id);
        (test, escrow_id)
    }
}

// Initialization tests
#[test]
fn test_test_initialize_success() {
    let admin = Address::new("admin");
    let mut contract = EscrowArbitrationContract::new();
    let result = contract.initialize(admin.clone());
    assert_eq!(result, Ok(()));
    assert_eq!(contract.admin, Some(admin));
}

#[test]
fn test_test_initialize_duplicate() {
    let mut test = EscrowTest::setup();
    let result = test.contract.initialize(test.admin.clone());
    assert!(result.is_err());
    assert_eq!(result.unwrap_err(), ContractError::AlreadyInitialized);
}

// Escrow creation tests
#[test]
fn test_create_escrow_success() {
    let mut test = EscrowTest::setup();
    let escrow_id = test.create_escrow();

    let escrow = test.get_escrow(escrow_id);
    assert_eq!(escrow.buyer, test.buyer);
    assert_eq!(escrow.seller, test.seller);
    assert_eq!(escrow.arbitrator, test.arbitrator);
    assert_eq!(escrow.amount, ESCROW_AMOUNT);
    assert_eq!(escrow.status, EscrowStatus::Created);
    assert_eq!(escrow.description, test.description);
}

#[test]
fn test_create_escrow_zero_amount() {
    let mut test = EscrowTest::setup();
    let (buyer, seller, arbitrator) = (test.buyer.clone(), test.seller.clone(), test.arbitrator.clone());
    let result = test.try_create_escrow(&buyer, &seller, &arbitrator, 0);
    assert!(result.is_err());
    assert_eq!(result.unwrap_err(), Ok(ContractError::InvalidAmount));
}

#[test]
fn test_create_escrow_same_buyer_seller() {
    let mut test = EscrowTest::setup();
    let (buyer, arbitrator) = (test.buyer.clone(), test.arbitrator.clone());
    let result = test.try_create_escrow(&buyer, &buyer, &arbitrator, ESCROW_AMOUNT);
    assert!(result.is_err());
    assert_eq!(result.unwrap_err(), Ok(ContractError::InvalidInput));
}

#[test]
fn test_create_escrow_same_buyer_arbitrator() {
    let mut test = EscrowTest::setup();
    let (buyer, seller) = (test.buyer.clone(), test.seller.clone());
    let result = test.try_create_escrow(&buyer, &seller, &buyer, ESCROW_AMOUNT);
    assert!(result.is_err());
    assert_eq!(result.unwrap_err(), Ok(ContractError::InvalidInput));
}

#[test]
fn test_create_escrow_same_seller_arbitrator() {
    let mut test = EscrowTest::setup();
    let (buyer, seller) = (test.buyer.clone(), test.seller.clone());
    let result = test.try_create_escrow(&buyer, &seller, &seller, ESCROW_AMOUNT);
    assert!(result.is_err());
    assert_eq!(result.unwrap_err(), Ok(ContractError::InvalidInput));
}

// Deposit tests
#[test]
fn test_deposit_success() {
    let mut test = EscrowTest::setup();
    let escrow_id = test.create_escrow();

    let buyer_balance_before = test.token.balance(&test.buyer);
    let contract_balance_before = test.token.held();

    test.deposit_funds(escrow_id);

    assert_eq!(test.token.balance(&test.buyer), buyer_balance_before - ESCROW_AMOUNT as i128);
    assert_eq!(test.token.held(), contract_balance_before + ESCROW_AMOUNT as i128);

    let escrow = test.get_escrow(escrow_id);
    assert_eq!(escrow.status, EscrowStatus::Funded);
    assert!(escrow.funded_at.is_some());
}

#[test]
fn test_deposit_non_buyer() {
    let mut test = EscrowTest::setup();
    let escrow_id = test.create_escrow();
    let seller = test.seller.clone();
    let result = test.try_deposit(escrow_id, &seller);
    assert!(result.is_err());
    assert_eq!(result.unwrap_err(), Ok(ContractError::BuyerOnly));
}

#[test]
fn test_deposit_already_funded() {
    let mut test = EscrowTest::setup();
    let escrow_id = test.create_escrow();
    test.deposit_funds(escrow_id);
    let buyer = test.buyer.clone();
    let result = test.try_deposit(escrow_id, &buyer);
    assert!(result.is_err());
    assert_eq!(result.unwrap_err(), Ok(ContractError::EscrowAlreadyFunded));
}

#[test]
fn test_deposit_nonexistent_escrow() {
    let mut test = EscrowTest::setup();
    let buyer = test.buyer.clone();
    let result = test.try_deposit(999, &buyer);
    assert!(result.is_err());
    assert_eq!(result.unwrap_err(), Ok(ContractError::EscrowNotFound));
}

// Release funds tests
#[test]
fn test_release_funds_success() {
    let (mut test, escrow_id) = EscrowTest::setup_with_funded_escrow();
    let buyer = test.buyer.clone();

    let seller_balance_before = test.token.balance(&test.seller);
    let contract_balance_before = test.token.held();

    test.try_release_funds(escrow_id, &buyer).unwrap();

    assert_eq!(test.token.balance(&test.seller), seller_balance_before + ESCROW_AMOUNT as i128);
    assert_eq!(test.token.held(), contract_balance_before - ESCROW_AMOUNT as i128);

    let escrow = test.get_escrow(escrow_id);
    assert_eq!(escrow.status, EscrowStatus::Completed);
    assert!(escrow.completed_at.is_some());
}

#[test]
fn test_release_funds_non_buyer() {
    let (mut test, escrow_id) = EscrowTest::setup_with_funded_escrow();
    let seller = test.seller.clone();
    let result = test.try_release_funds(escrow_id, &seller);
    assert!(result.is_err());
    assert_eq!(result.unwrap_err(), Ok(ContractError::BuyerOnly));
}

#[test]
fn test_release_funds_not_funded() {
    let mut test = EscrowTest::setup();
    let escrow_id = test.create_escrow();
    let buyer = test.buyer.clone();
    let result = test.try_release_funds(escrow_id, &buyer);
    assert!(result.is_err());
    assert_eq!(result.unwrap_err(), Ok(ContractError::EscrowNotFunded));
}

// Dispute tests
#[test]
fn test_raise_dispute_by_buyer() {
    let (mut test, escrow_id) = EscrowTest::setup_with_funded_escrow();
    let buyer = test.buyer.clone();
    let dispute_reason = "Product not as described";
    test.try_raise_dispute(escrow_id, &buyer, dispute_reason).unwrap();

    let escrow = test.get_escrow(escrow_id);
    assert_eq!(escrow.status, EscrowStatus::Disputed);
    assert!(escrow.disputed_at.is_some());
    assert_eq!(escrow.dispute_reason, Some(dispute_reason.to_string()));
}

#[test]
fn test_raise_dispute_by_seller() {
    let (mut test, escrow_id) = EscrowTest::setup_with_funded_escrow();
    let seller = test.seller.clone();
    let dispute_reason = "Buyer not cooperating";
    test.try_raise_dispute(escrow_id, &seller, dispute_reason).unwrap();

    let escrow = test.get_escrow(escrow_id);
    assert_eq!(escrow.status, EscrowStatus::Disputed);
    assert_eq!(escrow.dispute_reason, Some(dispute_reason.to_string()));
}

#[test]
fn test_raise_dispute_non_participant() {
    let (mut test, escrow_id) = EscrowTest::setup_with_funded_escrow();
    let outsider = Address::new("outsider");
    let result = test.try_raise_dispute(escrow_id, &outsider, "Unauthorized dispute");
    assert!(result.is_err());
    assert_eq!(result.unwrap_err(), Ok(ContractError::ParticipantOnly));
}

#[test]
fn test_raise_dispute_not_funded() {
    let mut test = EscrowTest::setup();
    let escrow_id = test.create_escrow();
    let buyer = test.buyer.clone();
    let result = test.try_raise_dispute(escrow_id, &buyer, "Invalid dispute");
    assert!(result.is_err());
    assert_eq!(result.unwrap_err(), Ok(ContractError::EscrowNotFunded));
}

// Arbitration tests
#[test]
fn test_arbitrate_release_to_seller() {
    let (mut test, escrow_id) = EscrowTest::setup_with_funded_escrow();
    let (buyer, arbitrator) = (test.buyer.clone(), test.arbitrator.clone());
    test.try_raise_dispute(escrow_id, &buyer, "Dispute reason").unwrap();

    let seller_balance_before = test.token.balance(&test.seller);
    let contract_balance_before = test.token.held();

    test.try_arbitrate(escrow_id, &arbitrator, true).unwrap();

    assert_eq!(test.token.balance(&test.seller), seller_balance_before + ESCROW_AMOUNT as i128);
    assert_eq!(test.token.held(), contract_balance_before - ESCROW_AMOUNT as i128);

    let escrow = test.get_escrow(escrow_id);
    assert_eq!(escrow.status, EscrowStatus::Completed);
    assert!(escrow.completed_at.is_some());
}

#[test]
fn test_arbitrate_refund_to_buyer() {
    let (mut test, escrow_id) = EscrowTest::setup_with_funded_escrow();
    let (buyer, arbitrator) = (test.buyer.clone(), test.arbitrator.clone());
    test.try_raise_dispute(escrow_id, &buyer, "Dispute reason").unwrap();

    let buyer_balance_before = test.token.balance(&test.buyer);
    let contract_balance_before = test.token.held();

    test.try_arbitrate(escrow_id, &arbitrator, false).unwrap();

    assert_eq!(test.token.balance(&test.buyer), buyer_balance_before + ESCROW_AMOUNT as i128);
    assert_eq!(test.token.held(), contract_balance_before - ESCROW_AMOUNT as i128);

    // a decision for the buyer cancels the escrow
    let escrow = test.get_escrow(escrow_id);
    assert_eq!(escrow.status, EscrowStatus::Cancelled);
}

#[test]
fn test_arbitrate_non_arbitrator() {
    let (mut test, escrow_id) = EscrowTest::setup_with_funded_escrow();
    let buyer = test.buyer.clone();
    test.try_raise_dispute(escrow_id, &buyer, "Dispute reason").unwrap();

    let result = test.try_arbitrate(escrow_id, &buyer, true);
    assert!(result.is_err());
    assert_eq!(result.unwrap_err(), Ok(ContractError::ArbitratorOnly));
}

#[test]
fn test_arbitrate_not_disputed() {
    let (mut test, escrow_id) = EscrowTest::setup_with_funded_escrow();
    let arbitrator = test.arbitrator.clone();
    let result = test.try_arbitrate(escrow_id, &arbitrator, true);
    assert!(result.is_err());
    assert_eq!(result.unwrap_err(), Ok(ContractError::EscrowNotDisputed));
}

// Refund tests
#[test]
fn test_refund_by_buyer() {
    let (mut test, escrow_id) = EscrowTest::setup_with_funded_escrow();
    let buyer = test.buyer.clone();

    let buyer_balance_before = test.token.balance(&test.buyer);
    let contract_balance_before = test.token.held();

    test.try_refund(escrow_id, &buyer).unwrap();

    assert_eq!(test.token.balance(&test.buyer), buyer_balance_before + ESCROW_AMOUNT as i128);
    assert_eq!(test.token.held(), contract_balance_before - ESCROW_AMOUNT as i128);

    let escrow = test.get_escrow(escrow_id);
    assert_eq!(escrow.status, EscrowStatus::Cancelled);
    assert!(escrow.completed_at.is_some());
}

#[test]
fn test_refund_by_seller() {
    let (mut test, escrow_id) = EscrowTest::setup_with_funded_escrow();
    let seller = test.seller.clone();

    let buyer_balance_before = test.token.balance(&test.buyer);

    test.try_refund(escrow_id, &seller).unwrap();

    assert_eq!(test.token.balance(&test.buyer), buyer_balance_before + ESCROW_AMOUNT as i128);

    let escrow = test.get_escrow(escrow_id);
    assert_eq!(escrow.status, EscrowStatus::Cancelled);
}

#[test]
fn test_refund_non_participant() {
    let (mut test, escrow_id) = EscrowTest::setup_with_funded_escrow();
    let outsider = Address::new("outsider");
    let result = test.try_refund(escrow_id, &outsider);
    assert!(result.is_err());
    assert_eq!(result.unwrap_err(), Ok(ContractError::ParticipantOnly));
}

#[test]
fn test_refund_not_funded() {
    let mut test = EscrowTest::setup();
    let escrow_id = test.create_escrow();
    let buyer = test.buyer.clone();
    let result = test.try_refund(escrow_id, &buyer);
    assert!(result.is_err());
    assert_eq!(result.unwrap_err(), Ok(ContractError::OperationNotAllowed));
}

#[test]
fn test_refund_disputed_escrow() {
    let (mut test, escrow_id) = EscrowTest::setup_with_funded_escrow();
    let buyer = test.buyer.clone();
    test.try_raise_dispute(escrow_id, &buyer, "Dispute reason").unwrap();

    let result = test.try_refund(escrow_id, &buyer);
    assert!(result.is_err());
    assert_eq!(result.unwrap_err(), Ok(ContractError::OperationNotAllowed));
}

// Edge case tests
#[test]
fn test_duplicate_dispute_attempt() {
    let (mut test, escrow_id) = EscrowTest::setup_with_funded_escrow();
    let (buyer, seller) = (test.buyer.clone(), test.seller.clone());
    test.try_raise_dispute(escrow_id, &buyer, "First dispute").unwrap();

    let result = test.try_raise_dispute(escrow_id, &seller, "Second dispute");
    assert!(result.is_err());
    assert_eq!(result.unwrap_err(), Ok(ContractError::EscrowNotFunded));
}

#[test]
fn test_multiple_arbitration_attempts() {
    let (mut test, escrow_id) = EscrowTest::setup_with_funded_escrow();
    let (buyer, arbitrator) = (test.buyer.clone(), test.arbitrator.clone());
    test.try_raise_dispute(escrow_id, &buyer, "Dispute reason").unwrap();
    test.try_arbitrate(escrow_id, &arbitrator, true).unwrap();

    // Try to arbitrate again
    let result = test.try_arbitrate(escrow_id, &arbitrator, false);
    assert!(result.is_err());
    assert_eq!(result.unwrap_err(), Ok(ContractError::EscrowNotDisputed));
}

#[test]
fn test_operations_on_completed_escrow() {
    let (mut test, escrow_id) = EscrowTest::setup_with_funded_escrow();
    let buyer = test.buyer.clone();

    // Complete the escrow
    test.try_release_funds(escrow_id, &buyer).unwrap();

    // Try various operations on completed escrow
    let result = test.try_release_funds(escrow_id, &buyer);
    assert!(result.is_err());
    assert_eq!(result.unwrap_err(), Ok(ContractError::EscrowNotFunded));

    let result = test.try_raise_dispute(escrow_id, &buyer, "Invalid dispute");
    assert!(result.is_err());
    assert_eq!(result.unwrap_err(), Ok(ContractError::EscrowNotFunded));

    let result = test.try_refund(escrow_id, &buyer);
    assert!(result.is_err());
    assert_eq!(result.unwrap_err(), Ok(ContractError::OperationNotAllowed));
}

#[test]
fn test_get_user_escrows_pagination() {
    let mut test = EscrowTest::setup();

    // Create multiple escrows
    let mut escrow_ids = vec![];
    for _ in 0..5 {
        let escrow_id = test.create_escrow();
        escrow_ids.push(escrow_id);
    }

    // Test pagination
    let first_page = test.contract.get_user_escrows(&test.buyer, 0, 3).unwrap();
    assert_eq!(first_page.len(), 3);

    let second_page = test.contract.get_user_escrows(&test.buyer, 3, 3).unwrap();
    assert_eq!(second_page.len(), 2);

    // Test seller's escrows
    let seller_escrows = test.contract.get_user_escrows(&test.seller, 0, 10).unwrap();
    assert_eq!(seller_escrows.len(), 5);

    // Test arbitrator's escrows
    let arbitrator_escrows = test.contract.get_user_escrows(&test.arbitrator, 0, 10).unwrap();
    assert_eq!(arbitrator_escrows.len(), 5);
}

#[test]
fn test_test_unauthorized_actions_protection() {
    let (mut test, escrow_id) = EscrowTest::setup_with_funded_escrow();
    let unauthorized = Address::new("unauthorized");

    // Test various unauthorized access attempts
    let result = test.try_release_funds(escrow_id, &unauthorized);
    assert!(result.is_err());
    assert_eq!(result.unwrap_err(), Ok(ContractError::BuyerOnly));

    let result = test.try_raise_dispute(escrow_id, &unauthorized, "Unauthorized dispute");
    assert!(result.is_err());
    assert_eq!(result.unwrap_err(), Ok(ContractError::ParticipantOnly));

    let result = test.try_refund(escrow_id, &unauthorized);
    assert!(result.is_err());
    assert_eq!(result.unwrap_err(), Ok(ContractError::ParticipantOnly));
}

// ----- further cases -----

#[test]
fn escrow_created_record_is_exact() {
    let mut test = EscrowTest::setup();
    test.now = 7;
    let id = test.create_escrow();
    assert_eq!(id, 1);
    assert_eq!(
        test.get_escrow(id),
        Escrow {
            id: 1,
            buyer: Address::new("buyer"),
            seller: Address::new("seller"),
            arbitrator: Address::new("arbitrator"),
            token: Address::new("token"),
            amount: 1000,
            description: String::from("Test escrow transaction"),
            status: EscrowStatus::Created,
            created_at: 7,
            funded_at: None,
            completed_at: None,
            disputed_at: None,
            dispute_reason: None,
        }
    );
    assert_eq!(test.contract.get_escrow(0).unwrap_err(), ContractError::EscrowNotFound);
    assert_eq!(test.contract.get_escrow(2).unwrap_err(), ContractError::EscrowNotFound);
}

#[test]
fn escrow_transfers_and_times_are_exact() {
    let mut test = EscrowTest::setup();
    let id = test.create_escrow();
    let (buyer, seller, arbitrator) = (test.buyer.clone(), test.seller.clone(), test.arbitrator.clone());
    assert_eq!(
        test.contract.deposit(id, &buyer, 11),
        Ok(Transfer::Deposit { from: buyer.clone(), asset: Address::new("token"), amount: 1000 })
    );
    assert_eq!(test.get_escrow(id).funded_at, Some(11));
    assert_eq!(test.contract.raise_dispute(id, &seller, String::from("late"), 12), Ok(()));
    assert_eq!(test.get_escrow(id).disputed_at, Some(12));
    assert_eq!(
        test.contract.arbitrate(id, &arbitrator, false, 13),
        Ok(Transfer::Payout { to: buyer.clone(), asset: Address::new("token"), amount: 1000 })
    );
    let escrow = test.get_escrow(id);
    assert_eq!(escrow.completed_at, Some(13));
    assert_eq!(escrow.status, EscrowStatus::Cancelled);
    assert!(escrow.status.terminal());
}

#[test]
fn escrow_arbitration_for_the_seller_pays_the_seller() {
    let (mut test, id) = EscrowTest::setup_with_funded_escrow();
    let (buyer, seller, arbitrator) = (test.buyer.clone(), test.seller.clone(), test.arbitrator.clone());
    test.try_raise_dispute(id, &buyer, "reason").unwrap();
    assert_eq!(
        test.contract.arbitrate(id, &arbitrator, true, 5),
        Ok(Transfer::Payout { to: seller, asset: Address::new("token"), amount: 1000 })
    );
    assert_eq!(test.get_escrow(id).status, EscrowStatus::Completed);
}

#[test]
fn escrow_arbitrator_is_no_participant() {
    let (mut test, id) = EscrowTest::setup_with_funded_escrow();
    let arbitrator = test.arbitrator.clone();
    assert_eq!(test.try_raise_dispute(id, &arbitrator, "mine").unwrap_err(), Ok(ContractError::ParticipantOnly));
    assert_eq!(test.try_refund(id, &arbitrator).unwrap_err(), Ok(ContractError::ParticipantOnly));
    assert_eq!(test.try_release_funds(id, &arbitrator).unwrap_err(), Ok(ContractError::BuyerOnly));
}

#[test]
fn escrow_deposit_insufficient_balance_changes_nothing() {
    let mut test = EscrowTest::setup();
    let poor_buyer = Address::new("poor buyer");
    let (seller, arbitrator) = (test.seller.clone(), test.arbitrator.clone());
    let id = test.try_create_escrow(&poor_buyer, &seller, &arbitrator, ESCROW_AMOUNT).unwrap();
    assert_eq!(test.try_deposit(id, &poor_buyer).unwrap_err(), Err(TransferFailed));
    assert_eq!(test.get_escrow(id).status, EscrowStatus::Created);
    assert_eq!(test.get_escrow(id).funded_at, None);
}

#[test]
fn escrow_pages_hold_the_identifiers_in_order() {
    let mut test = EscrowTest::setup();
    for _ in 0..4 {
        test.create_escrow();
    }
    // the arbitrator of the first four is the buyer of a fifth
    let (seller, arbitrator, admin) = (test.seller.clone(), test.arbitrator.clone(), test.admin.clone());
    test.try_create_escrow(&arbitrator, &seller, &admin, 5).unwrap();
    assert_eq!(test.contract.get_user_escrows(&test.buyer, 0, 3), Ok(vec![1, 2, 3]));
    assert_eq!(test.contract.get_user_escrows(&test.buyer, 3, 3), Ok(vec![4]));
    assert_eq!(test.contract.get_user_escrows(&test.buyer, 4, 3), Ok(vec![]));
    assert_eq!(test.contract.get_user_escrows(&test.arbitrator, 1, u32::MAX), Ok(vec![2, 3, 4, 5]));
    assert_eq!(test.contract.get_user_escrows(&test.admin, 0, 10), Ok(vec![5]));
    assert_eq!(test.contract.get_user_escrows(&Address::new("nobody"), 0, 10), Ok(vec![]));
}

#[test]
fn escrow_is_listed_for_its_three_parties() {
    let mut test = EscrowTest::setup();
    let id = test.create_escrow();
    let escrow = test.get_escrow(id);
    assert_eq!(
        escrow.listed_parties(),
        vec![Address::new("buyer"), Address::new("seller"), Address::new("arbitrator")]
    );
    for party in escrow.listed_parties() {
        assert!(escrow.listed_for(&party));
        assert_eq!(test.contract.get_user_escrows(&party, 0, 10), Ok(vec![id]));
    }
    assert!(!escrow.listed_for(&test.admin));
    assert!(escrow.participant(&test.buyer) && !escrow.participant(&test.arbitrator));
}
