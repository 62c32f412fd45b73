//! Conditional-custody settlement engines.
//!
//! Every engine holds an amount contributed by one party and hands it to the
//! counterparty once its release condition holds, or returns it otherwise.
//! The engines are deterministic state machines over plain values: the
//! caller supplies the current time and the party that proved authorization,
//! and gets back the movement of value that has to accompany the transition.
//! An operation that is refused changes nothing.
//!
//! The caller carries out the transfer that an operation hands back and
//! keeps the new state as one unit: where the transfer fails, the state is
//! to be as it was before the call. An engine is changed through `&mut`
//! alone, so no two operations run interleaved on one record.
//!
//! Each engine comes in two layers. The record (a contract, an escrow, a
//! transaction, a deposit) carries the rules: for every operation a step
//! function says what the operation makes of a record, and the operation is
//! proved to do exactly that. The engine keeps the records and finds the one
//! that an operation is for.
//!
//! - `deferred_settlement`: release on a deadline, on the buyer's approval or
//!   on an oracle's confirmation
//! - `conditional_refund`: delivery and confirmation, with refunds that are
//!   automatic or decided by the admin
//! - `escrow_arbitration`: release by the buyer, disputes decided by an
//!   arbitrator
//! - `milestone_payment`: release milestone by milestone
//! - `mutual_cancellation`: cancellation by proposal and agreement within a
//!   response window
//! - `timelock`: withdrawal after a lock, clawback after a further delay
//! - `multisign_escrow`: release on a threshold of approvals
//!
//! `address` and `custody` hold what the engines share: the identities of
//! parties and assets, and the transfer that an operation asks for. `paging`
//! and `stored_list` cut pages out of lists of record identifiers, and
//! `approval_marks` keeps the record of approvals in the ledger's map.

pub mod address;
pub mod custody;
pub mod paging;
pub mod stored_list;
pub mod approval_marks;
pub mod deferred_settlement;
pub mod conditional_refund;
pub mod escrow_arbitration;
pub mod milestone_payment;
pub mod mutual_cancellation;
pub mod timelock;
pub mod multisign_escrow;
