use blitz_games::error::BlitzError;
use blitz_games::governance::{
    cancel_authority_transfer, cancel_withdrawal, claim_house_fees, execute_authority_transfer,
    execute_withdrawal, fund_pool, initialize, propose_authority_transfer, reinvest_house_fees,
    request_withdrawal, set_paused, AUTH_TIMELOCK, TIMELOCK_SECS,
};
use blitz_games::ledger::PoolAccount;

const RENT: u64 = 1_000_000;
const SOL: u64 = 1_000_000_000;
const OPERATOR: [u8; 32] = [9u8; 32];

fn pool(liquid: u64) -> PoolAccount {
    initialize(OPERATOR, 254, RENT + liquid, RENT)
}

#[test]
fn initialize_starts_empty_and_synced() {
    let acct = pool(SOL);
    assert_eq!(acct.pool.authority, OPERATOR);
    assert_eq!(acct.pool.bump, 254);
    assert_eq!(acct.pool.total_balance, SOL);
    assert_eq!(acct.pool.house_fees_earned, 0);
    assert_eq!(acct.pool.jackpot_balance, 0);
    assert!(!acct.pool.paused);
    assert!(acct.pool.withdrawal_request.is_none());
}

#[test]
fn funding_adds_liquidity() {
    let mut acct = pool(SOL);
    assert_eq!(fund_pool(&mut acct, 0), Err(BlitzError::BetTooSmall));
    assert_eq!(fund_pool(&mut acct, SOL), Ok(()));
    assert_eq!(acct.lamports, RENT + 2 * SOL);
    assert_eq!(acct.pool.total_balance, 2 * SOL);
}

#[test]
fn pause_toggles() {
    let mut acct = pool(SOL);
    set_paused(&mut acct, true);
    assert!(acct.pool.paused);
    set_paused(&mut acct, false);
    assert!(!acct.pool.paused);
}

#[test]
fn withdrawal_is_capped_and_timelocked() {
    let mut acct = pool(10 * SOL);
    assert_eq!(execute_withdrawal(&mut acct, 0), Err(BlitzError::NoWithdrawalRequest));
    assert_eq!(request_withdrawal(&mut acct, 2 * SOL + 1, 1_000), Err(BlitzError::WithdrawalTooLarge));
    assert_eq!(request_withdrawal(&mut acct, 2 * SOL, 1_000), Ok(()));
    let req = acct.pool.withdrawal_request.unwrap();
    assert_eq!((req.amount, req.requested_at, req.unlocks_at), (2 * SOL, 1_000, 1_000 + TIMELOCK_SECS));
    assert_eq!(request_withdrawal(&mut acct, 1, 1_000), Err(BlitzError::PendingWithdrawal));
    assert_eq!(execute_withdrawal(&mut acct, 1_000 + TIMELOCK_SECS - 1), Err(BlitzError::TimelockActive));
    assert_eq!(execute_withdrawal(&mut acct, 1_000 + TIMELOCK_SECS), Ok(2 * SOL));
    assert_eq!(acct.lamports, RENT + 8 * SOL);
    assert_eq!(acct.pool.total_balance, 8 * SOL);
    assert!(acct.pool.withdrawal_request.is_none());
}

#[test]
fn withdrawal_needs_liquidity_at_execution() {
    let mut acct = pool(10 * SOL);
    request_withdrawal(&mut acct, 2 * SOL, 0).unwrap();
    acct.lamports = RENT + SOL;
    assert_eq!(execute_withdrawal(&mut acct, TIMELOCK_SECS), Err(BlitzError::InsufficientLiquidity));
    cancel_withdrawal(&mut acct);
    assert!(acct.pool.withdrawal_request.is_none());
}

#[test]
fn house_fees_claim_and_reinvest() {
    let mut acct = pool(10 * SOL);
    acct.pool.house_fees_earned = 100_000_000;
    assert_eq!(claim_house_fees(&mut acct, 0), Err(BlitzError::BetTooSmall));
    assert_eq!(claim_house_fees(&mut acct, 100_000_001), Err(BlitzError::InsufficientLiquidity));
    assert_eq!(claim_house_fees(&mut acct, 60_000_000), Ok(()));
    assert_eq!(acct.pool.house_fees_earned, 40_000_000);
    assert_eq!(acct.lamports, RENT + 10 * SOL - 60_000_000);
    assert_eq!(reinvest_house_fees(&mut acct, 0), Err(BlitzError::BetTooSmall));
    assert_eq!(reinvest_house_fees(&mut acct, 40_000_001), Err(BlitzError::InsufficientLiquidity));
    assert_eq!(reinvest_house_fees(&mut acct, 40_000_000), Ok(()));
    assert_eq!(acct.pool.house_fees_earned, 0);
    assert_eq!(acct.pool.total_balance, 10 * SOL - 60_000_000);
}

#[test]
fn house_fee_claim_bounded_by_funds_above_rent() {
    let mut acct = initialize(OPERATOR, 254, RENT + 50, RENT);
    acct.pool.house_fees_earned = 100;
    assert_eq!(claim_house_fees(&mut acct, 60), Err(BlitzError::InsufficientLiquidity));
    // The reserve exceeds the funds, so even a covered claim leaves it broken.
    assert_eq!(claim_house_fees(&mut acct, 40), Err(BlitzError::AccountingBroken));
    assert_eq!(acct.pool.house_fees_earned, 100);
}

#[test]
fn authority_transfer_needs_timelock_and_acceptance() {
    let mut acct = pool(SOL);
    let next = [4u8; 32];
    assert_eq!(cancel_authority_transfer(&mut acct), Err(BlitzError::NoWithdrawalRequest));
    assert_eq!(execute_authority_transfer(&mut acct, next, 0), Err(BlitzError::NoWithdrawalRequest));
    assert_eq!(propose_authority_transfer(&mut acct, OPERATOR, 0), Err(BlitzError::InvalidReferrer));
    assert_eq!(propose_authority_transfer(&mut acct, [0u8; 32], 0), Err(BlitzError::InvalidReferrer));
    assert_eq!(propose_authority_transfer(&mut acct, next, 100), Ok(()));
    assert_eq!(acct.pool.pending_authority, Some(next));
    assert_eq!(acct.pool.authority_transfer_at, 100 + AUTH_TIMELOCK);
    assert_eq!(execute_authority_transfer(&mut acct, [5u8; 32], 100 + AUTH_TIMELOCK), Err(BlitzError::InvalidReferrer));
    assert_eq!(execute_authority_transfer(&mut acct, next, 99 + AUTH_TIMELOCK), Err(BlitzError::TimelockActive));
    assert_eq!(execute_authority_transfer(&mut acct, next, 100 + AUTH_TIMELOCK), Ok(()));
    assert_eq!(acct.pool.authority, next);
    assert_eq!(acct.pool.pending_authority, None);
    assert_eq!(acct.pool.authority_transfer_at, 0);
}

#[test]
fn authority_transfer_can_be_cancelled() {
    let mut acct = pool(SOL);
    propose_authority_transfer(&mut acct, [4u8; 32], 0).unwrap();
    assert_eq!(cancel_authority_transfer(&mut acct), Ok(()));
    assert_eq!(acct.pool.pending_authority, None);
    assert_eq!(acct.pool.authority_transfer_at, 0);
}

#[test]
fn error_messages() {
    assert_eq!(BlitzError::AccountingBroken.message(), "Accounting invariant violated");
    assert_eq!(BlitzError::SlotTooOld.message(), "Slot hash too old (>512 slots), use emergency_refund");
}
