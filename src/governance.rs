//! Pool administration: funding, timelocked withdrawals, house fees, pausing
//! and the two-step operator hand-over. Checking that the caller is the
//! operator is the host's part; these functions decide everything else.
use vstd::prelude::*;
use crate::error::BlitzError;
use crate::keys::{is_null, is_null_key, same_key, Pubkey};
use crate::ledger::{commit_if_solvent, liquid_balance, GlobalPool, PoolAccount, WithdrawalRequest};

verus! {

/// Delay before a withdrawal may execute (48 hours).
pub const TIMELOCK_SECS: i64 = 172_800;
/// Delay before an operator hand-over may execute (72 hours).
pub const AUTH_TIMELOCK: i64 = 259_200;

/// A new, empty pool whose account holds `lamports` and needs
/// `rent_minimum` to stay rent-exempt.
pub fn initialize(authority: Pubkey, bump: u8, lamports: u64, rent_minimum: u64) -> (r: PoolAccount)
    ensures
        r.pool.authority == authority,
        r.pool.bump == bump,
        r.lamports == lamports,
        r.rent_minimum == rent_minimum,
        r.pool.jackpot_balance == 0,
        r.pool.house_fees_earned == 0,
        r.pool.total_wagered == 0,
        r.pool.total_bets == 0,
        r.pool.total_wins == 0,
        r.pool.total_jackpot_won == 0,
        r.pool.biggest_win == 0,
        !r.pool.paused,
        r.pool.withdrawal_request is None,
        r.pool.pending_authority is None,
        r.pool.authority_transfer_at == 0,
        r.solvent(),
        r.synced(),
{
    let mut acct = PoolAccount {
        pool: GlobalPool {
            authority,
            total_balance: 0,
            jackpot_balance: 0,
            total_wagered: 0,
            house_fees_earned: 0,
            paused: false,
            withdrawal_request: None,
            bump,
            total_bets: 0,
            total_wins: 0,
            total_jackpot_won: 0,
            biggest_win: 0,
            pending_authority: None,
            authority_transfer_at: 0,
        },
        lamports,
        rent_minimum,
    };
    acct.pool.total_balance = liquid_balance(&acct);
    acct
}

/// Adds `amount` to the pool's liquid funds.
pub fn fund_pool(acct: &mut PoolAccount, amount: u64) -> (r: Result<(), BlitzError>)
    requires
        old(acct).lamports + amount <= u64::MAX,
    ensures
        ({
            let next = PoolAccount { lamports: (old(acct).lamports + amount) as u64, ..*old(acct) };
            &&& amount == 0 ==> r == Err::<(), BlitzError>(BlitzError::BetTooSmall)
            &&& amount > 0 && !next.solvent() ==> r == Err::<(), BlitzError>(
                BlitzError::AccountingBroken,
            )
            &&& amount > 0 && next.solvent() ==> r is Ok && *final(acct) == next.resynced()
        }),
        r is Ok ==> final(acct).solvent(),
        r is Err ==> *final(acct) == *old(acct),
{
    if amount == 0 {
        return Err(BlitzError::BetTooSmall);
    }
    let mut next = *acct;
    next.lamports = acct.lamports + amount;
    commit_if_solvent(acct, next)
}

pub fn set_paused(acct: &mut PoolAccount, paused: bool)
    ensures
        *final(acct) == (PoolAccount {
            pool: GlobalPool { paused, ..old(acct).pool },
            ..*old(acct)
        }),
{
    acct.pool.paused = paused;
}

// ── Withdrawals ─────────────────────────────────────────────────────────

/// Records a withdrawal of at most a fifth of the liquid funds, which may
/// execute once the timelock has passed.
pub fn request_withdrawal(acct: &mut PoolAccount, amount: u64, now: i64) -> (r: Result<
    (),
    BlitzError,
>)
    requires
        now + TIMELOCK_SECS <= i64::MAX,
    ensures
        old(acct).pool.withdrawal_request is Some ==> r == Err::<(), BlitzError>(
            BlitzError::PendingWithdrawal,
        ),
        old(acct).pool.withdrawal_request is None && amount > old(acct).liquid() / 5 ==> r
            == Err::<(), BlitzError>(BlitzError::WithdrawalTooLarge),
        old(acct).pool.withdrawal_request is None && amount <= old(acct).liquid() / 5 ==> r is Ok
            && *final(acct) == (PoolAccount {
            pool: GlobalPool {
                withdrawal_request: Some(
                    WithdrawalRequest {
                        amount,
                        requested_at: now,
                        unlocks_at: (now + TIMELOCK_SECS) as i64,
                    },
                ),
                ..old(acct).pool
            },
            ..*old(acct)
        }),
        r is Err ==> *final(acct) == *old(acct),
{
    if acct.pool.withdrawal_request.is_some() {
        return Err(BlitzError::PendingWithdrawal);
    }
    let max = liquid_balance(acct) / 5;
    if amount > max {
        return Err(BlitzError::WithdrawalTooLarge);
    }
    acct.pool.withdrawal_request = Some(
        WithdrawalRequest { amount, requested_at: now, unlocks_at: now + TIMELOCK_SECS },
    );
    Ok(())
}

/// Pays out the pending withdrawal once its timelock has passed and the
/// liquid funds cover it. Returns the amount paid.
pub fn execute_withdrawal(acct: &mut PoolAccount, now: i64) -> (r: Result<u64, BlitzError>)
    ensures
        old(acct).pool.withdrawal_request is None ==> r == Err::<u64, BlitzError>(
            BlitzError::NoWithdrawalRequest,
        ),
        old(acct).pool.withdrawal_request matches Some(req) ==> {
            let next = PoolAccount {
                lamports: (old(acct).lamports - req.amount) as u64,
                pool: GlobalPool { withdrawal_request: None, ..old(acct).pool },
                ..*old(acct)
            };
            &&& now < req.unlocks_at ==> r == Err::<u64, BlitzError>(BlitzError::TimelockActive)
            &&& now >= req.unlocks_at && old(acct).liquid() < req.amount ==> r == Err::<
                u64,
                BlitzError,
            >(BlitzError::InsufficientLiquidity)
            &&& now >= req.unlocks_at && old(acct).liquid() >= req.amount && !next.solvent() ==> r
                == Err::<u64, BlitzError>(BlitzError::AccountingBroken)
            &&& now >= req.unlocks_at && old(acct).liquid() >= req.amount && next.solvent() ==> r
                == Ok::<u64, BlitzError>(req.amount) && *final(acct) == next.resynced()
        },
        r is Ok ==> final(acct).solvent(),
        r is Err ==> *final(acct) == *old(acct),
{
    let req = match acct.pool.withdrawal_request {
        Some(req) => req,
        None => return Err(BlitzError::NoWithdrawalRequest),
    };
    if now < req.unlocks_at {
        return Err(BlitzError::TimelockActive);
    }
    if liquid_balance(acct) < req.amount {
        return Err(BlitzError::InsufficientLiquidity);
    }
    let mut next = *acct;
    next.lamports = acct.lamports - req.amount;
    next.pool.withdrawal_request = None;
    commit_if_solvent(acct, next)?;
    Ok(req.amount)
}

pub fn cancel_withdrawal(acct: &mut PoolAccount)
    ensures
        *final(acct) == (PoolAccount {
            pool: GlobalPool { withdrawal_request: None, ..old(acct).pool },
            ..*old(acct)
        }),
{
    acct.pool.withdrawal_request = None;
}

// ── House fees ──────────────────────────────────────────────────────────

/// Pays `amount` of the accrued house fees to the operator, bounded by the
/// reserve and by the funds held above the rent reserve.
pub fn claim_house_fees(acct: &mut PoolAccount, amount: u64) -> (r: Result<(), BlitzError>)
    ensures
        ({
            let next = PoolAccount {
                lamports: (old(acct).lamports - amount) as u64,
                pool: GlobalPool {
                    house_fees_earned: (old(acct).pool.house_fees_earned - amount) as u64,
                    ..old(acct).pool
                },
                ..*old(acct)
            };
            &&& amount == 0 ==> r == Err::<(), BlitzError>(BlitzError::BetTooSmall)
            &&& amount > 0 && (amount > old(acct).pool.house_fees_earned || old(acct).physical()
                < amount) ==> r == Err::<(), BlitzError>(BlitzError::InsufficientLiquidity)
            &&& amount > 0 && amount <= old(acct).pool.house_fees_earned && old(acct).physical()
                >= amount && !next.solvent() ==> r == Err::<(), BlitzError>(
                BlitzError::AccountingBroken,
            )
            &&& amount > 0 && amount <= old(acct).pool.house_fees_earned && old(acct).physical()
                >= amount && next.solvent() ==> r is Ok && *final(acct) == next.resynced()
        }),
        r is Ok ==> final(acct).solvent(),
        r is Err ==> *final(acct) == *old(acct),
{
    if amount == 0 {
        return Err(BlitzError::BetTooSmall);
    }
    if amount > acct.pool.house_fees_earned {
        return Err(BlitzError::InsufficientLiquidity);
    }
    if acct.lamports.saturating_sub(acct.rent_minimum) < amount {
        return Err(BlitzError::InsufficientLiquidity);
    }
    let mut next = *acct;
    next.lamports = acct.lamports - amount;
    next.pool.house_fees_earned = acct.pool.house_fees_earned - amount;
    commit_if_solvent(acct, next)
}

/// Moves `amount` of the accrued house fees back into the liquid funds.
pub fn reinvest_house_fees(acct: &mut PoolAccount, amount: u64) -> (r: Result<(), BlitzError>)
    ensures
        ({
            let next = PoolAccount {
                pool: GlobalPool {
                    house_fees_earned: (old(acct).pool.house_fees_earned - amount) as u64,
                    ..old(acct).pool
                },
                ..*old(acct)
            };
            &&& amount == 0 ==> r == Err::<(), BlitzError>(BlitzError::BetTooSmall)
            &&& amount > 0 && amount > old(acct).pool.house_fees_earned ==> r == Err::<
                (),
                BlitzError,
            >(BlitzError::InsufficientLiquidity)
            &&& amount > 0 && amount <= old(acct).pool.house_fees_earned && !next.solvent() ==> r
                == Err::<(), BlitzError>(BlitzError::AccountingBroken)
            &&& amount > 0 && amount <= old(acct).pool.house_fees_earned && next.solvent() ==> r
                is Ok && *final(acct) == next.resynced()
        }),
        r is Ok ==> final(acct).solvent(),
        r is Err ==> *final(acct) == *old(acct),
{
    if amount == 0 {
        return Err(BlitzError::BetTooSmall);
    }
    if amount > acct.pool.house_fees_earned {
        return Err(BlitzError::InsufficientLiquidity);
    }
    let mut next = *acct;
    next.pool.house_fees_earned = acct.pool.house_fees_earned - amount;
    commit_if_solvent(acct, next)
}

// ── Operator hand-over ──────────────────────────────────────────────────

/// Proposes `new_authority` as the next operator, effective after the
/// hand-over timelock and the new operator's own acceptance.
pub fn propose_authority_transfer(acct: &mut PoolAccount, new_authority: Pubkey, now: i64) -> (r:
    Result<(), BlitzError>)
    requires
        now + AUTH_TIMELOCK <= i64::MAX,
    ensures
        new_authority@ == old(acct).pool.authority@ || is_null_key(new_authority@) ==> r
            == Err::<(), BlitzError>(BlitzError::InvalidReferrer) && *final(acct) == *old(acct),
        new_authority@ != old(acct).pool.authority@ && !is_null_key(new_authority@) ==> r is Ok
            && *final(acct) == (PoolAccount {
            pool: GlobalPool {
                pending_authority: Some(new_authority),
                authority_transfer_at: (now + AUTH_TIMELOCK) as i64,
                ..old(acct).pool
            },
            ..*old(acct)
        }),
{
    if same_key(&new_authority, &acct.pool.authority) {
        return Err(BlitzError::InvalidReferrer);
    }
    if is_null(&new_authority) {
        return Err(BlitzError::InvalidReferrer);
    }
    acct.pool.pending_authority = Some(new_authority);
    acct.pool.authority_transfer_at = now + AUTH_TIMELOCK;
    Ok(())
}

pub fn cancel_authority_transfer(acct: &mut PoolAccount) -> (r: Result<(), BlitzError>)
    ensures
        old(acct).pool.pending_authority is None ==> r == Err::<(), BlitzError>(
            BlitzError::NoWithdrawalRequest,
        ) && *final(acct) == *old(acct),
        old(acct).pool.pending_authority is Some ==> r is Ok && *final(acct) == (PoolAccount {
            pool: GlobalPool {
                pending_authority: None,
                authority_transfer_at: 0,
                ..old(acct).pool
            },
            ..*old(acct)
        }),
{
    if acct.pool.pending_authority.is_none() {
        return Err(BlitzError::NoWithdrawalRequest);
    }
    acct.pool.pending_authority = None;
    acct.pool.authority_transfer_at = 0;
    Ok(())
}

/// Completes the hand-over: only the proposed operator may accept, and only
/// once the timelock has passed.
pub fn execute_authority_transfer(acct: &mut PoolAccount, signer: Pubkey, now: i64) -> (r: Result<
    (),
    BlitzError,
>)
    ensures
        old(acct).pool.pending_authority is None ==> r == Err::<(), BlitzError>(
            BlitzError::NoWithdrawalRequest,
        ),
        old(acct).pool.pending_authority matches Some(p) ==> {
            &&& signer@ != p@ ==> r == Err::<(), BlitzError>(BlitzError::InvalidReferrer)
            &&& signer@ == p@ && now < old(acct).pool.authority_transfer_at ==> r == Err::<
                (),
                BlitzError,
            >(BlitzError::TimelockActive)
            &&& signer@ == p@ && now >= old(acct).pool.authority_transfer_at ==> r is Ok
                && *final(acct) == (PoolAccount {
                pool: GlobalPool {
                    authority: p,
                    pending_authority: None,
                    authority_transfer_at: 0,
                    ..old(acct).pool
                },
                ..*old(acct)
            })
        },
        r is Err ==> *final(acct) == *old(acct),
{
    let new_auth = match acct.pool.pending_authority {
        Some(k) => k,
        None => return Err(BlitzError::NoWithdrawalRequest),
    };
    if !same_key(&signer, &new_auth) {
        return Err(BlitzError::InvalidReferrer);
    }
    if now < acct.pool.authority_transfer_at {
        return Err(BlitzError::TimelockActive);
    }
    acct.pool.authority = new_auth;
    acct.pool.pending_authority = None;
    acct.pool.authority_transfer_at = 0;
    Ok(())
}

} // verus!
