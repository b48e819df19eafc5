//! The pool ledger: one shared account whose physical funds are split into
//! liquid funds, the house-fee reserve and the jackpot reserve, and the
//! settlement protocol that every resolved bet goes through.
use vstd::prelude::*;
use crate::error::BlitzError;
use crate::keys::{is_valid_referrer, valid_referrer_spec, Pubkey};
use crate::math::{le_u32_at, min_spec, read_u32_le, sat_add_spec, sat_mul, sat_mul_spec, sat_sub_spec};
use crate::session::GameSession;

verus! {

/// Fee split on the bet amount, in basis points: house, referrer, jackpot,
/// treasury.
pub const HOUSE_BPS: u64 = 200;
pub const REFERRER_BPS: u64 = 200;
pub const JACKPOT_BPS: u64 = 100;
pub const TREASURY_BPS: u64 = 0;
pub const BPS_BASE: u64 = 10_000;

/// A referrer is paid only when it holds at least this much (0.05 SOL)...
pub const REFERRER_MIN_BALANCE: u64 = 50_000_000;
/// ...and only when its commission reaches this much (0.001 SOL).
pub const REFERRER_MIN_COMMISSION: u64 = 1_000_000;

/// Smallest bet that can win the jackpot (0.02 SOL).
pub const JACKPOT_MIN_BET: u64 = 20_000_000;
/// Smallest jackpot reserve that can be won (0.1 SOL).
pub const JACKPOT_MIN_POOL: u64 = 100_000_000;
/// The jackpot threshold is `bet * JACKPOT_RATE / JACKPOT_BASE`.
pub const JACKPOT_RATE: u64 = 43;
pub const JACKPOT_BASE: u64 = 10_000;
/// Threshold cap: about a 0.5% chance per bet (`u32::MAX / 200`).
pub const JACKPOT_MAX_THRESHOLD: u64 = 21_474_836;

/// A withdrawal waiting for its timelock.
#[derive(Clone, Copy, Debug)]
pub struct WithdrawalRequest {
    pub amount: u64,
    pub requested_at: i64,
    pub unlocks_at: i64,
}

/// The pool record.
#[derive(Clone, Copy, Debug)]
pub struct GlobalPool {
    pub authority: Pubkey,
    /// Liquid funds, as last recomputed from the account's physical funds.
    pub total_balance: u64,
    pub jackpot_balance: u64,
    pub total_wagered: u64,
    pub house_fees_earned: u64,
    pub paused: bool,
    pub withdrawal_request: Option<WithdrawalRequest>,
    pub bump: u8,
    pub total_bets: u64,
    pub total_wins: u64,
    pub total_jackpot_won: u64,
    pub biggest_win: u64,
    pub pending_authority: Option<Pubkey>,
    pub authority_transfer_at: i64,
}

/// The pool record together with what its account physically holds.
#[derive(Clone, Copy, Debug)]
pub struct PoolAccount {
    pub pool: GlobalPool,
    /// Funds the account holds.
    pub lamports: u64,
    /// The account's rent-exempt minimum, which no payout may touch.
    pub rent_minimum: u64,
}

impl PoolAccount {
    /// Funds held above the rent reserve.
    pub open spec fn physical(&self) -> int {
        sat_sub_spec(self.lamports as int, self.rent_minimum as int)
    }

    /// Funds earmarked for the house and the jackpot.
    pub open spec fn reserved(&self) -> int {
        self.pool.house_fees_earned + self.pool.jackpot_balance
    }

    /// Physical funds cover every reserved compartment.
    pub open spec fn solvent(&self) -> bool {
        self.physical() >= self.reserved()
    }

    /// Funds available to pay bets: physical funds less both reserves.
    pub open spec fn liquid(&self) -> int {
        sat_sub_spec(
            self.physical(),
            sat_add_spec(self.pool.house_fees_earned as int, self.pool.jackpot_balance as int),
        )
    }

    /// This account with its liquid balance recomputed.
    pub open spec fn resynced(self) -> PoolAccount {
        PoolAccount { pool: GlobalPool { total_balance: self.liquid() as u64, ..self.pool }, ..self }
    }

    pub open spec fn synced(&self) -> bool {
        self.pool.total_balance == self.liquid()
    }
}

/// Liquid funds, recomputed from physical funds.
pub fn liquid_balance(acct: &PoolAccount) -> (r: u64)
    ensures
        r == acct.liquid(),
        acct.solvent() ==> r == acct.physical() - acct.reserved(),
{
    let physical = acct.lamports.saturating_sub(acct.rent_minimum);
    let reserved = acct.pool.house_fees_earned.saturating_add(acct.pool.jackpot_balance);
    physical.saturating_sub(reserved)
}

/// Makes `next` the pool's state, with its liquid balance recomputed, if its
/// physical funds cover its reserves; otherwise leaves the pool as it was.
pub fn commit_if_solvent(acct: &mut PoolAccount, next: PoolAccount) -> (r: Result<(), BlitzError>)
    ensures
        r is Ok <==> next.solvent(),
        r is Ok ==> *final(acct) == next.resynced(),
        r is Err ==> *final(acct) == *old(acct) && r == Err::<(), BlitzError>(
            BlitzError::AccountingBroken,
        ),
{
    let physical = next.lamports.saturating_sub(next.rent_minimum);
    let covered = match next.pool.house_fees_earned.checked_add(next.pool.jackpot_balance) {
        Some(reserved) => physical >= reserved,
        None => false,
    };
    if !covered {
        return Err(BlitzError::AccountingBroken);
    }
    let mut next = next;
    next.pool.total_balance = liquid_balance(&next);
    *acct = next;
    Ok(())
}

/// Recomputes the liquid balance from physical funds, and fails when the
/// physical funds no longer cover the reserves.
pub fn sync_pool_balance(acct: &mut PoolAccount) -> (r: Result<(), BlitzError>)
    ensures
        r is Ok <==> old(acct).solvent(),
        r is Ok ==> *final(acct) == old(acct).resynced(),
        r is Err ==> *final(acct) == *old(acct) && r == Err::<(), BlitzError>(
            BlitzError::AccountingBroken,
        ),
{
    let current = *acct;
    commit_if_solvent(acct, current)
}

/// Fee basis points of a game: `(house, referrer, jackpot, treasury)`. Every
/// game takes the same 5% edge.
pub fn get_fee_bps(_game_type: u8) -> (r: (u64, u64, u64, u64))
    ensures
        r == (HOUSE_BPS, REFERRER_BPS, JACKPOT_BPS, TREASURY_BPS),
{
    (HOUSE_BPS, REFERRER_BPS, JACKPOT_BPS, TREASURY_BPS)
}

// ── Settlement arithmetic ───────────────────────────────────────────────

pub open spec fn jackpot_cut_spec(bet: int) -> int {
    sat_mul_spec(bet, JACKPOT_BPS as int) / BPS_BASE as int
}

pub open spec fn referrer_share(bet: int) -> int {
    sat_mul_spec(bet, REFERRER_BPS as int) / BPS_BASE as int
}

/// Whether the referrer's share is paid to the referrer rather than to the
/// house.
pub open spec fn referrer_paid(has_referrer: bool, referrer_balance: int, bet: int) -> bool {
    has_referrer && referrer_balance >= REFERRER_MIN_BALANCE && referrer_share(bet)
        >= REFERRER_MIN_COMMISSION
}

pub open spec fn referrer_cut_spec(has_referrer: bool, referrer_balance: int, bet: int) -> int {
    if referrer_paid(has_referrer, referrer_balance, bet) {
        referrer_share(bet)
    } else {
        0
    }
}

/// The house keeps its own share and every referrer share not paid out.
pub open spec fn house_cut_spec(has_referrer: bool, referrer_balance: int, bet: int) -> int {
    sat_mul_spec(bet, (HOUSE_BPS + TREASURY_BPS) as int) / BPS_BASE as int + if referrer_paid(
        has_referrer,
        referrer_balance,
        bet,
    ) {
        0
    } else {
        referrer_share(bet)
    }
}

/// The jackpot draw: seed bytes 24..28, disjoint from the bytes that decide
/// the game, as a little-endian integer.
pub open spec fn jackpot_draw(seed: Seq<u8>) -> int {
    le_u32_at(seed, 24)
}

pub open spec fn jackpot_threshold(bet: int) -> int {
    min_spec(sat_mul_spec(bet, JACKPOT_RATE as int) / JACKPOT_BASE as int, JACKPOT_MAX_THRESHOLD as int)
}

/// Whether the bet may win the jackpot at all.
pub open spec fn jackpot_eligible(bet: int, jackpot_balance: int) -> bool {
    bet >= JACKPOT_MIN_BET && jackpot_balance >= JACKPOT_MIN_POOL
}

/// The jackpot prize: 90% of the reserve when an eligible bet's draw falls
/// under the threshold, else nothing.
pub open spec fn jackpot_prize_spec(bet: int, jackpot_balance: int, seed: Seq<u8>) -> int {
    if jackpot_eligible(bet, jackpot_balance) && jackpot_draw(seed) < jackpot_threshold(bet) {
        sat_mul_spec(jackpot_balance, 90) / 100
    } else {
        0
    }
}

/// A referrer whose standing balance is under the floor earns nothing, and
/// its whole share goes to the house, however large the commission would be.
pub proof fn lemma_poor_referrer_share_goes_to_house(has_referrer: bool, referrer_balance: int, bet: int)
    requires
        referrer_balance < REFERRER_MIN_BALANCE,
    ensures
        referrer_cut_spec(has_referrer, referrer_balance, bet) == 0,
        house_cut_spec(has_referrer, referrer_balance, bet) == sat_mul_spec(bet, HOUSE_BPS as int)
            / BPS_BASE as int + referrer_share(bet),
{
}

/// A jackpot reserve under the minimum is never paid out, whatever the bet
/// and the draw.
pub proof fn lemma_small_jackpot_never_pays(bet: int, jackpot_balance: int, seed: Seq<u8>)
    requires
        jackpot_balance < JACKPOT_MIN_POOL,
    ensures
        jackpot_prize_spec(bet, jackpot_balance, seed) == 0,
{
}

/// How one resolved bet moves funds.
#[derive(Clone, Copy, Debug, PartialEq, Eq, Structural)]
pub struct Settlement {
    /// Added to the house-fee reserve.
    pub house_cut: u64,
    /// Commission earned by the referrer.
    pub referrer_cut: u64,
    /// Added to the jackpot reserve.
    pub jackpot_cut: u64,
    /// Taken from the jackpot reserve and paid to the player.
    pub jackpot_prize: u64,
    /// Paid from the pool to the player.
    pub player_credit: u64,
    /// Paid from the pool to the referrer.
    pub referrer_credit: u64,
}

/// The settlement of a bet, given whether it won, what a win pays, and the
/// host facts about the referrer.
pub open spec fn settlement_spec(
    acct: PoolAccount,
    session: GameSession,
    won: bool,
    gross_payout: int,
    seed: Seq<u8>,
    referrer_balance: int,
    referrer_can_receive: bool,
) -> Settlement {
    let bet = session.bet_lamports as int;
    let has_ref = valid_referrer_spec(session.referrer@, session.player@);
    let ref_cut = referrer_cut_spec(has_ref, referrer_balance, bet);
    let prize = jackpot_prize_spec(bet, acct.pool.jackpot_balance as int, seed);
    let payout = if won {
        gross_payout
    } else {
        0
    };
    Settlement {
        house_cut: house_cut_spec(has_ref, referrer_balance, bet) as u64,
        referrer_cut: ref_cut as u64,
        jackpot_cut: jackpot_cut_spec(bet) as u64,
        jackpot_prize: prize as u64,
        player_credit: (payout + prize + if referrer_can_receive {
            0
        } else {
            ref_cut
        }) as u64,
        referrer_credit: if referrer_can_receive {
            ref_cut as u64
        } else {
            0
        },
    }
}

/// What the pool's liquid funds must cover: the win payout, the referrer
/// commission, both reserve increments and the jackpot prize.
pub open spec fn settlement_need(st: Settlement, won: bool, gross_payout: int) -> int {
    (if won {
        gross_payout
    } else {
        0
    }) + st.referrer_cut + st.jackpot_cut + st.house_cut + st.jackpot_prize
}

/// The pool after `st` is applied, before its liquid balance is recomputed.
pub open spec fn apply_settlement(acct: PoolAccount, st: Settlement, won: bool, gross_payout: u64) -> PoolAccount {
    let p = acct.pool;
    PoolAccount {
        lamports: (acct.lamports - st.player_credit - st.referrer_credit) as u64,
        pool: GlobalPool {
            jackpot_balance: sat_add_spec(
                p.jackpot_balance - st.jackpot_prize,
                st.jackpot_cut as int,
            ) as u64,
            house_fees_earned: sat_add_spec(p.house_fees_earned as int, st.house_cut as int) as u64,
            total_wins: if won {
                p.total_wins.wrapping_add(1)
            } else {
                p.total_wins
            },
            biggest_win: if won && gross_payout > p.biggest_win {
                gross_payout
            } else {
                p.biggest_win
            },
            total_jackpot_won: if st.jackpot_prize > 0 {
                p.total_jackpot_won.wrapping_add(st.jackpot_prize)
            } else {
                p.total_jackpot_won
            },
            ..p
        },
        ..acct
    }
}

/// The fee split of a bet: `(house_cut, referrer_cut, jackpot_cut)`. The
/// referrer is paid only when it is a real referrer, holds the minimum
/// balance and earns the minimum commission; otherwise the house keeps that
/// share.
pub fn split_fees(session: &GameSession, referrer_lamports: u64) -> (r: (u64, u64, u64))
    ensures
        ({
            let has_ref = valid_referrer_spec(session.referrer@, session.player@);
            let bet = session.bet_lamports as int;
            &&& r.0 == house_cut_spec(has_ref, referrer_lamports as int, bet)
            &&& r.1 == referrer_cut_spec(has_ref, referrer_lamports as int, bet)
            &&& r.2 == jackpot_cut_spec(bet)
        }),
{
    let has_ref = is_valid_referrer(session.referrer, session.player);
    let (house_bps, ref_bps, jackpot_bps, treasury_bps) = get_fee_bps(session.game_type);
    let bet = session.bet_lamports;
    let jackpot_cut = sat_mul(bet, jackpot_bps) / BPS_BASE;
    let mut house_cut = sat_mul(bet, house_bps + treasury_bps) / BPS_BASE;
    let potential_ref = sat_mul(bet, ref_bps) / BPS_BASE;
    let mut ref_cut: u64 = 0;
    if has_ref && referrer_lamports >= REFERRER_MIN_BALANCE && potential_ref
        >= REFERRER_MIN_COMMISSION {
        ref_cut = potential_ref;
    } else {
        house_cut = house_cut + potential_ref;
    }
    (house_cut, ref_cut, jackpot_cut)
}

/// The jackpot prize a bet wins with this seed, drawn independently of the
/// game's outcome.
pub fn draw_jackpot(bet: u64, jackpot_balance: u64, seed: &[u8; 32]) -> (r: u64)
    ensures
        r == jackpot_prize_spec(bet as int, jackpot_balance as int, seed@),
        r <= jackpot_balance,
{
    let mut prize: u64 = 0;
    if bet >= JACKPOT_MIN_BET && jackpot_balance >= JACKPOT_MIN_POOL {
        let draw = read_u32_le(seed, 24) as u64;
        let mut threshold = sat_mul(bet, JACKPOT_RATE) / JACKPOT_BASE;
        if threshold > JACKPOT_MAX_THRESHOLD {
            threshold = JACKPOT_MAX_THRESHOLD;
        }
        if draw < threshold {
            prize = sat_mul(jackpot_balance, 90) / 100;
        }
    }
    prize
}

/// A settlement whose outflows and reserve increments the liquid funds
/// cover keeps a solvent pool solvent, and cannot make an insolvent pool
/// solvent: after every settlement the physical funds still cover the house
/// and jackpot reserves.
pub proof fn lemma_settlement_solvency(acct: PoolAccount, st: Settlement, won: bool, gross_payout: u64)
    requires
        settlement_need(st, won, gross_payout as int) <= acct.liquid(),
        st.jackpot_prize <= acct.pool.jackpot_balance,
        st.player_credit + st.referrer_credit == (if won {
            gross_payout as int
        } else {
            0
        }) + st.jackpot_prize + st.referrer_cut,
    ensures
        acct.lamports >= st.player_credit + st.referrer_credit,
        apply_settlement(acct, st, won, gross_payout).solvent() == acct.solvent(),
{
}

/// Settles one resolved bet: splits fees off the bet amount, draws the
/// jackpot, checks that liquid funds cover every outflow and reserve
/// increment, moves the funds and resynchronises the pool. Every amount is
/// computed before anything changes, so a failure leaves the pool as it was.
///
/// `referrer_lamports` is the referrer's standing balance, and
/// `referrer_can_receive` says whether the referrer's account accepts funds;
/// when it does not, the commission goes to the player instead.
pub fn settle_outcome(
    acct: &mut PoolAccount,
    session: &GameSession,
    won: bool,
    gross_payout: u64,
    seed: &[u8; 32],
    referrer_lamports: u64,
    referrer_can_receive: bool,
) -> (r: Result<Settlement, BlitzError>)
    ensures
        ({
            let st = settlement_spec(
                *old(acct),
                *session,
                won,
                gross_payout as int,
                seed@,
                referrer_lamports as int,
                referrer_can_receive,
            );
            let need = settlement_need(st, won, gross_payout as int);
            &&& need > old(acct).liquid() ==> r == Err::<Settlement, BlitzError>(
                BlitzError::InsufficientLiquidity,
            )
            &&& need <= old(acct).liquid() && !old(acct).solvent() ==> r == Err::<
                Settlement,
                BlitzError,
            >(BlitzError::AccountingBroken)
            &&& need <= old(acct).liquid() && old(acct).solvent() ==> r == Ok::<
                Settlement,
                BlitzError,
            >(st) && *final(acct) == apply_settlement(*old(acct), st, won, gross_payout).resynced()
        }),
        r is Ok ==> final(acct).solvent() && final(acct).synced(),
        r is Err ==> *final(acct) == *old(acct),
{
    let (house_cut, ref_cut, jackpot_cut) = split_fees(session, referrer_lamports);
    let jackpot_prize = draw_jackpot(session.bet_lamports, acct.pool.jackpot_balance, seed);

    let payout: u64 = if won {
        gross_payout
    } else {
        0
    };
    let available = liquid_balance(acct);
    let need: u128 = payout as u128 + ref_cut as u128 + jackpot_cut as u128 + house_cut as u128
        + jackpot_prize as u128;
    if need > available as u128 {
        return Err(BlitzError::InsufficientLiquidity);
    }

    let redirected: u64 = if referrer_can_receive {
        0
    } else {
        ref_cut
    };
    let player_credit = payout + jackpot_prize + redirected;
    let referrer_credit: u64 = if referrer_can_receive {
        ref_cut
    } else {
        0
    };
    let settlement = Settlement {
        house_cut,
        referrer_cut: ref_cut,
        jackpot_cut,
        jackpot_prize,
        player_credit,
        referrer_credit,
    };

    proof {
        lemma_settlement_solvency(*old(acct), settlement, won, gross_payout);
    }
    let mut next = *acct;
    next.lamports = acct.lamports - player_credit - referrer_credit;
    next.pool.jackpot_balance = acct.pool.jackpot_balance.saturating_sub(jackpot_prize).saturating_add(
        jackpot_cut,
    );
    next.pool.house_fees_earned = acct.pool.house_fees_earned.saturating_add(house_cut);
    if won {
        next.pool.total_wins = acct.pool.total_wins.wrapping_add(1);
        if gross_payout > acct.pool.biggest_win {
            next.pool.biggest_win = gross_payout;
        }
    }
    if jackpot_prize > 0 {
        next.pool.total_jackpot_won = acct.pool.total_jackpot_won.wrapping_add(jackpot_prize);
    }
    assert(next == apply_settlement(*old(acct), settlement, won, gross_payout));
    commit_if_solvent(acct, next)?;
    Ok(settlement)
}

} // verus!
