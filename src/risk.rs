//! Bet-time risk limits: how much may be staked and how much a single bet
//! may ever pay, given the pool's liquid funds.
use vstd::prelude::*;
use crate::games::{
    dice_payout, dice_win_chance, flip_payout, sector_payout, tower_payout, two_pow_u64,
    valid_config, win_payout, GAME_DICE, GAME_FLIP, GAME_SECTOR, GAME_TOWER,
};
use crate::math::{min_spec, sat_mul, sat_mul_spec};

verus! {

/// Below this much liquidity the pool is in survival mode (5 SOL).
pub const SURVIVAL_POOL: u64 = 5_000_000_000;
/// Payout-cap tier thresholds (20 SOL and 50 SOL).
pub const GROWING_POOL: u64 = 20_000_000_000;
pub const HEALTHY_POOL: u64 = 50_000_000_000;
/// No bet may pay more than this, whatever the pool's size (25 SOL).
pub const HARD_PAYOUT_CAP: u64 = 25_000_000_000;

/// Minimum delay between placing a bet and its first entropy slot.
pub const BASE_RESOLVE_DELAY: u64 = 5;
/// Bets up to this size wait the shortest extra delay (0.05 SOL).
pub const SMALL_BET: u64 = 50_000_000;
/// Bets above this size wait the longest extra delay (0.5 SOL).
pub const LARGE_BET: u64 = 500_000_000;

pub open spec fn max_bet_spec(pool: int, game: u8) -> int {
    if game > GAME_TOWER {
        0
    } else if pool < SURVIVAL_POOL {
        sat_mul_spec(pool, 1) / 100
    } else if game == GAME_FLIP || game == GAME_DICE {
        sat_mul_spec(pool, 3) / 100
    } else {
        sat_mul_spec(pool, 2) / 100
    }
}

/// Largest bet accepted on `game` when the pool holds `pool` liquid: 1% of
/// the pool in survival mode, otherwise 3% for flip and dice and 2% for
/// sector and tower; 0 for an unknown game.
pub fn get_max_bet(pool: u64, game: u8) -> (r: u64)
    ensures
        r == max_bet_spec(pool as int, game),
{
    if game > GAME_TOWER {
        return 0;
    }
    if pool < SURVIVAL_POOL {
        sat_mul(pool, 1) / 100
    } else if game == GAME_FLIP || game == GAME_DICE {
        sat_mul(pool, 3) / 100
    } else {
        sat_mul(pool, 2) / 100
    }
}

pub open spec fn max_payout_cap_spec(pool: int) -> int {
    let cap = if pool < SURVIVAL_POOL {
        sat_mul_spec(pool, 3) / 100
    } else if pool < GROWING_POOL {
        sat_mul_spec(pool, 5) / 100
    } else if pool < HEALTHY_POOL {
        sat_mul_spec(pool, 8) / 100
    } else {
        sat_mul_spec(pool, 10) / 100
    };
    min_spec(cap, HARD_PAYOUT_CAP as int)
}

/// Most that one bet may pay: 3%, 5%, 8% or 10% of the liquid pool as it
/// crosses the tier thresholds, and never more than the hard cap.
pub fn get_max_payout_cap(pool: u64) -> (r: u64)
    ensures
        r == max_payout_cap_spec(pool as int),
{
    let cap = if pool < SURVIVAL_POOL {
        sat_mul(pool, 3) / 100
    } else if pool < GROWING_POOL {
        sat_mul(pool, 5) / 100
    } else if pool < HEALTHY_POOL {
        sat_mul(pool, 8) / 100
    } else {
        sat_mul(pool, 10) / 100
    };
    if cap <= HARD_PAYOUT_CAP {
        cap
    } else {
        HARD_PAYOUT_CAP
    }
}

/// Slots between placement and the first entropy slot: longer for larger
/// bets, so that biasing the outcome needs more consecutive block producers.
pub open spec fn resolve_delay(bet: int) -> int {
    BASE_RESOLVE_DELAY + if bet <= SMALL_BET {
        5
    } else if bet <= LARGE_BET {
        15 + bet / (SMALL_BET as int)
    } else {
        50
    }
}

pub fn get_resolve_slot(slot: u64, bet: u64) -> (r: u64)
    requires
        slot + resolve_delay(bet as int) <= u64::MAX,
    ensures
        r == slot + resolve_delay(bet as int),
{
    let extra: u64 = if bet <= SMALL_BET {
        5
    } else if bet <= LARGE_BET {
        15 + bet / SMALL_BET
    } else {
        50
    };
    slot + BASE_RESOLVE_DELAY + extra
}

/// The most a bet could pay, from what is known when it is placed. Out of
/// range configuration bytes are read as the smallest-risk setting.
pub open spec fn worst_payout_spec(bet: int, game: u8, c: Seq<u8>) -> int {
    if game == GAME_FLIP {
        flip_payout(bet)
    } else if game == GAME_SECTOR {
        sector_payout(bet, if c[2] <= 3 { c[2] as int } else { 0 })
    } else if game == GAME_DICE {
        let target = if 2 <= c[0] <= 97 { c[0] as int } else { 2 };
        dice_payout(bet, dice_win_chance(target, c[1] == 1))
    } else if game == GAME_TOWER {
        tower_payout(bet, if 1 <= c[0] <= 6 { c[0] as nat } else { 1 })
    } else {
        0
    }
}

pub fn get_worst_payout(bet: u64, game: u8, config: &[u8; 3]) -> (r: u64)
    ensures
        r == worst_payout_spec(bet as int, game, config@),
{
    if game == GAME_FLIP {
        sat_mul(bet, 190) / 100
    } else if game == GAME_SECTOR {
        let radius: u64 = if config[2] <= 3 {
            config[2] as u64
        } else {
            0
        };
        let width = radius * 2 + 1;
        assert(1 <= width * width <= 49) by (nonlinear_arith)
            requires
                1 <= width <= 7,
        ;
        let area = width * width;
        let multiplier_bps = (256 * 10_000 / area) * 95 / 100;
        sat_mul(bet, multiplier_bps) / 10_000
    } else if game == GAME_DICE {
        let target: u64 = if 2 <= config[0] && config[0] <= 97 {
            config[0] as u64
        } else {
            2
        };
        let is_over = config[1] == 1;
        let win_chance = if is_over {
            99u64.saturating_sub(target)
        } else {
            target
        };
        let chance = if win_chance >= 1 {
            win_chance
        } else {
            1
        };
        sat_mul(bet, 9_500) / chance / 100
    } else if game == GAME_TOWER {
        let floors: u8 = if 1 <= config[0] && config[0] <= 6 {
            config[0]
        } else {
            1
        };
        let power = two_pow_u64(floors);
        sat_mul(sat_mul(bet, 95), power) / 100
    } else {
        0
    }
}

/// For every bet whose configuration passes placement, the worst case
/// computed at placement is exactly what the resolver pays on a win: the
/// seed decides only whether the bet wins, never how much a win pays.
pub proof fn lemma_worst_case_is_win_payout(bet: u64, game: u8, c: Seq<u8>)
    requires
        c.len() == 3,
        valid_config(game, c),
    ensures
        worst_payout_spec(bet as int, game, c) == win_payout(game, bet as int, c),
{
}

} // verus!
