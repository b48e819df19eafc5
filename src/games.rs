//! The four game resolvers: each maps a seed and the bet's configuration to
//! whether the player won and what a win pays. Every game keeps a 5% edge.
use vstd::prelude::*;
use crate::error::BlitzError;
use crate::math::{le_u64_at, max_spec, read_u64_le, sat_mul, sat_mul_spec, sat_sub_spec};
use crate::session::GameSession;

verus! {

pub const GAME_FLIP: u8 = 0;
pub const GAME_SECTOR: u8 = 1;
pub const GAME_DICE: u8 = 2;
pub const GAME_TOWER: u8 = 3;

/// Sector grid side length.
pub const GRID_SIZE: u8 = 16;
/// Largest sector radius.
pub const MAX_RADIUS: u8 = 3;
/// Largest tower height.
pub const MAX_FLOORS: u8 = 6;

/// `2^n`.
pub open spec fn two_pow(n: nat) -> nat
    decreases n,
{
    if n == 0 {
        1
    } else {
        2 * two_pow((n - 1) as nat)
    }
}

pub proof fn lemma_two_pow_mono(n: nat, m: nat)
    requires
        n <= m,
    ensures
        two_pow(n) <= two_pow(m),
    decreases m,
{
    if n < m {
        lemma_two_pow_mono(n, (m - 1) as nat);
    }
}

pub proof fn lemma_two_pow_small(n: nat)
    requires
        n <= 6,
    ensures
        two_pow(n) <= 64,
{
    reveal_with_fuel(two_pow, 7);
    lemma_two_pow_mono(n, 6);
}

/// Which check of bet placement a configuration fails first, if any.
pub open spec fn config_check(game_type: u8, c: Seq<u8>) -> Result<(), BlitzError> {
    if game_type > GAME_TOWER {
        Err(BlitzError::InvalidGameType)
    } else if game_type == GAME_FLIP {
        if c[0] == 0 && c[1] == 0 && c[2] == 0 {
            Ok(())
        } else {
            Err(BlitzError::InvalidGameConfig)
        }
    } else if game_type == GAME_SECTOR {
        if c[0] >= GRID_SIZE || c[1] >= GRID_SIZE {
            Err(BlitzError::InvalidCoordinate)
        } else if c[2] > MAX_RADIUS {
            Err(BlitzError::InvalidRadius)
        } else {
            Ok(())
        }
    } else if game_type == GAME_DICE {
        if c[1] > 1 {
            Err(BlitzError::InvalidGameConfig)
        } else if c[1] == 0 && !(2 <= c[0] <= 95) {
            Err(BlitzError::InvalidDiceTarget)
        } else if c[1] == 1 && !(4 <= c[0] <= 97) {
            Err(BlitzError::InvalidDiceTarget)
        } else {
            Ok(())
        }
    } else {
        if !(1 <= c[0] <= MAX_FLOORS) {
            Err(BlitzError::InvalidTowerFloors)
        } else if c[1] >= two_pow(c[0] as nat) {
            Err(BlitzError::InvalidGameConfig)
        } else {
            Ok(())
        }
    }
}

pub open spec fn valid_config(game_type: u8, c: Seq<u8>) -> bool {
    config_check(game_type, c) is Ok
}

/// `2^n` for a tower height.
pub fn two_pow_u64(n: u8) -> (r: u64)
    requires
        n <= MAX_FLOORS,
    ensures
        r == two_pow(n as nat),
        r <= 64,
{
    let mut r: u64 = 1;
    let mut i: u8 = 0;
    while i < n
        invariant
            i <= n <= MAX_FLOORS,
            r == two_pow(i as nat),
        decreases n - i,
    {
        proof {
            lemma_two_pow_small((i + 1) as nat);
        }
        r = r * 2;
        i = i + 1;
    }
    proof {
        lemma_two_pow_small(n as nat);
    }
    r
}

/// Checks a game type and its three configuration bytes as bet placement
/// requires.
pub fn validate_game_config(game_type: u8, config: &[u8; 3]) -> (r: Result<(), BlitzError>)
    ensures
        r == config_check(game_type, config@),
{
    if game_type > GAME_TOWER {
        return Err(BlitzError::InvalidGameType);
    }
    if game_type == GAME_FLIP {
        if config[0] == 0 && config[1] == 0 && config[2] == 0 {
            Ok(())
        } else {
            Err(BlitzError::InvalidGameConfig)
        }
    } else if game_type == GAME_SECTOR {
        if config[0] >= GRID_SIZE || config[1] >= GRID_SIZE {
            Err(BlitzError::InvalidCoordinate)
        } else if config[2] > MAX_RADIUS {
            Err(BlitzError::InvalidRadius)
        } else {
            Ok(())
        }
    } else if game_type == GAME_DICE {
        if config[1] > 1 {
            Err(BlitzError::InvalidGameConfig)
        } else if config[1] == 0 && !(2 <= config[0] && config[0] <= 95) {
            Err(BlitzError::InvalidDiceTarget)
        } else if config[1] == 1 && !(4 <= config[0] && config[0] <= 97) {
            Err(BlitzError::InvalidDiceTarget)
        } else {
            Ok(())
        }
    } else {
        if !(1 <= config[0] && config[0] <= MAX_FLOORS) {
            Err(BlitzError::InvalidTowerFloors)
        } else if config[1] as u64 >= two_pow_u64(config[0]) {
            Err(BlitzError::InvalidGameConfig)
        } else {
            Ok(())
        }
    }
}

// ── Win payouts ─────────────────────────────────────────────────────────

/// Coin flip pays 1.90x.
pub open spec fn flip_payout(bet: int) -> int {
    sat_mul_spec(bet, 190) / 100
}

/// Sector multiplier in basis points: the grid's 256 cells over the
/// target square's area, less the edge.
pub open spec fn sector_multiplier_bps(radius: int) -> int {
    (2_560_000int / ((2 * radius + 1) * (2 * radius + 1))) * 95 / 100
}

pub open spec fn sector_payout(bet: int, radius: int) -> int {
    sat_mul_spec(bet, sector_multiplier_bps(radius)) / 10_000
}

/// Percent chance that a dice bet wins, as the payout formula counts it.
pub open spec fn dice_win_chance(target: int, is_over: bool) -> int {
    if is_over {
        sat_sub_spec(99, target)
    } else {
        target
    }
}

pub open spec fn dice_payout(bet: int, win_chance: int) -> int {
    sat_mul_spec(bet, 9_500) / max_spec(win_chance, 1) / 100
}

/// Tower pays 0.95 x 2^floors.
pub open spec fn tower_payout(bet: int, floors: nat) -> int {
    sat_mul_spec(sat_mul_spec(bet, 95), two_pow(floors) as int) / 100
}

/// What a winning bet of `bet` with configuration `c` pays; the seed only
/// decides whether it wins.
pub open spec fn win_payout(game_type: u8, bet: int, c: Seq<u8>) -> int {
    if game_type == GAME_FLIP {
        flip_payout(bet)
    } else if game_type == GAME_SECTOR {
        sector_payout(bet, c[2] as int)
    } else if game_type == GAME_DICE {
        dice_payout(bet, dice_win_chance(c[0] as int, c[1] == 1))
    } else if game_type == GAME_TOWER {
        tower_payout(bet, c[0] as nat)
    } else {
        0
    }
}

// ── Rolls ───────────────────────────────────────────────────────────────

/// The percentile roll of flip and dice: the seed's first eight bytes as a
/// little-endian integer, mod 100.
pub open spec fn percentile_roll(seed: Seq<u8>) -> int {
    le_u64_at(seed, 0) % 100
}

pub open spec fn abs_diff_spec(a: int, b: int) -> int {
    if a >= b {
        a - b
    } else {
        b - a
    }
}

/// Where the sector strike lands.
pub open spec fn strike(seed: Seq<u8>) -> (int, int) {
    (seed[0] as int % 16, seed[1] as int % 16)
}

/// Whether a strike at `(sx, sy)` hits the square of `radius` around `(x, y)`.
pub open spec fn sector_hit(sx: int, sy: int, x: int, y: int, radius: int) -> bool {
    max_spec(abs_diff_spec(x, sx), abs_diff_spec(y, sy)) <= radius
}

/// `path >> i`.
pub open spec fn shifted(path: int, i: nat) -> int
    decreases i,
{
    if i == 0 {
        path
    } else {
        shifted(path, (i - 1) as nat) / 2
    }
}

/// The lane the player picked on floor `i` (bit `i` of the path).
pub open spec fn chosen_lane(path: int, i: nat) -> int {
    shifted(path, i) % 2
}

/// The trapped lane of floor `i`.
pub open spec fn trap_lane(seed: Seq<u8>, i: int) -> int {
    seed[i] as int % 2
}

/// The 1-based floor of the first trap the player stepped on among the
/// first `n` floors, or 0 when there was none.
pub open spec fn death_floor(seed: Seq<u8>, path: int, n: nat) -> int
    decreases n,
{
    if n == 0 {
        0
    } else {
        let d = death_floor(seed, path, (n - 1) as nat);
        if d == 0 && chosen_lane(path, (n - 1) as nat) == trap_lane(seed, n - 1) {
            n as int
        } else {
            d
        }
    }
}

/// The trapped lanes of the first `n` floors as a bit pattern.
pub open spec fn trap_pattern(seed: Seq<u8>, n: nat) -> int
    decreases n,
{
    if n == 0 {
        0
    } else {
        trap_pattern(seed, (n - 1) as nat) + trap_lane(seed, n - 1) * two_pow((n - 1) as nat)
    }
}

pub proof fn lemma_trap_pattern_bound(seed: Seq<u8>, n: nat)
    ensures
        0 <= trap_pattern(seed, n) < two_pow(n),
    decreases n,
{
    if n > 0 {
        lemma_trap_pattern_bound(seed, (n - 1) as nat);
        let lane = trap_lane(seed, n - 1);
        assert(lane == 0 || lane == 1);
        if lane == 0 {
            assert(lane * two_pow((n - 1) as nat) == 0);
        } else {
            assert(lane * two_pow((n - 1) as nat) == two_pow((n - 1) as nat));
        }
    }
}

// ── Resolvers ───────────────────────────────────────────────────────────

fn percentile(seed: &[u8; 32]) -> (r: u64)
    ensures
        r == percentile_roll(seed@),
        r < 100,
{
    read_u64_le(seed, 0) % 100
}

/// Dice: the roll must land over (or under) the target.
/// Returns `(won, payout, roll, target, is_over)`.
pub fn resolve_dice(seed: &[u8; 32], session: &GameSession) -> (r: (bool, u64, u8, u8, bool))
    ensures
        r.2 == percentile_roll(seed@),
        r.3 == session.target_x,
        r.4 == (session.target_y == 1),
        r.0 == if r.4 {
            r.2 > session.target_x
        } else {
            r.2 < session.target_x
        },
        r.1 == if r.0 {
            win_payout(GAME_DICE, session.bet_lamports as int, session.config())
        } else {
            0
        },
{
    let roll = percentile(seed);
    let target = session.target_x as u64;
    let is_over = session.target_y == 1;
    let won = if is_over {
        roll > target
    } else {
        roll < target
    };
    let win_chance = if is_over {
        99u64.saturating_sub(target)
    } else {
        target
    };
    let chance = if win_chance >= 1 {
        win_chance
    } else {
        1
    };
    let gross_payout = sat_mul(session.bet_lamports, 9_500) / chance / 100;
    (won, if won {
        gross_payout
    } else {
        0
    }, roll as u8, target as u8, is_over)
}

/// Sector: a strike on the 16x16 grid must land within `radius` (Chebyshev
/// distance) of the target cell. Returns `(won, payout, strike_x, strike_y)`.
pub fn resolve_sector(seed: &[u8; 32], session: &GameSession) -> (r: (bool, u64, u8, u8))
    ensures
        (r.2 as int, r.3 as int) == strike(seed@),
        r.0 == sector_hit(
            r.2 as int,
            r.3 as int,
            session.target_x as int,
            session.target_y as int,
            session.target_radius as int,
        ),
        r.1 == if r.0 {
            win_payout(GAME_SECTOR, session.bet_lamports as int, session.config())
        } else {
            0
        },
{
    let strike_x = seed[0] % 16;
    let strike_y = seed[1] % 16;
    let dist_x = if session.target_x >= strike_x {
        session.target_x - strike_x
    } else {
        strike_x - session.target_x
    };
    let dist_y = if session.target_y >= strike_y {
        session.target_y - strike_y
    } else {
        strike_y - session.target_y
    };
    let max_dist = if dist_x >= dist_y {
        dist_x
    } else {
        dist_y
    };
    let won = max_dist <= session.target_radius;
    let gross_payout = if won {
        let width = session.target_radius as u64 * 2 + 1;
        assert(1 <= width * width <= 511 * 511) by (nonlinear_arith)
            requires
                1 <= width <= 511,
        ;
        let area = width * width;
        let multiplier_bps = (256 * 10_000 / area) * 95 / 100;
        sat_mul(session.bet_lamports, multiplier_bps) / 10_000
    } else {
        0
    };
    (won, gross_payout, strike_x, strike_y)
}

/// Tower: on each floor the player's lane must differ from the trapped one.
/// Returns `(won, payout, death_floor, path, traps)`.
pub fn resolve_tower(seed: &[u8; 32], session: &GameSession) -> (r: (bool, u64, u8, u8, u8))
    requires
        session.target_x <= MAX_FLOORS,
    ensures
        r.2 == death_floor(seed@, session.target_y as int, session.target_x as nat),
        r.3 == session.target_y,
        r.4 == trap_pattern(seed@, session.target_x as nat),
        r.0 == (r.2 == 0),
        r.1 == if r.0 {
            win_payout(GAME_TOWER, session.bet_lamports as int, session.config())
        } else {
            0
        },
{
    let floors = session.target_x;
    let path_bits = session.target_y;
    let mut death: u8 = 0;
    let mut traps: u64 = 0;
    let mut rest: u8 = path_bits;
    let mut bit: u64 = 1;
    let mut i: u8 = 0;
    while i < floors
        invariant
            i <= floors <= MAX_FLOORS,
            seed@.len() == 32,
            death as int == death_floor(seed@, path_bits as int, i as nat),
            death <= i,
            traps as int == trap_pattern(seed@, i as nat),
            rest as int == shifted(path_bits as int, i as nat),
            bit as int == two_pow(i as nat),
            bit <= 64,
        decreases floors - i,
    {
        proof {
            lemma_two_pow_small((i + 1) as nat);
            lemma_trap_pattern_bound(seed@, i as nat);
        }
        let trap_lane = seed[i as usize] % 2;
        let trap_bit: u64 = if trap_lane == 1 {
            bit
        } else {
            0
        };
        assert(trap_bit as int == trap_lane as int * two_pow(i as nat));
        traps = traps + trap_bit;
        let choice = rest % 2;
        if death == 0 && choice == trap_lane {
            death = i + 1;
        }
        rest = rest / 2;
        bit = bit * 2;
        i = i + 1;
    }
    proof {
        lemma_trap_pattern_bound(seed@, floors as nat);
    }
    let won = death == 0;
    let gross_payout = if won {
        sat_mul(sat_mul(session.bet_lamports, 95), bit) / 100
    } else {
        0
    };
    (won, gross_payout, death, path_bits, traps as u8)
}

/// Coin flip: wins on a percentile roll under 50. Returns `(won, payout, roll)`.
pub fn resolve_flip(seed: &[u8; 32], session: &GameSession) -> (r: (bool, u64, u8))
    ensures
        r.2 == percentile_roll(seed@),
        r.0 == (r.2 < 50),
        r.1 == if r.0 {
            win_payout(GAME_FLIP, session.bet_lamports as int, session.config())
        } else {
            0
        },
{
    let roll = percentile(seed);
    let won = roll < 50;
    let gross_payout = sat_mul(session.bet_lamports, 190) / 100;
    (won, if won {
        gross_payout
    } else {
        0
    }, roll as u8)
}

// ── Dispatch by game type ───────────────────────────────────────────────

/// What a reveal decided, with the details each game reports.
#[derive(Clone, Copy, Debug, PartialEq, Eq, Structural)]
pub enum GameOutcome {
    Flip { won: bool, payout: u64, roll: u8 },
    Sector { won: bool, payout: u64, strike_x: u8, strike_y: u8 },
    Dice { won: bool, payout: u64, roll: u8, target: u8, is_over: bool },
    Tower { won: bool, payout: u64, death_floor: u8, path: u8, traps: u8 },
}

impl GameOutcome {
    pub open spec fn won_spec(self) -> bool {
        match self {
            GameOutcome::Flip { won, .. } => won,
            GameOutcome::Sector { won, .. } => won,
            GameOutcome::Dice { won, .. } => won,
            GameOutcome::Tower { won, .. } => won,
        }
    }

    pub open spec fn payout_spec(self) -> u64 {
        match self {
            GameOutcome::Flip { payout, .. } => payout,
            GameOutcome::Sector { payout, .. } => payout,
            GameOutcome::Dice { payout, .. } => payout,
            GameOutcome::Tower { payout, .. } => payout,
        }
    }

    pub fn won(&self) -> (r: bool)
        ensures
            r == self.won_spec(),
    {
        match self {
            GameOutcome::Flip { won, .. } => *won,
            GameOutcome::Sector { won, .. } => *won,
            GameOutcome::Dice { won, .. } => *won,
            GameOutcome::Tower { won, .. } => *won,
        }
    }

    pub fn payout(&self) -> (r: u64)
        ensures
            r == self.payout_spec(),
    {
        match self {
            GameOutcome::Flip { payout, .. } => *payout,
            GameOutcome::Sector { payout, .. } => *payout,
            GameOutcome::Dice { payout, .. } => *payout,
            GameOutcome::Tower { payout, .. } => *payout,
        }
    }
}

/// The outcome of a bet with session `s` under `seed`.
pub open spec fn outcome_spec(seed: Seq<u8>, s: GameSession) -> GameOutcome {
    let bet = s.bet_lamports as int;
    if s.game_type == GAME_FLIP {
        let roll = percentile_roll(seed);
        let won = roll < 50;
        GameOutcome::Flip {
            won,
            payout: if won { win_payout(GAME_FLIP, bet, s.config()) as u64 } else { 0 },
            roll: roll as u8,
        }
    } else if s.game_type == GAME_SECTOR {
        let (sx, sy) = strike(seed);
        let won = sector_hit(sx, sy, s.target_x as int, s.target_y as int, s.target_radius as int);
        GameOutcome::Sector {
            won,
            payout: if won { win_payout(GAME_SECTOR, bet, s.config()) as u64 } else { 0 },
            strike_x: sx as u8,
            strike_y: sy as u8,
        }
    } else if s.game_type == GAME_DICE {
        let roll = percentile_roll(seed);
        let is_over = s.target_y == 1;
        let won = if is_over { roll > s.target_x } else { roll < s.target_x };
        GameOutcome::Dice {
            won,
            payout: if won { win_payout(GAME_DICE, bet, s.config()) as u64 } else { 0 },
            roll: roll as u8,
            target: s.target_x,
            is_over,
        }
    } else {
        let death = death_floor(seed, s.target_y as int, s.target_x as nat);
        let won = death == 0;
        GameOutcome::Tower {
            won,
            payout: if won { win_payout(GAME_TOWER, bet, s.config()) as u64 } else { 0 },
            death_floor: death as u8,
            path: s.target_y,
            traps: trap_pattern(seed, s.target_x as nat) as u8,
        }
    }
}

/// Runs the resolver of the session's game.
pub fn resolve_game(seed: &[u8; 32], session: &GameSession) -> (r: GameOutcome)
    requires
        valid_config(session.game_type, session.config()),
    ensures
        r == outcome_spec(seed@, *session),
{
    if session.game_type == GAME_FLIP {
        let (won, payout, roll) = resolve_flip(seed, session);
        GameOutcome::Flip { won, payout, roll }
    } else if session.game_type == GAME_SECTOR {
        let (won, payout, strike_x, strike_y) = resolve_sector(seed, session);
        GameOutcome::Sector { won, payout, strike_x, strike_y }
    } else if session.game_type == GAME_DICE {
        let (won, payout, roll, target, is_over) = resolve_dice(seed, session);
        GameOutcome::Dice { won, payout, roll, target, is_over }
    } else {
        let (won, payout, death_floor, path, traps) = resolve_tower(seed, session);
        GameOutcome::Tower { won, payout, death_floor, path, traps }
    }
}

} // verus!
