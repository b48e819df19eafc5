//! The per-bet session record and its lifecycle: placement, reveal,
//! forfeiture and the refund paths.
use vstd::prelude::*;
use crate::error::BlitzError;
use crate::entropy::{blake3_of, reveal_check, seed_input, sha256_of, validate_and_extract_seed};
use crate::games::{
    config_check, outcome_spec, resolve_game, validate_game_config, GameOutcome, GAME_DICE,
    GAME_FLIP, GAME_SECTOR, GAME_TOWER,
};
use crate::keys::{is_null, is_null_key, same_key, Pubkey};
use crate::ledger::{
    apply_settlement, commit_if_solvent, liquid_balance, settle_outcome, settlement_need,
    settlement_spec, sync_pool_balance, PoolAccount, Settlement,
};
use crate::math::{sat_add_spec, sat_mul, sat_mul_spec};
use crate::risk::{
    get_max_bet, get_max_payout_cap, get_resolve_slot, get_worst_payout, max_bet_spec,
    max_payout_cap_spec, resolve_delay, worst_payout_spec,
};

verus! {

/// Status of a session that still waits for its outcome.
pub const STATE_PENDING: u8 = 0;
/// Status of a session whose outcome was revealed and settled.
pub const STATE_SETTLED: u8 = 2;
/// Status of a session that ended without a reveal.
pub const STATE_FORFEITED: u8 = 3;

/// One bet, from placement until it reaches a terminal status.
#[derive(Clone, Copy, Debug)]
pub struct GameSession {
    pub player: Pubkey,
    /// Who referred the player; the all-zero key or the player's own key
    /// when nobody did.
    pub referrer: Pubkey,
    pub bet_lamports: u64,
    /// Hash of the player's secret nonce.
    pub commitment: [u8; 32],
    pub commit_slot: u64,
    /// First slot whose hash feeds the seed; the reveal may not come earlier.
    pub resolve_slot: u64,
    /// Last slot at which the reveal is accepted.
    pub forfeit_slot: u64,
    pub game_type: u8,
    pub game_state: u8,
    pub target_x: u8,
    pub target_y: u8,
    pub target_radius: u8,
    pub bump: u8,
}

impl GameSession {
    /// The three game-specific configuration bytes.
    pub open spec fn config(&self) -> Seq<u8> {
        seq![self.target_x, self.target_y, self.target_radius]
    }

    pub open spec fn is_pending(&self) -> bool {
        self.game_state == STATE_PENDING
    }

    pub fn game_config(&self) -> (r: [u8; 3])
        ensures
            r@ == self.config(),
    {
        let r = [self.target_x, self.target_y, self.target_radius];
        assert(r@ =~= self.config());
        r
    }
}


/// Smallest liquid pool that accepts bets (0.1 SOL).
pub const MIN_POOL: u64 = 100_000_000;
/// Smallest bet (0.01 SOL).
pub const MIN_BET: u64 = 10_000_000;
/// Slots after placement during which the bet may be revealed.
pub const REVEAL_WINDOW: u64 = 1000;
/// Slots after the reveal window before anyone may claim a forfeit.
pub const FORFEIT_GRACE: u64 = 200;

/// Which placement check a bet fails first, if any. `liquid` is the pool's
/// liquid balance, and `referrer_is_wallet` whether the referrer's account
/// is an ordinary wallet.
pub open spec fn bet_check(
    paused: bool,
    liquid: int,
    player: Seq<u8>,
    referrer: Seq<u8>,
    referrer_is_wallet: bool,
    game_type: u8,
    bet: int,
    config: Seq<u8>,
) -> Result<(), BlitzError> {
    let worst = worst_payout_spec(bet, game_type, config);
    if paused {
        Err(BlitzError::ContractPaused)
    } else if liquid < MIN_POOL {
        Err(BlitzError::PoolTooLow)
    } else if bet < MIN_BET {
        Err(BlitzError::BetTooSmall)
    } else if config_check(game_type, config) is Err {
        config_check(game_type, config)
    } else if bet > max_bet_spec(liquid, game_type) {
        Err(BlitzError::BetExceedsLimit)
    } else if !is_null_key(referrer) && referrer != player && !referrer_is_wallet {
        Err(BlitzError::InvalidReferrer)
    } else if sat_add_spec(liquid, bet) < worst {
        Err(BlitzError::InsufficientLiquidity)
    } else if worst > max_payout_cap_spec(liquid) {
        Err(BlitzError::PayoutExceedsPoolCap)
    } else {
        Ok(())
    }
}

/// The pool once a bet's stake is escrowed in it, before resynchronising.
pub open spec fn escrowed(acct: PoolAccount, bet: u64) -> PoolAccount {
    PoolAccount {
        lamports: (acct.lamports + bet) as u64,
        pool: crate::ledger::GlobalPool {
            total_wagered: acct.pool.total_wagered.wrapping_add(bet),
            total_bets: acct.pool.total_bets.wrapping_add(1),
            ..acct.pool
        },
        ..acct
    }
}

/// Places a bet: checks the pool and the bet against the risk limits,
/// escrows the stake in the pool and returns the new pending session.
pub fn place_bet(
    acct: &mut PoolAccount,
    player: Pubkey,
    referrer: Pubkey,
    referrer_is_wallet: bool,
    game_type: u8,
    commitment: [u8; 32],
    bet_lamports: u64,
    game_config: [u8; 3],
    clock_slot: u64,
    bump: u8,
) -> (r: Result<GameSession, BlitzError>)
    requires
        clock_slot + REVEAL_WINDOW <= u64::MAX,
        old(acct).lamports + bet_lamports <= u64::MAX,
    ensures
        ({
            let check = bet_check(
                old(acct).pool.paused,
                old(acct).liquid(),
                player@,
                referrer@,
                referrer_is_wallet,
                game_type,
                bet_lamports as int,
                game_config@,
            );
            let next = escrowed(*old(acct), bet_lamports);
            &&& check matches Err(e) ==> r == Err::<GameSession, BlitzError>(e)
            &&& check is Ok && !next.solvent() ==> r == Err::<GameSession, BlitzError>(
                BlitzError::AccountingBroken,
            )
            &&& check is Ok && next.solvent() ==> r is Ok && *final(acct) == next.resynced()
        }),
        r matches Ok(s) ==> {
            &&& s.player == player
            &&& s.referrer == referrer
            &&& s.bet_lamports == bet_lamports
            &&& s.commitment == commitment
            &&& s.commit_slot == clock_slot
            &&& s.resolve_slot == clock_slot + resolve_delay(bet_lamports as int)
            &&& s.forfeit_slot == clock_slot + REVEAL_WINDOW
            &&& s.game_type == game_type
            &&& s.is_pending()
            &&& s.config() == game_config@
            &&& s.bump == bump
        },
        r is Ok ==> final(acct).solvent() && final(acct).synced(),
        r is Err ==> *final(acct) == *old(acct),
{
    let liquid = liquid_balance(acct);
    if acct.pool.paused {
        return Err(BlitzError::ContractPaused);
    }
    if liquid < MIN_POOL {
        return Err(BlitzError::PoolTooLow);
    }
    if bet_lamports < MIN_BET {
        return Err(BlitzError::BetTooSmall);
    }
    validate_game_config(game_type, &game_config)?;
    if bet_lamports > get_max_bet(liquid, game_type) {
        return Err(BlitzError::BetExceedsLimit);
    }
    // A referrer other than "nobody" or the player must be an ordinary wallet.
    if !is_null(&referrer) && !same_key(&referrer, &player) && !referrer_is_wallet {
        return Err(BlitzError::InvalidReferrer);
    }
    // The pool must be able to pay the worst case...
    let worst = get_worst_payout(bet_lamports, game_type, &game_config);
    if liquid.saturating_add(bet_lamports) < worst {
        return Err(BlitzError::InsufficientLiquidity);
    }
    // ...and the worst case must stay under the payout cap.
    if worst > get_max_payout_cap(liquid) {
        return Err(BlitzError::PayoutExceedsPoolCap);
    }
    let session = GameSession {
        player,
        referrer,
        bet_lamports,
        commitment,
        commit_slot: clock_slot,
        resolve_slot: get_resolve_slot(clock_slot, bet_lamports),
        forfeit_slot: clock_slot + REVEAL_WINDOW,
        game_type,
        game_state: STATE_PENDING,
        target_x: game_config[0],
        target_y: game_config[1],
        target_radius: game_config[2],
        bump,
    };
    let mut next = *acct;
    next.lamports = acct.lamports + bet_lamports;
    next.pool.total_wagered = acct.pool.total_wagered.wrapping_add(bet_lamports);
    next.pool.total_bets = acct.pool.total_bets.wrapping_add(1);
    commit_if_solvent(acct, next)?;
    Ok(session)
}


// ── Reveal ──────────────────────────────────────────────────────────────

pub open spec fn settled(s: GameSession) -> GameSession {
    GameSession { game_state: STATE_SETTLED, ..s }
}

pub open spec fn forfeited(s: GameSession) -> GameSession {
    GameSession { game_state: STATE_FORFEITED, ..s }
}

/// The result of resolving and settling session `s` under `seed`.
pub open spec fn revealed_result(
    acct: PoolAccount,
    s: GameSession,
    seed: Seq<u8>,
    referrer_balance: int,
    referrer_can_receive: bool,
) -> Result<(GameOutcome, Settlement), BlitzError> {
    if !s.is_pending() {
        Err(BlitzError::SessionNotPending)
    } else {
        match config_check(s.game_type, s.config()) {
            Err(e) => Err(e),
            Ok(_) => {
                let o = outcome_spec(seed, s);
                let st = settlement_spec(
                    acct,
                    s,
                    o.won_spec(),
                    o.payout_spec() as int,
                    seed,
                    referrer_balance,
                    referrer_can_receive,
                );
                if settlement_need(st, o.won_spec(), o.payout_spec() as int) > acct.liquid() {
                    Err(BlitzError::InsufficientLiquidity)
                } else if !acct.solvent() {
                    Err(BlitzError::AccountingBroken)
                } else {
                    Ok((o, st))
                }
            },
        }
    }
}

/// The pool after resolving and settling session `s` under `seed`.
pub open spec fn revealed_pool(
    acct: PoolAccount,
    s: GameSession,
    seed: Seq<u8>,
    referrer_balance: int,
    referrer_can_receive: bool,
) -> PoolAccount {
    match revealed_result(acct, s, seed, referrer_balance, referrer_can_receive) {
        Ok((o, st)) => apply_settlement(acct, st, o.won_spec(), o.payout_spec()).resynced(),
        Err(_) => acct,
    }
}

/// Resolves a pending session under `seed`, settles it against the pool and
/// closes it as settled.
pub fn settle_revealed(
    acct: &mut PoolAccount,
    session: &mut GameSession,
    seed: &[u8; 32],
    referrer_lamports: u64,
    referrer_can_receive: bool,
) -> (r: Result<(GameOutcome, Settlement), BlitzError>)
    ensures
        r == revealed_result(
            *old(acct),
            *old(session),
            seed@,
            referrer_lamports as int,
            referrer_can_receive,
        ),
        *final(acct) == revealed_pool(
            *old(acct),
            *old(session),
            seed@,
            referrer_lamports as int,
            referrer_can_receive,
        ),
        *final(session) == if r is Ok {
            settled(*old(session))
        } else {
            *old(session)
        },
        r is Ok ==> final(acct).solvent() && final(acct).synced(),
{
    if session.game_state != STATE_PENDING {
        return Err(BlitzError::SessionNotPending);
    }
    let config = session.game_config();
    validate_game_config(session.game_type, &config)?;
    let outcome = resolve_game(seed, session);
    let won = outcome.won();
    let payout = outcome.payout();
    let settlement = settle_outcome(
        acct,
        session,
        won,
        payout,
        seed,
        referrer_lamports,
        referrer_can_receive,
    )?;
    session.game_state = STATE_SETTLED;
    Ok((outcome, settlement))
}

/// The result of revealing `nonce` for session `s` at `clock_slot`.
pub open spec fn reveal_result(
    acct: PoolAccount,
    s: GameSession,
    slot_hashes: Seq<u8>,
    clock_slot: u64,
    nonce: Seq<u8>,
    expected_game_type: u8,
    referrer_balance: int,
    referrer_can_receive: bool,
) -> Result<(GameOutcome, Settlement), BlitzError> {
    match reveal_check(s, clock_slot, expected_game_type) {
        Err(e) => Err(e),
        Ok(_) => if sha256_of(nonce) != s.commitment@ {
            Err(BlitzError::InvalidNonce)
        } else {
            match seed_input(slot_hashes, s.resolve_slot, nonce, s.bet_lamports) {
                None => Err(BlitzError::SlotHashNotFound),
                Some(input) => revealed_result(
                    acct,
                    s,
                    blake3_of(input),
                    referrer_balance,
                    referrer_can_receive,
                ),
            }
        },
    }
}

/// The pool after revealing `nonce` for session `s` at `clock_slot`.
pub open spec fn reveal_pool(
    acct: PoolAccount,
    s: GameSession,
    slot_hashes: Seq<u8>,
    clock_slot: u64,
    nonce: Seq<u8>,
    expected_game_type: u8,
    referrer_balance: int,
    referrer_can_receive: bool,
) -> PoolAccount {
    match reveal_check(s, clock_slot, expected_game_type) {
        Err(_) => acct,
        Ok(_) => if sha256_of(nonce) != s.commitment@ {
            acct
        } else {
            match seed_input(slot_hashes, s.resolve_slot, nonce, s.bet_lamports) {
                None => acct,
                Some(input) => revealed_pool(
                    acct,
                    s,
                    blake3_of(input),
                    referrer_balance,
                    referrer_can_receive,
                ),
            }
        },
    }
}

/// Reveals a pending bet: checks the reveal conditions and the nonce against
/// the commitment, derives the seed from the oracle data, resolves the game
/// and settles it. `slot_hashes` is the slot-hash oracle's data.
pub fn reveal_game(
    acct: &mut PoolAccount,
    session: &mut GameSession,
    slot_hashes: &[u8],
    clock_slot: u64,
    nonce: &[u8; 32],
    expected_game_type: u8,
    referrer_lamports: u64,
    referrer_can_receive: bool,
) -> (r: Result<(GameOutcome, Settlement), BlitzError>)
    ensures
        r == reveal_result(
            *old(acct),
            *old(session),
            slot_hashes@,
            clock_slot,
            nonce@,
            expected_game_type,
            referrer_lamports as int,
            referrer_can_receive,
        ),
        *final(acct) == reveal_pool(
            *old(acct),
            *old(session),
            slot_hashes@,
            clock_slot,
            nonce@,
            expected_game_type,
            referrer_lamports as int,
            referrer_can_receive,
        ),
        *final(session) == if r is Ok {
            settled(*old(session))
        } else {
            *old(session)
        },
        r is Ok ==> old(session).is_pending() && final(acct).solvent(),
{
    let seed = validate_and_extract_seed(session, slot_hashes, clock_slot, nonce, expected_game_type)?;
    settle_revealed(acct, session, &seed, referrer_lamports, referrer_can_receive)
}

/// What a reveal of `nonce` for a bet on `expected_game_type` did: its
/// result, the pool and the session afterwards.
pub open spec fn reveal_done(
    acct: PoolAccount,
    acct_after: PoolAccount,
    s: GameSession,
    s_after: GameSession,
    r: Result<(GameOutcome, Settlement), BlitzError>,
    slot_hashes: Seq<u8>,
    clock_slot: u64,
    nonce: Seq<u8>,
    expected_game_type: u8,
    referrer_balance: int,
    referrer_can_receive: bool,
) -> bool {
    &&& r == reveal_result(
        acct,
        s,
        slot_hashes,
        clock_slot,
        nonce,
        expected_game_type,
        referrer_balance,
        referrer_can_receive,
    )
    &&& acct_after == reveal_pool(
        acct,
        s,
        slot_hashes,
        clock_slot,
        nonce,
        expected_game_type,
        referrer_balance,
        referrer_can_receive,
    )
    &&& s_after == if r is Ok {
        settled(s)
    } else {
        s
    }
    &&& r is Ok ==> s.is_pending() && acct_after.solvent()
}

/// Coin flip: reveal and settle.
pub fn reveal_flip(
    acct: &mut PoolAccount,
    session: &mut GameSession,
    slot_hashes: &[u8],
    clock_slot: u64,
    nonce: &[u8; 32],
    referrer_lamports: u64,
    referrer_can_receive: bool,
) -> (r: Result<(GameOutcome, Settlement), BlitzError>)
    ensures
        reveal_done(
            *old(acct),
            *final(acct),
            *old(session),
            *final(session),
            r,
            slot_hashes@,
            clock_slot,
            nonce@,
            GAME_FLIP,
            referrer_lamports as int,
            referrer_can_receive,
        ),
{
    reveal_game(
        acct,
        session,
        slot_hashes,
        clock_slot,
        nonce,
        GAME_FLIP,
        referrer_lamports,
        referrer_can_receive,
    )
}

/// Coin flip: reveal and settle through the player's delegated signer, which is
/// accepted only before the delegation expires at time `now`.
pub fn reveal_flip_delegated(
    acct: &mut PoolAccount,
    session: &mut GameSession,
    token: &SessionToken,
    now: i64,
    slot_hashes: &[u8],
    clock_slot: u64,
    nonce: &[u8; 32],
    referrer_lamports: u64,
    referrer_can_receive: bool,
) -> (r: Result<(GameOutcome, Settlement), BlitzError>)
    ensures
        now >= token.expires_at ==> r == Err::<(GameOutcome, Settlement), BlitzError>(
            BlitzError::SessionExpired,
        ) && *final(acct) == *old(acct) && *final(session) == *old(session),
        now < token.expires_at ==> reveal_done(
            *old(acct),
            *final(acct),
            *old(session),
            *final(session),
            r,
            slot_hashes@,
            clock_slot,
            nonce@,
            GAME_FLIP,
            referrer_lamports as int,
            referrer_can_receive,
        ),
{
    if now >= token.expires_at {
        return Err(BlitzError::SessionExpired);
    }
    reveal_game(
        acct,
        session,
        slot_hashes,
        clock_slot,
        nonce,
        GAME_FLIP,
        referrer_lamports,
        referrer_can_receive,
    )
}

/// Sector: reveal and settle.
pub fn reveal_sector(
    acct: &mut PoolAccount,
    session: &mut GameSession,
    slot_hashes: &[u8],
    clock_slot: u64,
    nonce: &[u8; 32],
    referrer_lamports: u64,
    referrer_can_receive: bool,
) -> (r: Result<(GameOutcome, Settlement), BlitzError>)
    ensures
        reveal_done(
            *old(acct),
            *final(acct),
            *old(session),
            *final(session),
            r,
            slot_hashes@,
            clock_slot,
            nonce@,
            GAME_SECTOR,
            referrer_lamports as int,
            referrer_can_receive,
        ),
{
    reveal_game(
        acct,
        session,
        slot_hashes,
        clock_slot,
        nonce,
        GAME_SECTOR,
        referrer_lamports,
        referrer_can_receive,
    )
}

/// Sector: reveal and settle through the player's delegated signer, which is
/// accepted only before the delegation expires at time `now`.
pub fn reveal_sector_delegated(
    acct: &mut PoolAccount,
    session: &mut GameSession,
    token: &SessionToken,
    now: i64,
    slot_hashes: &[u8],
    clock_slot: u64,
    nonce: &[u8; 32],
    referrer_lamports: u64,
    referrer_can_receive: bool,
) -> (r: Result<(GameOutcome, Settlement), BlitzError>)
    ensures
        now >= token.expires_at ==> r == Err::<(GameOutcome, Settlement), BlitzError>(
            BlitzError::SessionExpired,
        ) && *final(acct) == *old(acct) && *final(session) == *old(session),
        now < token.expires_at ==> reveal_done(
            *old(acct),
            *final(acct),
            *old(session),
            *final(session),
            r,
            slot_hashes@,
            clock_slot,
            nonce@,
            GAME_SECTOR,
            referrer_lamports as int,
            referrer_can_receive,
        ),
{
    if now >= token.expires_at {
        return Err(BlitzError::SessionExpired);
    }
    reveal_game(
        acct,
        session,
        slot_hashes,
        clock_slot,
        nonce,
        GAME_SECTOR,
        referrer_lamports,
        referrer_can_receive,
    )
}

/// Dice: reveal and settle.
pub fn reveal_dice(
    acct: &mut PoolAccount,
    session: &mut GameSession,
    slot_hashes: &[u8],
    clock_slot: u64,
    nonce: &[u8; 32],
    referrer_lamports: u64,
    referrer_can_receive: bool,
) -> (r: Result<(GameOutcome, Settlement), BlitzError>)
    ensures
        reveal_done(
            *old(acct),
            *final(acct),
            *old(session),
            *final(session),
            r,
            slot_hashes@,
            clock_slot,
            nonce@,
            GAME_DICE,
            referrer_lamports as int,
            referrer_can_receive,
        ),
{
    reveal_game(
        acct,
        session,
        slot_hashes,
        clock_slot,
        nonce,
        GAME_DICE,
        referrer_lamports,
        referrer_can_receive,
    )
}

/// Dice: reveal and settle through the player's delegated signer, which is
/// accepted only before the delegation expires at time `now`.
pub fn reveal_dice_delegated(
    acct: &mut PoolAccount,
    session: &mut GameSession,
    token: &SessionToken,
    now: i64,
    slot_hashes: &[u8],
    clock_slot: u64,
    nonce: &[u8; 32],
    referrer_lamports: u64,
    referrer_can_receive: bool,
) -> (r: Result<(GameOutcome, Settlement), BlitzError>)
    ensures
        now >= token.expires_at ==> r == Err::<(GameOutcome, Settlement), BlitzError>(
            BlitzError::SessionExpired,
        ) && *final(acct) == *old(acct) && *final(session) == *old(session),
        now < token.expires_at ==> reveal_done(
            *old(acct),
            *final(acct),
            *old(session),
            *final(session),
            r,
            slot_hashes@,
            clock_slot,
            nonce@,
            GAME_DICE,
            referrer_lamports as int,
            referrer_can_receive,
        ),
{
    if now >= token.expires_at {
        return Err(BlitzError::SessionExpired);
    }
    reveal_game(
        acct,
        session,
        slot_hashes,
        clock_slot,
        nonce,
        GAME_DICE,
        referrer_lamports,
        referrer_can_receive,
    )
}

/// Tower: reveal and settle.
pub fn reveal_tower(
    acct: &mut PoolAccount,
    session: &mut GameSession,
    slot_hashes: &[u8],
    clock_slot: u64,
    nonce: &[u8; 32],
    referrer_lamports: u64,
    referrer_can_receive: bool,
) -> (r: Result<(GameOutcome, Settlement), BlitzError>)
    ensures
        reveal_done(
            *old(acct),
            *final(acct),
            *old(session),
            *final(session),
            r,
            slot_hashes@,
            clock_slot,
            nonce@,
            GAME_TOWER,
            referrer_lamports as int,
            referrer_can_receive,
        ),
{
    reveal_game(
        acct,
        session,
        slot_hashes,
        clock_slot,
        nonce,
        GAME_TOWER,
        referrer_lamports,
        referrer_can_receive,
    )
}

/// Tower: reveal and settle through the player's delegated signer, which is
/// accepted only before the delegation expires at time `now`.
pub fn reveal_tower_delegated(
    acct: &mut PoolAccount,
    session: &mut GameSession,
    token: &SessionToken,
    now: i64,
    slot_hashes: &[u8],
    clock_slot: u64,
    nonce: &[u8; 32],
    referrer_lamports: u64,
    referrer_can_receive: bool,
) -> (r: Result<(GameOutcome, Settlement), BlitzError>)
    ensures
        now >= token.expires_at ==> r == Err::<(GameOutcome, Settlement), BlitzError>(
            BlitzError::SessionExpired,
        ) && *final(acct) == *old(acct) && *final(session) == *old(session),
        now < token.expires_at ==> reveal_done(
            *old(acct),
            *final(acct),
            *old(session),
            *final(session),
            r,
            slot_hashes@,
            clock_slot,
            nonce@,
            GAME_TOWER,
            referrer_lamports as int,
            referrer_can_receive,
        ),
{
    if now >= token.expires_at {
        return Err(BlitzError::SessionExpired);
    }
    reveal_game(
        acct,
        session,
        slot_hashes,
        clock_slot,
        nonce,
        GAME_TOWER,
        referrer_lamports,
        referrer_can_receive,
    )
}

/// A session leaves Pending at most once: settling or forfeiting it makes it
/// terminal, and a terminal session can be neither revealed, nor settled,
/// nor claimed as forfeited; such an attempt changes no state.
pub proof fn lemma_resolves_once(
    acct: PoolAccount,
    s: GameSession,
    slot_hashes: Seq<u8>,
    clock_slot: u64,
    nonce: Seq<u8>,
    expected_game_type: u8,
    seed: Seq<u8>,
    referrer_balance: int,
    referrer_can_receive: bool,
)
    ensures
        !settled(s).is_pending(),
        !forfeited(s).is_pending(),
        !s.is_pending() ==> {
            &&& reveal_result(
                acct,
                s,
                slot_hashes,
                clock_slot,
                nonce,
                expected_game_type,
                referrer_balance,
                referrer_can_receive,
            ) == Err::<(GameOutcome, Settlement), BlitzError>(BlitzError::SessionNotPending)
            &&& reveal_pool(
                acct,
                s,
                slot_hashes,
                clock_slot,
                nonce,
                expected_game_type,
                referrer_balance,
                referrer_can_receive,
            ) == acct
            &&& revealed_result(acct, s, seed, referrer_balance, referrer_can_receive) == Err::<
                (GameOutcome, Settlement),
                BlitzError,
            >(BlitzError::SessionNotPending)
            &&& !forfeit_open(s, clock_slot)
        },
{
}

// ── Forfeiture and refunds ──────────────────────────────────────────────

/// Whether anyone may claim session `s` as forfeited at `clock_slot`: it is
/// pending and the reveal window and the grace period have both passed.
pub open spec fn forfeit_open(s: GameSession, clock_slot: u64) -> bool {
    s.is_pending() && clock_slot > sat_add_spec(s.forfeit_slot as int, FORFEIT_GRACE as int)
}

/// Closes an unrevealed session as forfeited. The whole stake stays in the
/// pool's liquid funds; the caller earns nothing.
pub fn claim_forfeit(acct: &mut PoolAccount, session: &mut GameSession, clock_slot: u64) -> (r:
    Result<(), BlitzError>)
    ensures
        !forfeit_open(*old(session), clock_slot) ==> r == Err::<(), BlitzError>(
            BlitzError::ForfeitNotAvailable,
        ),
        forfeit_open(*old(session), clock_slot) && !old(acct).solvent() ==> r == Err::<
            (),
            BlitzError,
        >(BlitzError::AccountingBroken),
        forfeit_open(*old(session), clock_slot) && old(acct).solvent() ==> r is Ok
            && *final(acct) == old(acct).resynced() && *final(session) == forfeited(*old(session)),
        r is Err ==> *final(acct) == *old(acct) && *final(session) == *old(session),
{
    if !(session.game_state == STATE_PENDING && clock_slot > session.forfeit_slot.saturating_add(
        FORFEIT_GRACE,
    )) {
        return Err(BlitzError::ForfeitNotAvailable);
    }
    sync_pool_balance(acct)?;
    session.game_state = STATE_FORFEITED;
    Ok(())
}

/// The pool after paying `refund` out and reserving `penalty` for the house.
pub open spec fn refunded(acct: PoolAccount, refund: int, penalty: int) -> PoolAccount {
    PoolAccount {
        lamports: (acct.lamports - refund) as u64,
        pool: crate::ledger::GlobalPool {
            house_fees_earned: sat_add_spec(acct.pool.house_fees_earned as int, penalty) as u64,
            ..acct.pool
        },
        ..acct
    }
}

/// The player's refund after the reveal window: 90% of the stake.
pub open spec fn late_refund(bet: int) -> int {
    sat_mul_spec(bet, 90) / 100
}

/// The refund when the pool cannot cover a bet's worst case: 96% of the stake.
pub open spec fn insolvency_refund(bet: int) -> int {
    sat_mul_spec(bet, 96) / 100
}

/// The player's own way out once the reveal window has passed: 90% of the
/// stake back, 10% kept as a house penalty. Returns the refund.
pub fn emergency_refund(
    acct: &mut PoolAccount,
    session: &mut GameSession,
    caller: Pubkey,
    clock_slot: u64,
) -> (r: Result<u64, BlitzError>)
    ensures
        ({
            let s = *old(session);
            let refund = late_refund(s.bet_lamports as int);
            let next = refunded(*old(acct), refund, s.bet_lamports - refund);
            &&& !s.is_pending() ==> r == Err::<u64, BlitzError>(BlitzError::SessionNotPending)
            &&& s.is_pending() && clock_slot <= s.forfeit_slot ==> r == Err::<u64, BlitzError>(
                BlitzError::ForfeitNotAvailable,
            )
            &&& s.is_pending() && clock_slot > s.forfeit_slot && caller@ != s.player@ ==> r
                == Err::<u64, BlitzError>(BlitzError::NotSessionPlayer)
            &&& s.is_pending() && clock_slot > s.forfeit_slot && caller@ == s.player@ ==> {
                &&& old(acct).liquid() < refund ==> r == Err::<u64, BlitzError>(
                    BlitzError::InsufficientLiquidity,
                )
                &&& old(acct).liquid() >= refund && !next.solvent() ==> r == Err::<
                    u64,
                    BlitzError,
                >(BlitzError::AccountingBroken)
                &&& old(acct).liquid() >= refund && next.solvent() ==> r == Ok::<u64, BlitzError>(
                    refund as u64,
                ) && *final(acct) == next.resynced() && *final(session) == forfeited(s)
            }
        }),
        r is Ok ==> final(acct).solvent(),
        r is Err ==> *final(acct) == *old(acct) && *final(session) == *old(session),
{
    if session.game_state != STATE_PENDING {
        return Err(BlitzError::SessionNotPending);
    }
    if clock_slot <= session.forfeit_slot {
        return Err(BlitzError::ForfeitNotAvailable);
    }
    if !same_key(&session.player, &caller) {
        return Err(BlitzError::NotSessionPlayer);
    }
    let refund = sat_mul(session.bet_lamports, 90) / 100;
    let penalty = session.bet_lamports - refund;
    if liquid_balance(acct) < refund {
        return Err(BlitzError::InsufficientLiquidity);
    }
    let mut next = *acct;
    next.lamports = acct.lamports - refund;
    next.pool.house_fees_earned = acct.pool.house_fees_earned.saturating_add(penalty);
    commit_if_solvent(acct, next)?;
    session.game_state = STATE_FORFEITED;
    Ok(refund)
}

/// Anyone's way out for a player when the pool can no longer cover the
/// session's worst case: 96% of the stake back, 4% kept as a house penalty.
/// Returns the refund.
pub fn emergency_player_refund(acct: &mut PoolAccount, session: &mut GameSession, player: Pubkey) -> (r:
    Result<u64, BlitzError>)
    ensures
        ({
            let s = *old(session);
            let refund = insolvency_refund(s.bet_lamports as int);
            let worst = worst_payout_spec(s.bet_lamports as int, s.game_type, s.config());
            let next = refunded(*old(acct), refund, s.bet_lamports - refund);
            &&& !s.is_pending() ==> r == Err::<u64, BlitzError>(BlitzError::SessionNotPending)
            &&& s.is_pending() && player@ != s.player@ ==> r == Err::<u64, BlitzError>(
                BlitzError::NotSessionPlayer,
            )
            &&& s.is_pending() && player@ == s.player@ ==> {
                &&& old(acct).liquid() >= worst || old(acct).lamports < refund ==> r == Err::<
                    u64,
                    BlitzError,
                >(BlitzError::InsufficientLiquidity)
                &&& old(acct).liquid() < worst && old(acct).lamports >= refund && !next.solvent()
                    ==> r == Err::<u64, BlitzError>(BlitzError::AccountingBroken)
                &&& old(acct).liquid() < worst && old(acct).lamports >= refund && next.solvent()
                    ==> r == Ok::<u64, BlitzError>(refund as u64) && *final(acct)
                    == next.resynced() && *final(session) == forfeited(s)
            }
        }),
        r is Ok ==> final(acct).solvent(),
        r is Err ==> *final(acct) == *old(acct) && *final(session) == *old(session),
{
    if session.game_state != STATE_PENDING {
        return Err(BlitzError::SessionNotPending);
    }
    if !same_key(&session.player, &player) {
        return Err(BlitzError::NotSessionPlayer);
    }
    let config = session.game_config();
    let worst = get_worst_payout(session.bet_lamports, session.game_type, &config);
    if liquid_balance(acct) >= worst {
        return Err(BlitzError::InsufficientLiquidity);
    }
    let refund = sat_mul(session.bet_lamports, 96) / 100;
    let penalty = session.bet_lamports - refund;
    if acct.lamports < refund {
        return Err(BlitzError::InsufficientLiquidity);
    }
    let mut next = *acct;
    next.lamports = acct.lamports - refund;
    next.pool.house_fees_earned = acct.pool.house_fees_earned.saturating_add(penalty);
    commit_if_solvent(acct, next)?;
    session.game_state = STATE_FORFEITED;
    Ok(refund)
}

// ── Delegated reveal ────────────────────────────────────────────────────

/// Longest delegation (24 hours).
pub const MAX_SESSION_SECS: i64 = 86_400;
/// Most a player may forward to the delegate for fees (0.01 SOL).
pub const MAX_SESSION_GAS: u64 = 10_000_000;

/// A player's authorization of an ephemeral signer to reveal on their behalf.
#[derive(Clone, Copy, Debug)]
pub struct SessionToken {
    pub player: Pubkey,
    pub delegate: Pubkey,
    pub expires_at: i64,
    pub bump: u8,
}

/// Authorizes `delegate` to reveal `player`'s bets for `validity_secs`
/// seconds from `now`; `gas_lamports` is what the player forwards to it.
pub fn create_session(
    player: Pubkey,
    delegate: Pubkey,
    validity_secs: i64,
    gas_lamports: u64,
    now: i64,
    bump: u8,
) -> (r: Result<SessionToken, BlitzError>)
    requires
        now + MAX_SESSION_SECS <= i64::MAX,
    ensures
        !(0 < validity_secs <= MAX_SESSION_SECS) ==> r == Err::<SessionToken, BlitzError>(
            BlitzError::InvalidSessionDuration,
        ),
        0 < validity_secs <= MAX_SESSION_SECS && gas_lamports > MAX_SESSION_GAS ==> r == Err::<
            SessionToken,
            BlitzError,
        >(BlitzError::GasTooHigh),
        0 < validity_secs <= MAX_SESSION_SECS && gas_lamports <= MAX_SESSION_GAS ==> r == Ok::<
            SessionToken,
            BlitzError,
        >((SessionToken { player, delegate, expires_at: (now + validity_secs) as i64, bump })),
{
    if !(validity_secs > 0 && validity_secs <= MAX_SESSION_SECS) {
        return Err(BlitzError::InvalidSessionDuration);
    }
    if gas_lamports > MAX_SESSION_GAS {
        return Err(BlitzError::GasTooHigh);
    }
    Ok(SessionToken { player, delegate, expires_at: now + validity_secs, bump })
}

} // verus!
