use blitz_games::entropy::commitment_of;
use blitz_games::error::BlitzError;
use blitz_games::games::{resolve_game, GameOutcome, GAME_DICE, GAME_FLIP, GAME_SECTOR, GAME_TOWER};
use blitz_games::governance::{claim_house_fees, execute_withdrawal, initialize, request_withdrawal};
use blitz_games::ledger::{liquid_balance, PoolAccount};
use blitz_games::session::{
    claim_forfeit, create_session, emergency_player_refund, emergency_refund, place_bet,
    reveal_dice, reveal_flip, reveal_flip_delegated, reveal_sector_delegated, reveal_tower,
    GameSession, SessionToken, STATE_FORFEITED, STATE_PENDING, STATE_SETTLED,
};

const RENT: u64 = 1_000_000;
const SOL: u64 = 1_000_000_000;
const PLAYER: [u8; 32] = [1u8; 32];
const NOBODY: [u8; 32] = [0u8; 32];
const NONCE: [u8; 32] = [42u8; 32];

fn pool(liquid: u64) -> PoolAccount {
    initialize([9u8; 32], 254, RENT + liquid, RENT)
}

fn bet(acct: &mut PoolAccount, game: u8, amount: u64, config: [u8; 3]) -> Result<GameSession, BlitzError> {
    place_bet(acct, PLAYER, NOBODY, true, game, commitment_of(&NONCE), amount, config, 1_000, 7)
}

fn oracle(first: u64) -> Vec<u8> {
    let mut data = 3u64.to_le_bytes().to_vec();
    for k in 0..3u64 {
        data.extend_from_slice(&(first + k).to_le_bytes());
        data.extend_from_slice(&[k as u8 + 100; 32]);
    }
    data
}

fn seed_for(session: &GameSession) -> [u8; 32] {
    let mut input = NONCE.to_vec();
    for k in 0..3u8 {
        input.extend_from_slice(&[k + 100; 32]);
    }
    input.extend_from_slice(&session.resolve_slot.to_le_bytes());
    input.extend_from_slice(&session.bet_lamports.to_le_bytes());
    *blake3::hash(&input).as_bytes()
}

#[test]
fn placing_a_bet_escrows_the_stake() {
    let mut acct = pool(10 * SOL);
    let s = bet(&mut acct, GAME_FLIP, 20_000_000, [0, 0, 0]).unwrap();
    assert_eq!(s.game_state, STATE_PENDING);
    assert_eq!(s.player, PLAYER);
    assert_eq!(s.bet_lamports, 20_000_000);
    assert_eq!(s.commitment, commitment_of(&NONCE));
    assert_eq!(s.commit_slot, 1_000);
    assert_eq!(s.resolve_slot, 1_010);
    assert_eq!(s.forfeit_slot, 2_000);
    assert_eq!(s.bump, 7);
    assert_eq!(acct.lamports, RENT + 10 * SOL + 20_000_000);
    assert_eq!(acct.pool.total_balance, 10 * SOL + 20_000_000);
    assert_eq!(acct.pool.total_wagered, 20_000_000);
    assert_eq!(acct.pool.total_bets, 1);
}

#[test]
fn placement_rejections() {
    let mut acct = pool(10 * SOL);
    acct.pool.paused = true;
    assert_eq!(bet(&mut acct, GAME_FLIP, 20_000_000, [0, 0, 0]).unwrap_err(), BlitzError::ContractPaused);
    acct.pool.paused = false;

    let mut small = pool(99_999_999);
    assert_eq!(bet(&mut small, GAME_FLIP, 20_000_000, [0, 0, 0]).unwrap_err(), BlitzError::PoolTooLow);

    assert_eq!(bet(&mut acct, GAME_FLIP, 9_999_999, [0, 0, 0]).unwrap_err(), BlitzError::BetTooSmall);
    assert_eq!(bet(&mut acct, 4, 20_000_000, [0, 0, 0]).unwrap_err(), BlitzError::InvalidGameType);
    assert_eq!(bet(&mut acct, GAME_SECTOR, 20_000_000, [16, 0, 0]).unwrap_err(), BlitzError::InvalidCoordinate);
    assert_eq!(bet(&mut acct, GAME_SECTOR, 20_000_000, [0, 0, 4]).unwrap_err(), BlitzError::InvalidRadius);
    assert_eq!(bet(&mut acct, GAME_DICE, 20_000_000, [50, 3, 0]).unwrap_err(), BlitzError::InvalidGameConfig);
    assert_eq!(bet(&mut acct, GAME_DICE, 20_000_000, [96, 0, 0]).unwrap_err(), BlitzError::InvalidDiceTarget);
    assert_eq!(bet(&mut acct, GAME_TOWER, 20_000_000, [7, 0, 0]).unwrap_err(), BlitzError::InvalidTowerFloors);
    // 3% of 10 SOL is the flip limit.
    assert_eq!(bet(&mut acct, GAME_FLIP, 300_000_001, [0, 0, 0]).unwrap_err(), BlitzError::BetExceedsLimit);
    // Six tower floors pay 60.8x: 0.608 SOL is over the 0.5 SOL cap of a 10 SOL pool.
    assert_eq!(bet(&mut acct, GAME_TOWER, 10_000_000, [6, 0, 0]).unwrap_err(), BlitzError::PayoutExceedsPoolCap);
    assert_eq!(
        place_bet(&mut acct, PLAYER, [2u8; 32], false, GAME_FLIP, [0u8; 32], 20_000_000, [0, 0, 0], 1_000, 0)
            .unwrap_err(),
        BlitzError::InvalidReferrer
    );
    // Nothing was escrowed.
    assert_eq!(acct.lamports, RENT + 10 * SOL);
    assert_eq!(acct.pool.total_bets, 0);

    // A radius-0 sector pays 243.2x, more than a 1 SOL pool could cover.
    let mut one = pool(SOL);
    assert_eq!(bet(&mut one, GAME_SECTOR, 10_000_000, [0, 0, 0]).unwrap_err(), BlitzError::InsufficientLiquidity);
}

#[test]
fn referrer_that_is_player_or_nobody_needs_no_wallet_check() {
    let mut acct = pool(10 * SOL);
    assert!(place_bet(&mut acct, PLAYER, PLAYER, false, GAME_FLIP, [0u8; 32], 20_000_000, [0, 0, 0], 1_000, 0).is_ok());
    assert!(place_bet(&mut acct, PLAYER, NOBODY, false, GAME_FLIP, [1u8; 32], 20_000_000, [0, 0, 0], 1_000, 0).is_ok());
}

#[test]
fn reveal_settles_once() {
    let mut acct = pool(10 * SOL);
    let mut s = bet(&mut acct, GAME_FLIP, 20_000_000, [0, 0, 0]).unwrap();
    let pending = s;
    let data = oracle(s.resolve_slot);
    let expected = resolve_game(&seed_for(&pending), &pending);

    assert_eq!(
        reveal_flip(&mut acct, &mut s, &data, 1_009, &NONCE, 0, true).unwrap_err(),
        BlitzError::TooEarlyToReveal
    );
    assert_eq!(
        reveal_flip(&mut acct, &mut s, &data, 1_015, &[0u8; 32], 0, true).unwrap_err(),
        BlitzError::InvalidNonce
    );
    assert_eq!(
        reveal_dice(&mut acct, &mut s, &data, 1_015, &NONCE, 0, true).unwrap_err(),
        BlitzError::WrongGameType
    );
    assert_eq!(
        reveal_flip(&mut acct, &mut s, &oracle(5), 1_015, &NONCE, 0, true).unwrap_err(),
        BlitzError::SlotHashNotFound
    );
    assert_eq!(s.game_state, STATE_PENDING);

    let (outcome, settlement) = reveal_flip(&mut acct, &mut s, &data, 1_015, &NONCE, 0, true).unwrap();
    assert_eq!(outcome, expected);
    assert_eq!(s.game_state, STATE_SETTLED);
    let won = matches!(outcome, GameOutcome::Flip { won: true, .. });
    assert_eq!(settlement.player_credit, if won { 38_000_000 } else { 0 });
    assert_eq!(acct.pool.total_wins, if won { 1 } else { 0 });
    assert_eq!(acct.pool.total_balance, liquid_balance(&acct));

    // A settled session cannot be revealed, forfeited or refunded again.
    let after = acct;
    assert_eq!(
        reveal_flip(&mut acct, &mut s, &data, 1_016, &NONCE, 0, true).unwrap_err(),
        BlitzError::SessionNotPending
    );
    assert_eq!(claim_forfeit(&mut acct, &mut s, 5_000).unwrap_err(), BlitzError::ForfeitNotAvailable);
    assert_eq!(emergency_refund(&mut acct, &mut s, PLAYER, 5_000).unwrap_err(), BlitzError::SessionNotPending);
    assert_eq!(emergency_player_refund(&mut acct, &mut s, PLAYER).unwrap_err(), BlitzError::SessionNotPending);
    assert_eq!(s.game_state, STATE_SETTLED);
    assert_eq!(acct.lamports, after.lamports);
}

#[test]
fn tower_reveal_matches_resolver() {
    let mut acct = pool(10 * SOL);
    let mut s = bet(&mut acct, GAME_TOWER, 10_000_000, [3, 0b101, 0]).unwrap();
    let expected = resolve_game(&seed_for(&s), &s);
    let data = oracle(s.resolve_slot);
    let slot = s.resolve_slot;
    let (outcome, _) = reveal_tower(&mut acct, &mut s, &data, slot, &NONCE, 0, true).unwrap();
    assert_eq!(outcome, expected);
}

#[test]
fn delegated_reveal_needs_live_token() {
    let mut acct = pool(10 * SOL);
    let mut s = bet(&mut acct, GAME_SECTOR, 10_000_000, [5, 5, 3]).unwrap();
    let token = create_session(PLAYER, [3u8; 32], 3_600, 0, 50_000, 1).unwrap();
    let data = oracle(s.resolve_slot);
    assert_eq!(
        reveal_sector_delegated(&mut acct, &mut s, &token, 53_600, &data, 1_015, &NONCE, 0, true).unwrap_err(),
        BlitzError::SessionExpired
    );
    assert_eq!(s.game_state, STATE_PENDING);
    assert!(reveal_sector_delegated(&mut acct, &mut s, &token, 53_599, &data, 1_015, &NONCE, 0, true).is_ok());
    assert_eq!(s.game_state, STATE_SETTLED);

    let mut f = bet(&mut acct, GAME_FLIP, 10_000_000, [0, 0, 0]).unwrap();
    let expired = SessionToken { expires_at: 0, ..token };
    assert_eq!(
        reveal_flip_delegated(&mut acct, &mut f, &expired, 0, &data, 1_015, &NONCE, 0, true).unwrap_err(),
        BlitzError::SessionExpired
    );
}

#[test]
fn delegation_limits() {
    assert_eq!(create_session(PLAYER, [3u8; 32], 0, 0, 100, 1).unwrap_err(), BlitzError::InvalidSessionDuration);
    assert_eq!(create_session(PLAYER, [3u8; 32], 86_401, 0, 100, 1).unwrap_err(), BlitzError::InvalidSessionDuration);
    assert_eq!(create_session(PLAYER, [3u8; 32], 60, 10_000_001, 100, 1).unwrap_err(), BlitzError::GasTooHigh);
    let t = create_session(PLAYER, [3u8; 32], 86_400, 10_000_000, 100, 1).unwrap();
    assert_eq!(t.player, PLAYER);
    assert_eq!(t.delegate, [3u8; 32]);
    assert_eq!(t.expires_at, 86_500);
    assert_eq!(t.bump, 1);
}

#[test]
fn forfeit_after_grace_keeps_stake_in_pool() {
    let mut acct = pool(10 * SOL);
    let mut s = bet(&mut acct, GAME_DICE, 20_000_000, [50, 0, 0]).unwrap();
    assert_eq!(claim_forfeit(&mut acct, &mut s, 2_200).unwrap_err(), BlitzError::ForfeitNotAvailable);
    assert_eq!(claim_forfeit(&mut acct, &mut s, 2_201), Ok(()));
    assert_eq!(s.game_state, STATE_FORFEITED);
    assert_eq!(acct.pool.total_balance, 10 * SOL + 20_000_000);
    assert_eq!(claim_forfeit(&mut acct, &mut s, 2_202).unwrap_err(), BlitzError::ForfeitNotAvailable);
    let data = oracle(s.resolve_slot);
    assert_eq!(
        reveal_dice(&mut acct, &mut s, &data, 1_100, &NONCE, 0, true).unwrap_err(),
        BlitzError::SessionNotPending
    );
}

#[test]
fn late_refund_returns_ninety_percent() {
    let mut acct = pool(10 * SOL);
    let mut s = bet(&mut acct, GAME_FLIP, 20_000_000, [0, 0, 0]).unwrap();
    assert_eq!(emergency_refund(&mut acct, &mut s, PLAYER, 2_000).unwrap_err(), BlitzError::ForfeitNotAvailable);
    assert_eq!(emergency_refund(&mut acct, &mut s, [8u8; 32], 2_001).unwrap_err(), BlitzError::NotSessionPlayer);
    assert_eq!(emergency_refund(&mut acct, &mut s, PLAYER, 2_001), Ok(18_000_000));
    assert_eq!(s.game_state, STATE_FORFEITED);
    assert_eq!(acct.lamports, RENT + 10 * SOL + 2_000_000);
    assert_eq!(acct.pool.house_fees_earned, 2_000_000);
    assert_eq!(acct.pool.total_balance, 10 * SOL);
    assert_eq!(emergency_refund(&mut acct, &mut s, PLAYER, 2_002).unwrap_err(), BlitzError::SessionNotPending);
}

#[test]
fn late_refund_needs_liquidity() {
    let mut acct = pool(10 * SOL);
    let mut s = bet(&mut acct, GAME_FLIP, 20_000_000, [0, 0, 0]).unwrap();
    acct.pool.house_fees_earned = acct.lamports - RENT - 10_000_000;
    assert_eq!(emergency_refund(&mut acct, &mut s, PLAYER, 2_001).unwrap_err(), BlitzError::InsufficientLiquidity);
    assert_eq!(s.game_state, STATE_PENDING);
}

#[test]
fn insolvency_refund_only_when_pool_cannot_cover() {
    let mut acct = pool(10 * SOL);
    let mut s = bet(&mut acct, GAME_FLIP, 100_000_000, [0, 0, 0]).unwrap();
    assert_eq!(emergency_player_refund(&mut acct, &mut s, PLAYER).unwrap_err(), BlitzError::InsufficientLiquidity);
    assert_eq!(emergency_player_refund(&mut acct, &mut s, [8u8; 32]).unwrap_err(), BlitzError::NotSessionPlayer);
    // The operator drains the pool down to less than the 1.9x worst case.
    acct.lamports = RENT + 150_000_000;
    acct.pool.total_balance = 150_000_000;
    assert_eq!(emergency_player_refund(&mut acct, &mut s, PLAYER), Ok(96_000_000));
    assert_eq!(s.game_state, STATE_FORFEITED);
    assert_eq!(acct.lamports, RENT + 54_000_000);
    assert_eq!(acct.pool.house_fees_earned, 4_000_000);
    assert_eq!(acct.pool.total_balance, 50_000_000);
}

#[test]
fn insolvency_refund_that_breaks_reserves_is_refused() {
    let mut acct = pool(10 * SOL);
    let mut s = bet(&mut acct, GAME_FLIP, 100_000_000, [0, 0, 0]).unwrap();
    acct.lamports = RENT + 100_000_000;
    acct.pool.jackpot_balance = 50_000_000;
    assert_eq!(emergency_player_refund(&mut acct, &mut s, PLAYER).unwrap_err(), BlitzError::AccountingBroken);
    assert_eq!(acct.lamports, RENT + 100_000_000);
    assert_eq!(s.game_state, STATE_PENDING);
}

fn covers_reserves(acct: &PoolAccount) -> bool {
    acct.lamports.saturating_sub(acct.rent_minimum) as u128
        >= acct.pool.house_fees_earned as u128 + acct.pool.jackpot_balance as u128
}

#[test]
fn reserves_stay_covered_across_a_sequence() {
    let mut acct = pool(10 * SOL);
    let mut settled = Vec::new();
    for (i, game) in [GAME_FLIP, GAME_DICE, GAME_SECTOR, GAME_TOWER].into_iter().enumerate() {
        let config = match game {
            GAME_DICE => [60, 0, 0],
            GAME_SECTOR => [8, 8, 3],
            GAME_TOWER => [2, 0b01, 0],
            _ => [0, 0, 0],
        };
        let nonce = [i as u8 + 1; 32];
        let mut s = place_bet(&mut acct, PLAYER, NOBODY, true, game, commitment_of(&nonce), 30_000_000, config, 1_000, 0)
            .unwrap();
        assert!(covers_reserves(&acct));
        let data = oracle(s.resolve_slot);
        let r = match game {
            GAME_FLIP => reveal_flip(&mut acct, &mut s, &data, 1_020, &nonce, 0, true),
            GAME_DICE => reveal_dice(&mut acct, &mut s, &data, 1_020, &nonce, 0, true),
            GAME_SECTOR => blitz_games::session::reveal_sector(&mut acct, &mut s, &data, 1_020, &nonce, 0, true),
            _ => reveal_tower(&mut acct, &mut s, &data, 1_020, &nonce, 0, true),
        };
        assert!(r.is_ok());
        assert!(covers_reserves(&acct));
        settled.push(s);
    }
    let mut late = bet(&mut acct, GAME_FLIP, 20_000_000, [0, 0, 0]).unwrap();
    emergency_refund(&mut acct, &mut late, PLAYER, 2_001).unwrap();
    assert!(covers_reserves(&acct));
    request_withdrawal(&mut acct, SOL, 0).unwrap();
    execute_withdrawal(&mut acct, 172_800).unwrap();
    assert!(covers_reserves(&acct));
    let fees = acct.pool.house_fees_earned;
    claim_house_fees(&mut acct, fees).unwrap();
    assert!(covers_reserves(&acct));
    assert_eq!(acct.pool.total_balance, liquid_balance(&acct));
    assert!(settled.iter().all(|s| s.game_state == STATE_SETTLED));
}
