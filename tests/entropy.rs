use blitz_games::entropy::{
    check_reveal_window, commitment_of, extract_seed, find_slot_hash, validate_and_extract_seed,
    verify_commitment,
};
use blitz_games::error::BlitzError;
use blitz_games::session::{GameSession, STATE_PENDING, STATE_SETTLED};

fn oracle(entries: &[(u64, [u8; 32])]) -> Vec<u8> {
    let mut data = (entries.len() as u64).to_le_bytes().to_vec();
    for (slot, hash) in entries {
        data.extend_from_slice(&slot.to_le_bytes());
        data.extend_from_slice(hash);
    }
    data
}

fn expected_seed(nonce: &[u8; 32], hashes: [[u8; 32]; 3], slot: u64, bet: u64) -> [u8; 32] {
    let mut input = nonce.to_vec();
    for h in hashes.iter() {
        input.extend_from_slice(h);
    }
    input.extend_from_slice(&slot.to_le_bytes());
    input.extend_from_slice(&bet.to_le_bytes());
    *blake3::hash(&input).as_bytes()
}

fn session(nonce: &[u8; 32]) -> GameSession {
    GameSession {
        player: [1u8; 32],
        referrer: [0u8; 32],
        bet_lamports: 20_000_000,
        commitment: commitment_of(nonce),
        commit_slot: 90,
        resolve_slot: 100,
        forfeit_slot: 1_090,
        game_type: 0,
        game_state: STATE_PENDING,
        target_x: 0,
        target_y: 0,
        target_radius: 0,
        bump: 0,
    }
}

#[test]
fn commitment_is_sha256_of_nonce() {
    let nonce = [7u8; 32];
    let c = commitment_of(&nonce);
    assert_eq!(c, anchor_lang::solana_program::hash::hash(&nonce).to_bytes());
    assert_ne!(c, nonce);
    let zero = commitment_of(&[0u8; 32]);
    assert_eq!(zero[..4], [0x66, 0x68, 0x7a, 0xad]);
}

#[test]
fn slot_hash_lookup_finds_first_entry() {
    let data = oracle(&[(12, [3u8; 32]), (11, [2u8; 32]), (12, [9u8; 32])]);
    assert_eq!(find_slot_hash(&data, 12), Some([3u8; 32]));
    assert_eq!(find_slot_hash(&data, 11), Some([2u8; 32]));
    assert_eq!(find_slot_hash(&data, 13), None);
    assert_eq!(find_slot_hash(&data[..4], 12), None);
}

#[test]
fn slot_hash_lookup_reads_only_entries_that_fit() {
    let mut data = oracle(&[(12, [3u8; 32]), (13, [4u8; 32])]);
    data.truncate(8 + 40 + 20);
    assert_eq!(find_slot_hash(&data, 12), Some([3u8; 32]));
    assert_eq!(find_slot_hash(&data, 13), None);
}

#[test]
fn seed_is_blake3_of_nonce_hashes_slot_and_bet() {
    let nonce = [5u8; 32];
    let hashes = [[10u8; 32], [11u8; 32], [12u8; 32]];
    let data = oracle(&[(103, [1u8; 32]), (102, hashes[2]), (101, hashes[1]), (100, hashes[0])]);
    let seed = extract_seed(&data, 100, &nonce, 20_000_000).unwrap();
    assert_eq!(seed, expected_seed(&nonce, hashes, 100, 20_000_000));
    assert_ne!(seed, nonce);
    // A different bet gives a different seed.
    assert_ne!(extract_seed(&data, 100, &nonce, 20_000_001).unwrap(), seed);
}

#[test]
fn seed_needs_three_consecutive_slots() {
    let data = oracle(&[(100, [1u8; 32]), (102, [3u8; 32])]);
    assert_eq!(extract_seed(&data, 100, &[0u8; 32], 1), Err(BlitzError::SlotHashNotFound));
    assert_eq!(extract_seed(&data, u64::MAX, &[0u8; 32], 1), Err(BlitzError::SlotHashNotFound));
}

#[test]
fn reveal_window_checks_in_order() {
    let nonce = [5u8; 32];
    let mut s = session(&nonce);
    assert_eq!(check_reveal_window(&s, 100, 0), Ok(()));
    assert_eq!(check_reveal_window(&s, 100, 1), Err(BlitzError::WrongGameType));
    assert_eq!(check_reveal_window(&s, 99, 0), Err(BlitzError::TooEarlyToReveal));
    assert_eq!(check_reveal_window(&s, 1_091, 0), Err(BlitzError::RevealWindowExpired));
    assert_eq!(check_reveal_window(&s, 612, 0), Err(BlitzError::SlotTooOld));
    assert_eq!(check_reveal_window(&s, 611, 0), Ok(()));
    s.game_state = STATE_SETTLED;
    assert_eq!(check_reveal_window(&s, 100, 0), Err(BlitzError::SessionNotPending));
}

#[test]
fn nonce_must_open_commitment() {
    let nonce = [5u8; 32];
    let s = session(&nonce);
    assert_eq!(verify_commitment(&commitment_of(&nonce), &s.commitment), Ok(()));
    assert_eq!(verify_commitment(&nonce, &s.commitment), Err(BlitzError::InvalidNonce));
    let hashes = [[10u8; 32], [11u8; 32], [12u8; 32]];
    let data = oracle(&[(100, hashes[0]), (101, hashes[1]), (102, hashes[2])]);
    assert_eq!(
        validate_and_extract_seed(&s, &data, 105, &[6u8; 32], 0),
        Err(BlitzError::InvalidNonce)
    );
    assert_eq!(
        validate_and_extract_seed(&s, &data, 105, &nonce, 0),
        Ok(expected_seed(&nonce, hashes, 100, 20_000_000))
    );
    assert_eq!(
        validate_and_extract_seed(&s, &data, 105, &nonce, 2),
        Err(BlitzError::WrongGameType)
    );
}
