//! Commit-reveal randomness: the seed of a bet is a one-way hash of the
//! player's secret nonce, three consecutive recent block hashes starting at
//! the bet's resolve slot, the resolve slot and the bet amount.
use vstd::prelude::*;
use crate::error::BlitzError;
use crate::math::{le_bytes_spec, le_u64_at, push_all, push_u64_le, read_u64_le, sat_sub_spec};
use crate::session::GameSession;

verus! {

/// Number of recent slot hashes the host's oracle keeps.
pub const SLOT_HASH_WINDOW: u64 = 512;
/// Size of one oracle entry: an 8-byte slot and its 32-byte hash.
pub const SLOT_HASH_ENTRY: usize = 40;

/// SHA-256 of `data`.
pub uninterp spec fn sha256_of(data: Seq<u8>) -> Seq<u8>;

/// The 32-byte BLAKE3 digest of `data`.
pub uninterp spec fn blake3_of(data: Seq<u8>) -> Seq<u8>;

/// Relies on `anchor_lang::solana_program::hash::hash`: the SHA-256 digest of
/// its input, which depends on the input alone.
#[verifier::external_body]
fn sha256_digest(data: &[u8]) -> (r: [u8; 32])
    ensures
        r@ == sha256_of(data@),
{
    anchor_lang::solana_program::hash::hash(data).to_bytes()
}

/// Relies on `blake3::hash`: the 32-byte BLAKE3 digest of its input, which
/// depends on the input alone.
#[verifier::external_body]
fn blake3_digest(data: &[u8]) -> (r: [u8; 32])
    ensures
        r@ == blake3_of(data@),
{
    *blake3::hash(data).as_bytes()
}

/// The commitment that a nonce opens.
pub fn commitment_of(nonce: &[u8; 32]) -> (r: [u8; 32])
    ensures
        r@ == sha256_of(nonce@),
{
    sha256_digest(nonce)
}

// ── The slot-hash oracle's data ─────────────────────────────────────────
// An 8-byte little-endian entry count, then entries of an 8-byte slot and
// its 32-byte hash. At most the window's worth of entries that fit in the
// data are read.

pub open spec fn entry_count(data: Seq<u8>) -> int {
    if data.len() < 8 {
        0
    } else {
        let n = le_u64_at(data, 0);
        let fit = (data.len() - 8) / 40;
        if n <= SLOT_HASH_WINDOW && n <= fit {
            n
        } else if SLOT_HASH_WINDOW <= fit {
            SLOT_HASH_WINDOW as int
        } else {
            fit
        }
    }
}

pub open spec fn entry_offset(i: int) -> int {
    8 + 40 * i
}

pub open spec fn entry_slot(data: Seq<u8>, i: int) -> int {
    le_u64_at(data, entry_offset(i))
}

pub open spec fn entry_hash(data: Seq<u8>, i: int) -> Seq<u8> {
    data.subrange(entry_offset(i) + 8, entry_offset(i) + 40)
}

/// The hash of the first entry at or after entry `i` that names `slot`.
pub open spec fn lookup_from(data: Seq<u8>, slot: int, i: int) -> Option<Seq<u8>>
    decreases entry_count(data) - i,
{
    if i < 0 || i >= entry_count(data) {
        None
    } else if entry_slot(data, i) == slot {
        Some(entry_hash(data, i))
    } else {
        lookup_from(data, slot, i + 1)
    }
}

/// The hash the oracle data records for `slot`, if any.
pub open spec fn slot_hash_lookup(data: Seq<u8>, slot: int) -> Option<Seq<u8>> {
    lookup_from(data, slot, 0)
}

proof fn lemma_lookup_beyond_u64(data: Seq<u8>, slot: int, i: int)
    requires
        slot > u64::MAX,
        i >= 0,
    ensures
        lookup_from(data, slot, i) is None,
    decreases entry_count(data) - i,
{
    if i < entry_count(data) {
        assert(entry_slot(data, i) <= u64::MAX);
        lemma_lookup_beyond_u64(data, slot, i + 1);
    }
}

/// Finds the hash that the oracle data records for `slot`.
pub fn find_slot_hash(data: &[u8], slot: u64) -> (r: Option<[u8; 32]>)
    ensures
        r is None <==> slot_hash_lookup(data@, slot as int) is None,
        r matches Some(h) ==> slot_hash_lookup(data@, slot as int) == Some(h@),
{
    if data.len() < 8 {
        return None;
    }
    let n = read_u64_le(data, 0);
    let fit = (data.len() - 8) / SLOT_HASH_ENTRY;
    let count: usize = if n <= SLOT_HASH_WINDOW && n <= fit as u64 {
        n as usize
    } else if SLOT_HASH_WINDOW <= fit as u64 {
        SLOT_HASH_WINDOW as usize
    } else {
        fit
    };
    assert(count == entry_count(data@));
    let mut i: usize = 0;
    while i < count
        invariant
            count == entry_count(data@),
            count <= SLOT_HASH_WINDOW,
            8 + 40 * count <= data@.len(),
            i <= count,
            slot_hash_lookup(data@, slot as int) == lookup_from(data@, slot as int, i as int),
        decreases count - i,
    {
        let off = 8 + i * SLOT_HASH_ENTRY;
        let s = read_u64_le(data, off);
        if s == slot {
            let len = data.len();
            let mut h = [0u8; 32];
            let mut k: usize = 0;
            while k < 32
                invariant
                    k <= 32,
                    off + 40 <= len,
                    len == data@.len(),
                    h@.len() == 32,
                    forall|j: int| 0 <= j < k ==> h@[j] == data@[off + 8 + j],
                decreases 32 - k,
            {
                h[k] = data[off + 8 + k];
                k = k + 1;
            }
            assert(h@ =~= entry_hash(data@, i as int));
            return Some(h);
        }
        i = i + 1;
    }
    None
}

/// What the seed hashes: nonce, the three slot hashes, the resolve slot and
/// the bet amount, integers as little-endian bytes.
pub open spec fn seed_preimage(
    nonce: Seq<u8>,
    h0: Seq<u8>,
    h1: Seq<u8>,
    h2: Seq<u8>,
    slot: u64,
    bet: u64,
) -> Seq<u8> {
    nonce + h0 + h1 + h2 + le_bytes_spec(slot) + le_bytes_spec(bet)
}

/// The seed's preimage for a bet resolving at `slot`, or `None` when one of
/// the three slot hashes is missing from the oracle data.
pub open spec fn seed_input(data: Seq<u8>, slot: u64, nonce: Seq<u8>, bet: u64) -> Option<Seq<u8>> {
    match (
        slot_hash_lookup(data, slot as int),
        slot_hash_lookup(data, slot + 1),
        slot_hash_lookup(data, slot + 2),
    ) {
        (Some(h0), Some(h1), Some(h2)) => Some(seed_preimage(nonce, h0, h1, h2, slot, bet)),
        _ => None,
    }
}

/// Derives the 32-byte seed of a bet from the oracle data, its resolve slot,
/// the revealed nonce and the bet amount.
pub fn extract_seed(slot_hashes: &[u8], target_slot: u64, nonce: &[u8; 32], bet_lamports: u64) -> (r:
    Result<[u8; 32], BlitzError>)
    ensures
        match seed_input(slot_hashes@, target_slot, nonce@, bet_lamports) {
            Some(input) => r matches Ok(seed) && seed@ == blake3_of(input),
            None => r == Err::<[u8; 32], BlitzError>(BlitzError::SlotHashNotFound),
        },
{
    let h0 = match find_slot_hash(slot_hashes, target_slot) {
        Some(h) => h,
        None => return Err(BlitzError::SlotHashNotFound),
    };
    let s1 = match target_slot.checked_add(1) {
        Some(s) => s,
        None => {
            proof {
                lemma_lookup_beyond_u64(slot_hashes@, target_slot + 1, 0);
            }
            return Err(BlitzError::SlotHashNotFound);
        },
    };
    let h1 = match find_slot_hash(slot_hashes, s1) {
        Some(h) => h,
        None => return Err(BlitzError::SlotHashNotFound),
    };
    let s2 = match target_slot.checked_add(2) {
        Some(s) => s,
        None => {
            proof {
                lemma_lookup_beyond_u64(slot_hashes@, target_slot + 2, 0);
            }
            return Err(BlitzError::SlotHashNotFound);
        },
    };
    let h2 = match find_slot_hash(slot_hashes, s2) {
        Some(h) => h,
        None => return Err(BlitzError::SlotHashNotFound),
    };
    let mut input: Vec<u8> = Vec::new();
    push_all(&mut input, nonce);
    push_all(&mut input, &h0);
    push_all(&mut input, &h1);
    push_all(&mut input, &h2);
    push_u64_le(&mut input, target_slot);
    push_u64_le(&mut input, bet_lamports);
    assert(input@ =~= seed_preimage(nonce@, h0@, h1@, h2@, target_slot, bet_lamports));
    Ok(blake3_digest(input.as_slice()))
}

// ── Reveal validation ───────────────────────────────────────────────────

/// Which timing or state condition forbids revealing `s` at `clock_slot`.
pub open spec fn reveal_check(s: GameSession, clock_slot: u64, expected_game_type: u8) -> Result<
    (),
    BlitzError,
> {
    if !s.is_pending() {
        Err(BlitzError::SessionNotPending)
    } else if s.game_type != expected_game_type {
        Err(BlitzError::WrongGameType)
    } else if clock_slot < s.resolve_slot {
        Err(BlitzError::TooEarlyToReveal)
    } else if clock_slot > s.forfeit_slot {
        Err(BlitzError::RevealWindowExpired)
    } else if sat_sub_spec(clock_slot as int, s.resolve_slot as int) >= SLOT_HASH_WINDOW {
        Err(BlitzError::SlotTooOld)
    } else {
        Ok(())
    }
}

/// Checks that `session` may be revealed at `clock_slot` as a bet on
/// `expected_game_type`.
pub fn check_reveal_window(session: &GameSession, clock_slot: u64, expected_game_type: u8) -> (r:
    Result<(), BlitzError>)
    ensures
        r == reveal_check(*session, clock_slot, expected_game_type),
{
    if session.game_state != crate::session::STATE_PENDING {
        Err(BlitzError::SessionNotPending)
    } else if session.game_type != expected_game_type {
        Err(BlitzError::WrongGameType)
    } else if clock_slot < session.resolve_slot {
        Err(BlitzError::TooEarlyToReveal)
    } else if clock_slot > session.forfeit_slot {
        Err(BlitzError::RevealWindowExpired)
    } else if clock_slot.saturating_sub(session.resolve_slot) >= SLOT_HASH_WINDOW {
        Err(BlitzError::SlotTooOld)
    } else {
        Ok(())
    }
}

/// Checks that the hash of the revealed nonce is the stored commitment.
pub fn verify_commitment(computed: &[u8; 32], commitment: &[u8; 32]) -> (r: Result<(), BlitzError>)
    ensures
        r is Ok <==> computed@ == commitment@,
        r is Err ==> r == Err::<(), BlitzError>(BlitzError::InvalidNonce),
{
    if crate::keys::same_key(computed, commitment) {
        Ok(())
    } else {
        Err(BlitzError::InvalidNonce)
    }
}

/// All reveal conditions, then the seed: the session is pending and of the
/// expected game, the reveal falls between the resolve and forfeit slots and
/// within the oracle's window, and the nonce opens the commitment.
pub fn validate_and_extract_seed(
    session: &GameSession,
    slot_hashes: &[u8],
    clock_slot: u64,
    nonce: &[u8; 32],
    expected_game_type: u8,
) -> (r: Result<[u8; 32], BlitzError>)
    ensures
        reveal_check(*session, clock_slot, expected_game_type) matches Err(e) ==> r == Err::<
            [u8; 32],
            BlitzError,
        >(e),
        reveal_check(*session, clock_slot, expected_game_type) is Ok && sha256_of(nonce@)
            != session.commitment@ ==> r == Err::<[u8; 32], BlitzError>(BlitzError::InvalidNonce),
        reveal_check(*session, clock_slot, expected_game_type) is Ok && sha256_of(nonce@)
            == session.commitment@ ==> match seed_input(
            slot_hashes@,
            session.resolve_slot,
            nonce@,
            session.bet_lamports,
        ) {
            Some(input) => r matches Ok(seed) && seed@ == blake3_of(input),
            None => r == Err::<[u8; 32], BlitzError>(BlitzError::SlotHashNotFound),
        },
{
    check_reveal_window(session, clock_slot, expected_game_type)?;
    let computed = commitment_of(nonce);
    verify_commitment(&computed, &session.commitment)?;
    extract_seed(slot_hashes, session.resolve_slot, nonce, session.bet_lamports)
}

} // verus!
