//! Account identities.
use vstd::prelude::*;

verus! {

/// A 32-byte account identity.
pub type Pubkey = [u8; 32];

/// The all-zero identity: the system program's, also used for "no account".
pub open spec fn is_null_key(k: Seq<u8>) -> bool {
    forall|j: int| 0 <= j < k.len() ==> k[j] == 0u8
}

/// Whether two keys are the same.
pub fn same_key(a: &Pubkey, b: &Pubkey) -> (r: bool)
    ensures
        r == (a@ == b@),
{
    let mut i: usize = 0;
    while i < 32
        invariant
            i <= 32,
            a@.len() == 32,
            b@.len() == 32,
            forall|j: int| 0 <= j < i ==> a@[j] == b@[j],
        decreases 32 - i,
    {
        if a[i] != b[i] {
            return false;
        }
        i = i + 1;
    }
    assert(a@ =~= b@);
    true
}

/// Whether `k` is the all-zero identity.
pub fn is_null(k: &Pubkey) -> (r: bool)
    ensures
        r == is_null_key(k@),
{
    let mut i: usize = 0;
    while i < 32
        invariant
            i <= 32,
            k@.len() == 32,
            forall|j: int| 0 <= j < i ==> k@[j] == 0u8,
        decreases 32 - i,
    {
        if k[i] != 0 {
            return false;
        }
        i = i + 1;
    }
    true
}

/// Whether `referrer` names someone who can earn a commission on `player`'s
/// bet: it is neither the system program nor the player.
pub open spec fn valid_referrer_spec(referrer: Seq<u8>, player: Seq<u8>) -> bool {
    !is_null_key(referrer) && referrer != player
}

pub fn is_valid_referrer(referrer: Pubkey, player: Pubkey) -> (r: bool)
    ensures
        r == valid_referrer_spec(referrer@, player@),
{
    !is_null(&referrer) && !same_key(&referrer, &player)
}

} // verus!
