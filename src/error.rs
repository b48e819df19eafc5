use vstd::prelude::*;

verus! {

/// Every way an engine operation can be refused.
#[derive(Clone, Copy, Debug, PartialEq, Eq, Structural)]
pub enum BlitzError {
    ContractPaused,
    PoolTooLow,
    BetTooSmall,
    BetExceedsLimit,
    InvalidGameType,
    InvalidGameConfig,
    InvalidCoordinate,
    InvalidRadius,
    SessionNotPending,
    SessionNotActive,
    RevealWindowExpired,
    TooEarlyToReveal,
    WrongGameType,
    InvalidNonce,
    InsufficientLiquidity,
    SlotHashNotFound,
    ForfeitNotAvailable,
    WithdrawalTooLarge,
    PendingWithdrawal,
    NoWithdrawalRequest,
    TimelockActive,
    SessionExpired,
    InvalidSessionDuration,
    GasTooHigh,
    InvalidDiceTarget,
    InvalidReferrer,
    SlotTooOld,
    NotSessionPlayer,
    PayoutExceedsPoolCap,
    InvalidTowerFloors,
    AccountingBroken,
}

impl BlitzError {
    /// The human-readable message for this error.
    pub fn message(&self) -> String {
        let s = match self {
            BlitzError::ContractPaused => "Contract is paused",
            BlitzError::PoolTooLow => "Pool balance too low",
            BlitzError::BetTooSmall => "Bet too small (min 0.01 SOL)",
            BlitzError::BetExceedsLimit => "Bet exceeds limit",
            BlitzError::InvalidGameType => "Invalid game type",
            BlitzError::InvalidGameConfig => "Invalid game config array",
            BlitzError::InvalidCoordinate => "Invalid coordinate (must be 0-15)",
            BlitzError::InvalidRadius => "Invalid radius (must be 0-3)",
            BlitzError::SessionNotPending => "Session not pending",
            BlitzError::SessionNotActive => "Session not active",
            BlitzError::RevealWindowExpired => "Reveal window expired",
            BlitzError::TooEarlyToReveal => "Too early to reveal",
            BlitzError::WrongGameType => "Wrong game type",
            BlitzError::InvalidNonce => "Invalid nonce",
            BlitzError::InsufficientLiquidity => "Insufficient liquidity",
            BlitzError::SlotHashNotFound => "Slot hash not found",
            BlitzError::ForfeitNotAvailable => "Forfeit not available",
            BlitzError::WithdrawalTooLarge => "Withdrawal too large (max 20%)",
            BlitzError::PendingWithdrawal => "Pending withdrawal exists",
            BlitzError::NoWithdrawalRequest => "No withdrawal request",
            BlitzError::TimelockActive => "Timelock active",
            BlitzError::SessionExpired => "Session key expired",
            BlitzError::InvalidSessionDuration => "Invalid session duration (1s - 24h)",
            BlitzError::GasTooHigh => "Gas funding too high (max 0.01 SOL)",
            BlitzError::InvalidDiceTarget => "Invalid dice target (2-95)",
            BlitzError::InvalidReferrer => "Invalid referrer: must be a regular wallet",
            BlitzError::SlotTooOld => "Slot hash too old (>512 slots), use emergency_refund",
            BlitzError::NotSessionPlayer => "Caller is not the session player",
            BlitzError::PayoutExceedsPoolCap => "Payout exceeds pool safety cap",
            BlitzError::InvalidTowerFloors => "Invalid tower floors (must be 1-6)",
            BlitzError::AccountingBroken => "Accounting invariant violated",
        };
        s.to_string()
    }
}

} // verus!
