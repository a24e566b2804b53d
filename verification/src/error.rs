use vstd::prelude::*;

verus! {

/// Why an instruction is refused.
#[derive(Clone, Copy, Debug, PartialEq, Eq)]
pub enum StakingError {
    InvalidStakingMint,
    InvalidStakedVault,
    InvalidLSTMint,
    InvalidRewardTokenMint,
    Unauthorized,
    Paused,
    AlreadyPaused,
    ZeroStakeAmount,
    InsufficientFunds,
    InvalidRateAmount,
    NoRewardsToClaim,
    InsufficientAmount,
    InsufficientLSTAmount,
    MathOverflow,
}

} // verus!
