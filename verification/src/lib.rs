//! Reward accounting and instruction rules of a single-pool staking program.
//!
//! Stakers deposit a staked token, the pool accrues a reward per staked unit
//! over time, and each staker's pending reward follows the growth of that
//! accumulator since the staker's last synchronisation. The instruction
//! handlers validate their accounts, decide the outcome and report the token
//! movements that the runtime has to carry out.

pub mod error;
pub mod instructions;
pub mod key;
pub mod states;
pub mod properties;
