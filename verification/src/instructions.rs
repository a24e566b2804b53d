pub mod claim;
pub mod fund;
pub mod initialize;
pub mod pause;
pub mod rate;
pub mod stake;
pub mod unpause;
pub mod unstake;
