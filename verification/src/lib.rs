//! Staking-rewards accounting engine.
//!
//! Tracks a pool of staked tokens and continuously accrues a reward stream to
//! depositors in proportion to their share of the pool over time, using the
//! classic O(1) reward-per-token accumulator technique: the pool keeps one
//! cumulative counter of reward owed per unit of stake (scaled by 10^9 for
//! fixed-point precision), and each staker keeps a snapshot of that counter
//! from the last time their balance was settled.
//!
//! The engine itself performs no I/O: every operation takes the current time
//! as an argument, and operations that move funds report the amount to
//! transfer so that the host can invoke its token-transfer capability and
//! commit or discard the new ledger state atomically.

pub mod accrual;
pub mod errors;
pub mod laws;
pub mod ops;
pub mod state;

pub use errors::StakingError;
pub use ops::claim_rewards;
pub use ops::initialize;
pub use ops::stake;
pub use ops::withdraw;
pub use state::StakerState;
pub use state::StakingRewardsState;
pub use state::SCALE;
