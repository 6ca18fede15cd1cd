use vstd::prelude::*;

verus! {

/// Fixed-point scale: the reward-per-token accumulator carries nine decimal
/// places of fractional precision in integer arithmetic. All divisions round
/// down, so rounding always favours the pool and a staker can never extract
/// more than has accrued.
pub const SCALE: u64 = 1_000_000_000;

/// Global ledger of one staking pool.
///
/// `reward_per_token_stored` is the accumulator: cumulative reward earned per
/// unit of staked token since the pool was created, scaled by [`SCALE`], as of
/// `updated_at`. Both fields only ever grow.
#[derive(Clone, Copy, Debug, PartialEq, Eq, Structural)]
pub struct StakingRewardsState {
    /// Identity of the entity that created the pool.
    pub owner: u64,
    /// Length of the intended reward schedule, in seconds.
    pub duration: u64,
    /// Identifier of the asset that stakers deposit.
    pub staking_token: u64,
    /// Identifier of the asset that rewards are paid in.
    pub rewards_token: u64,
    /// Sum of every staker's `amount`.
    pub total_supply: u64,
    /// Time of the last accumulator resync, in seconds since the epoch.
    pub updated_at: u64,
    /// Cumulative reward per unit of stake, scaled by [`SCALE`].
    pub reward_per_token_stored: u64,
    /// Rewards emitted per second, in reward-token base units.
    pub reward_rate: u64,
    /// End of the intended reward schedule (`creation time + duration`).
    /// Recorded at initialization; accrual is not capped by it.
    pub finish_at: u64,
}

/// Per-depositor ledger record.
#[derive(Clone, Copy, Debug, PartialEq, Eq, Structural)]
pub struct StakerState {
    /// Tokens currently staked by this account.
    pub amount: u64,
    /// The pool accumulator value as of this account's last settlement.
    pub reward_per_token_paid: u64,
    /// Unclaimed reward balance, in reward-token base units.
    pub rewards: u64,
}

/// The fields of the pool that no stake, withdraw or claim ever changes.
pub open spec fn pool_config_unchanged(p0: StakingRewardsState, p1: StakingRewardsState) -> bool {
    &&& p1.owner == p0.owner
    &&& p1.duration == p0.duration
    &&& p1.staking_token == p0.staking_token
    &&& p1.rewards_token == p0.rewards_token
    &&& p1.reward_rate == p0.reward_rate
    &&& p1.finish_at == p0.finish_at
}

} // verus!
