use vstd::prelude::*;

use crate::accrual::earned_spec;
use crate::accrual::reward_per_token_spec;
use crate::accrual::update_fits;
use crate::errors::StakingError;
use crate::state::pool_config_unchanged;
use crate::state::StakerState;
use crate::state::StakingRewardsState;

verus! {

/// Whether a stake of `amount` at time `now` stays inside the 64-bit range:
/// the reward update must fit, and so must the grown total supply.
pub open spec fn stake_fits(
    pool: StakingRewardsState,
    staker: StakerState,
    amount: u64,
    now: u64,
) -> bool {
    &&& update_fits(pool, staker, now)
    &&& pool.total_supply + amount <= u64::MAX
}

/// What every operation's reward update leaves behind on success: the pool
/// accumulator advanced to its value at `now`, and the staker settled
/// against that fresh value.
pub open spec fn reward_updated(
    pool0: StakingRewardsState,
    staker0: StakerState,
    pool1: StakingRewardsState,
    staker1: StakerState,
    now: u64,
) -> bool {
    &&& pool1.reward_per_token_stored == reward_per_token_spec(pool0, now)
    &&& pool1.updated_at == now
    &&& pool_config_unchanged(pool0, pool1)
    &&& staker1.rewards == earned_spec(staker0, reward_per_token_spec(pool0, now))
    &&& staker1.reward_per_token_paid == pool1.reward_per_token_stored
}

/// Create the pool ledger: nothing staked, accumulator at zero, the clock
/// started at `now` and the intended schedule end recorded. Rejecting a
/// second initialization of the same pool is the host's storage concern.
pub fn initialize(
    owner: u64,
    staking_token: u64,
    rewards_token: u64,
    reward_rate: u64,
    duration: u64,
    now: u64,
) -> (r: Result<StakingRewardsState, StakingError>)
    ensures
        match r {
            Ok(pool) => {
                &&& now + duration <= u64::MAX
                &&& pool.owner == owner
                &&& pool.staking_token == staking_token
                &&& pool.rewards_token == rewards_token
                &&& pool.duration == duration
                &&& pool.reward_rate == reward_rate
                &&& pool.total_supply == 0
                &&& pool.reward_per_token_stored == 0
                &&& pool.updated_at == now
                &&& pool.finish_at == now + duration
            },
            Err(e) => {
                &&& e == StakingError::MathError
                &&& now + duration > u64::MAX
            },
        },
{
    let finish_at = match now.checked_add(duration) {
        Some(v) => v,
        None => {
            return Err(StakingError::MathError);
        },
    };
    Ok(
        StakingRewardsState {
            owner,
            duration,
            staking_token,
            rewards_token,
            total_supply: 0,
            updated_at: now,
            reward_per_token_stored: 0,
            reward_rate,
            finish_at,
        },
    )
}

/// Deposit `amount` staking tokens for `staker`: update rewards, then grow
/// both the staker's balance and the pool's total supply by `amount`.
///
/// On success the host must have moved `amount` staking tokens from the
/// staker into pool custody; on any error both records are left untouched.
pub fn stake(
    pool: &mut StakingRewardsState,
    staker: &mut StakerState,
    amount: u64,
    now: u64,
) -> (r: Result<(), StakingError>)
    requires
        now >= old(pool).updated_at,
        old(staker).reward_per_token_paid <= old(pool).reward_per_token_stored,
        old(staker).amount <= old(pool).total_supply,
    ensures
        r is Ok <==> amount > 0 && stake_fits(*old(pool), *old(staker), amount, now),
        match r {
            Ok(()) => {
                &&& reward_updated(*old(pool), *old(staker), *final(pool), *final(staker), now)
                &&& final(pool).total_supply == old(pool).total_supply + amount
                &&& final(staker).amount == old(staker).amount + amount
            },
            Err(e) => {
                &&& *final(pool) == *old(pool)
                &&& *final(staker) == *old(staker)
                &&& (e == StakingError::AmountIsZero <==> amount == 0)
                &&& (e == StakingError::MathError <==> amount > 0 && !stake_fits(
                    *old(pool),
                    *old(staker),
                    amount,
                    now,
                ))
            },
        },
        final(pool).reward_per_token_stored >= old(pool).reward_per_token_stored,
        final(pool).updated_at >= old(pool).updated_at,
        final(staker).amount <= final(pool).total_supply,
{
    if amount == 0 {
        return Err(StakingError::AmountIsZero);
    }
    let reward_per_token = match pool.reward_per_token(now) {
        Ok(v) => v,
        Err(e) => {
            return Err(e);
        },
    };
    let earned = match staker.calculate_earned(reward_per_token) {
        Ok(v) => v,
        Err(e) => {
            return Err(e);
        },
    };
    let new_supply = match pool.total_supply.checked_add(amount) {
        Some(v) => v,
        None => {
            return Err(StakingError::MathError);
        },
    };
    pool.reward_per_token_stored = reward_per_token;
    pool.updated_at = now;
    pool.total_supply = new_supply;
    staker.rewards = earned;
    staker.reward_per_token_paid = reward_per_token;
    staker.amount = staker.amount + amount;
    Ok(())
}

/// Return `amount` staking tokens to `staker`: update rewards, then shrink
/// both the staker's balance and the pool's total supply by `amount`.
///
/// On success the host must have moved `amount` staking tokens from pool
/// custody back to the staker; on any error both records are left untouched.
pub fn withdraw(
    pool: &mut StakingRewardsState,
    staker: &mut StakerState,
    amount: u64,
    now: u64,
) -> (r: Result<(), StakingError>)
    requires
        now >= old(pool).updated_at,
        old(staker).reward_per_token_paid <= old(pool).reward_per_token_stored,
        old(staker).amount <= old(pool).total_supply,
    ensures
        r is Ok <==> amount > 0 && amount <= old(staker).amount && update_fits(
            *old(pool),
            *old(staker),
            now,
        ),
        match r {
            Ok(()) => {
                &&& reward_updated(*old(pool), *old(staker), *final(pool), *final(staker), now)
                &&& final(pool).total_supply == old(pool).total_supply - amount
                &&& final(staker).amount == old(staker).amount - amount
            },
            Err(e) => {
                &&& *final(pool) == *old(pool)
                &&& *final(staker) == *old(staker)
                &&& (e == StakingError::AmountIsZero <==> amount == 0)
                &&& (e == StakingError::InsufficientStakedAmount <==> amount > 0 && amount > old(
                    staker,
                ).amount)
                &&& (e == StakingError::MathError <==> amount > 0 && amount <= old(staker).amount
                    && !update_fits(*old(pool), *old(staker), now))
            },
        },
        final(pool).reward_per_token_stored >= old(pool).reward_per_token_stored,
        final(pool).updated_at >= old(pool).updated_at,
        final(staker).amount <= final(pool).total_supply,
{
    if amount == 0 {
        return Err(StakingError::AmountIsZero);
    }
    if staker.amount < amount {
        return Err(StakingError::InsufficientStakedAmount);
    }
    let reward_per_token = match pool.reward_per_token(now) {
        Ok(v) => v,
        Err(e) => {
            return Err(e);
        },
    };
    let earned = match staker.calculate_earned(reward_per_token) {
        Ok(v) => v,
        Err(e) => {
            return Err(e);
        },
    };
    pool.reward_per_token_stored = reward_per_token;
    pool.updated_at = now;
    pool.total_supply = pool.total_supply - amount;
    staker.rewards = earned;
    staker.reward_per_token_paid = reward_per_token;
    staker.amount = staker.amount - amount;
    Ok(())
}

/// Pay out `staker`'s unclaimed rewards: update rewards, zero the unclaimed
/// balance, and return the amount owed.
///
/// On success the host must move the returned amount of reward tokens from
/// reward custody to the staker; on any error both records are untouched.
/// A staker whose stake has dropped to zero can still claim what accrued
/// while it was staked.
pub fn claim_rewards(
    pool: &mut StakingRewardsState,
    staker: &mut StakerState,
    now: u64,
) -> (r: Result<u64, StakingError>)
    requires
        now >= old(pool).updated_at,
        old(staker).reward_per_token_paid <= old(pool).reward_per_token_stored,
        old(staker).amount <= old(pool).total_supply,
    ensures
        r is Ok <==> update_fits(*old(pool), *old(staker), now) && earned_spec(
            *old(staker),
            reward_per_token_spec(*old(pool), now),
        ) > 0,
        match r {
            Ok(paid) => {
                &&& paid == earned_spec(*old(staker), reward_per_token_spec(*old(pool), now))
                &&& paid > 0
                &&& final(staker).rewards == 0
                &&& final(staker).reward_per_token_paid == final(pool).reward_per_token_stored
                &&& final(pool).reward_per_token_stored == reward_per_token_spec(*old(pool), now)
                &&& final(pool).updated_at == now
                &&& pool_config_unchanged(*old(pool), *final(pool))
            },
            Err(e) => {
                &&& *final(pool) == *old(pool)
                &&& *final(staker) == *old(staker)
                &&& (e == StakingError::MathError <==> !update_fits(
                    *old(pool),
                    *old(staker),
                    now,
                ))
                &&& (e == StakingError::NoRewards <==> update_fits(*old(pool), *old(staker), now)
                    && earned_spec(*old(staker), reward_per_token_spec(*old(pool), now)) == 0)
            },
        },
        final(pool).total_supply == old(pool).total_supply,
        final(staker).amount == old(staker).amount,
        final(pool).reward_per_token_stored >= old(pool).reward_per_token_stored,
        final(pool).updated_at >= old(pool).updated_at,
        final(staker).amount <= final(pool).total_supply,
{
    let reward_per_token = match pool.reward_per_token(now) {
        Ok(v) => v,
        Err(e) => {
            return Err(e);
        },
    };
    let rewards_to_claim = match staker.calculate_earned(reward_per_token) {
        Ok(v) => v,
        Err(e) => {
            return Err(e);
        },
    };
    if rewards_to_claim == 0 {
        return Err(StakingError::NoRewards);
    }
    pool.reward_per_token_stored = reward_per_token;
    pool.updated_at = now;
    staker.rewards = 0;
    staker.reward_per_token_paid = reward_per_token;
    Ok(rewards_to_claim)
}

} // verus!
