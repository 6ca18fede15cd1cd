use vstd::prelude::*;

use crate::errors::StakingError;
use crate::state::pool_config_unchanged;
use crate::state::StakerState;
use crate::state::StakingRewardsState;
use crate::state::SCALE;

verus! {

/// The value the accumulator reaches when resynced at time `now`: unchanged
/// while nothing is staked, otherwise grown by the reward emitted since
/// `updated_at`, scaled and divided (rounding down) over the staked supply.
pub open spec fn reward_per_token_spec(pool: StakingRewardsState, now: u64) -> int {
    if pool.total_supply == 0 {
        pool.reward_per_token_stored as int
    } else {
        pool.reward_per_token_stored + pool.reward_rate * (now - pool.updated_at) * SCALE
            / (pool.total_supply as int)
    }
}

/// Whether resyncing the accumulator at time `now` stays inside the 64-bit
/// range at every intermediate step. When it does not, the resync is rejected
/// as a whole rather than silently wrapping.
pub open spec fn reward_per_token_fits(pool: StakingRewardsState, now: u64) -> bool {
    pool.total_supply == 0 || {
        &&& pool.reward_rate * (now - pool.updated_at) <= u64::MAX
        &&& pool.reward_rate * (now - pool.updated_at) * SCALE <= u64::MAX
        &&& reward_per_token_spec(pool, now) <= u64::MAX
    }
}

/// Reward newly accrued to a staker when the pool accumulator stands at
/// `acc`: their stake times the accumulator growth since their last
/// settlement, scaled back down (rounding down).
pub open spec fn accrued_spec(staker: StakerState, acc: int) -> int {
    staker.amount * (acc - staker.reward_per_token_paid) / (SCALE as int)
}

/// Whether settling a staker against accumulator value `acc` stays inside
/// the 64-bit range.
pub open spec fn earned_fits(staker: StakerState, acc: int) -> bool {
    &&& staker.amount * (acc - staker.reward_per_token_paid) <= u64::MAX
    &&& staker.rewards + accrued_spec(staker, acc) <= u64::MAX
}

/// A staker's total unclaimed reward after settling against accumulator
/// value `acc`: what was already owed plus what newly accrued.
pub open spec fn earned_spec(staker: StakerState, acc: int) -> int {
    staker.rewards + accrued_spec(staker, acc)
}

/// Whether a full reward update (pool resync at `now`, then settlement of
/// this staker) stays inside the 64-bit range.
pub open spec fn update_fits(pool: StakingRewardsState, staker: StakerState, now: u64) -> bool {
    &&& reward_per_token_fits(pool, now)
    &&& earned_fits(staker, reward_per_token_spec(pool, now))
}

impl StakingRewardsState {
    /// The accumulator value as of `now`, computed but not yet persisted.
    ///
    /// With nothing staked there is no denominator to distribute over, so the
    /// stored value is returned unchanged. Any overflow in the fixed-point
    /// arithmetic is reported as `MathError` instead of wrapping.
    pub fn reward_per_token(&self, now: u64) -> (r: Result<u64, StakingError>)
        requires
            now >= self.updated_at,
        ensures
            match r {
                Ok(v) => {
                    &&& reward_per_token_fits(*self, now)
                    &&& v == reward_per_token_spec(*self, now)
                    &&& v >= self.reward_per_token_stored
                },
                Err(e) => {
                    &&& e == StakingError::MathError
                    &&& !reward_per_token_fits(*self, now)
                },
            },
    {
        if self.total_supply == 0 {
            Ok(self.reward_per_token_stored)
        } else {
            let elapsed = now - self.updated_at;
            let reward_added = match self.reward_rate.checked_mul(elapsed) {
                Some(v) => v,
                None => {
                    return Err(StakingError::MathError);
                },
            };
            let scaled = match reward_added.checked_mul(SCALE) {
                Some(v) => v,
                None => {
                    return Err(StakingError::MathError);
                },
            };
            let increment = scaled / self.total_supply;
            match self.reward_per_token_stored.checked_add(increment) {
                Some(v) => Ok(v),
                None => Err(StakingError::MathError),
            }
        }
    }

    /// Advance the accumulator to `now`, the first step of every
    /// balance-affecting operation.
    ///
    /// The accumulator and `updated_at` never decrease, and with nothing
    /// staked the accumulator is left exactly as it was. On failure the pool
    /// is left untouched.
    pub fn resync(&mut self, now: u64) -> (r: Result<(), StakingError>)
        requires
            now >= old(self).updated_at,
        ensures
            match r {
                Ok(()) => {
                    &&& reward_per_token_fits(*old(self), now)
                    &&& final(self).reward_per_token_stored == reward_per_token_spec(
                        *old(self),
                        now,
                    )
                    &&& final(self).updated_at == now
                },
                Err(e) => {
                    &&& e == StakingError::MathError
                    &&& !reward_per_token_fits(*old(self), now)
                    &&& *final(self) == *old(self)
                },
            },
            final(self).total_supply == old(self).total_supply,
            pool_config_unchanged(*old(self), *final(self)),
            final(self).reward_per_token_stored >= old(self).reward_per_token_stored,
            final(self).updated_at >= old(self).updated_at,
            old(self).total_supply == 0 ==> r is Ok
                && final(self).reward_per_token_stored == old(self).reward_per_token_stored,
    {
        match self.reward_per_token(now) {
            Ok(v) => {
                self.reward_per_token_stored = v;
                self.updated_at = now;
                Ok(())
            },
            Err(e) => Err(e),
        }
    }
}

impl StakerState {
    /// This staker's total unclaimed reward against accumulator value
    /// `reward_per_token`: the balance already owed plus the newly accrued
    /// share, with overflow reported as `MathError`.
    pub fn calculate_earned(&self, reward_per_token: u64) -> (r: Result<u64, StakingError>)
        requires
            self.reward_per_token_paid <= reward_per_token,
        ensures
            match r {
                Ok(v) => {
                    &&& earned_fits(*self, reward_per_token as int)
                    &&& v == earned_spec(*self, reward_per_token as int)
                },
                Err(e) => {
                    &&& e == StakingError::MathError
                    &&& !earned_fits(*self, reward_per_token as int)
                },
            },
    {
        let delta = reward_per_token - self.reward_per_token_paid;
        let accumulated = match self.amount.checked_mul(delta) {
            Some(v) => v,
            None => {
                return Err(StakingError::MathError);
            },
        };
        let accrued = accumulated / SCALE;
        match self.rewards.checked_add(accrued) {
            Some(v) => Ok(v),
            None => Err(StakingError::MathError),
        }
    }

    /// Fold the reward newly earned since this staker's last settlement into
    /// their unclaimed balance, and take a fresh snapshot of the accumulator.
    /// On failure the record is left untouched.
    pub fn settle(&mut self, pool_accumulator: u64) -> (r: Result<(), StakingError>)
        requires
            old(self).reward_per_token_paid <= pool_accumulator,
        ensures
            match r {
                Ok(()) => {
                    &&& earned_fits(*old(self), pool_accumulator as int)
                    &&& final(self).rewards == earned_spec(*old(self), pool_accumulator as int)
                    &&& final(self).reward_per_token_paid == pool_accumulator
                },
                Err(e) => {
                    &&& e == StakingError::MathError
                    &&& !earned_fits(*old(self), pool_accumulator as int)
                    &&& *final(self) == *old(self)
                },
            },
            final(self).amount == old(self).amount,
    {
        match self.calculate_earned(pool_accumulator) {
            Ok(v) => {
                self.rewards = v;
                self.reward_per_token_paid = pool_accumulator;
                Ok(())
            },
            Err(e) => Err(e),
        }
    }
}

impl StakingRewardsState {
    /// Resync the pool accumulator to `now`, then settle `staker_state`
    /// against the fresh value. Either both records advance or, on overflow,
    /// neither does.
    pub fn update_reward(&mut self, staker_state: &mut StakerState, now: u64) -> (r: Result<
        (),
        StakingError,
    >)
        requires
            now >= old(self).updated_at,
            old(staker_state).reward_per_token_paid <= old(self).reward_per_token_stored,
        ensures
            match r {
                Ok(()) => {
                    &&& update_fits(*old(self), *old(staker_state), now)
                    &&& final(self).reward_per_token_stored == reward_per_token_spec(
                        *old(self),
                        now,
                    )
                    &&& final(self).updated_at == now
                    &&& final(staker_state).rewards == earned_spec(
                        *old(staker_state),
                        reward_per_token_spec(*old(self), now),
                    )
                    &&& final(staker_state).reward_per_token_paid
                        == final(self).reward_per_token_stored
                },
                Err(e) => {
                    &&& e == StakingError::MathError
                    &&& !update_fits(*old(self), *old(staker_state), now)
                    &&& *final(self) == *old(self)
                    &&& *final(staker_state) == *old(staker_state)
                },
            },
            final(self).total_supply == old(self).total_supply,
            pool_config_unchanged(*old(self), *final(self)),
            final(self).reward_per_token_stored >= old(self).reward_per_token_stored,
            final(self).updated_at >= old(self).updated_at,
            final(staker_state).amount == old(staker_state).amount,
    {
        let reward_per_token = match self.reward_per_token(now) {
            Ok(v) => v,
            Err(e) => {
                return Err(e);
            },
        };
        let earned = match staker_state.calculate_earned(reward_per_token) {
            Ok(v) => v,
            Err(e) => {
                return Err(e);
            },
        };
        self.reward_per_token_stored = reward_per_token;
        self.updated_at = now;
        staker_state.rewards = earned;
        staker_state.reward_per_token_paid = reward_per_token;
        Ok(())
    }
}

} // verus!
