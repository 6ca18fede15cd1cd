use staking_rewards::StakerState;
use staking_rewards::StakingError;
use staking_rewards::StakingRewardsState;

fn pool_with(total_supply: u64, updated_at: u64, stored: u64, rate: u64) -> StakingRewardsState {
    StakingRewardsState {
        owner: 1,
        duration: 1_000,
        staking_token: 2,
        rewards_token: 3,
        total_supply,
        updated_at,
        reward_per_token_stored: stored,
        reward_rate: rate,
        finish_at: 1_000,
    }
}

#[test]
fn reward_per_token_zero_supply_is_unchanged() {
    let pool = pool_with(0, 0, 42, 100);
    assert_eq!(pool.reward_per_token(50), Ok(42));
}

#[test]
fn reward_per_token_exact_value() {
    // 100 rewards/s for 10 s over a supply of 1000: 100*10*1e9/1000 = 1e9.
    let pool = pool_with(1_000, 0, 0, 100);
    assert_eq!(pool.reward_per_token(10), Ok(1_000_000_000));
}

#[test]
fn reward_per_token_rounds_down() {
    // 7*3*1e9/9 = 2_333_333_333.33..., floor division keeps the fraction
    // in the pool's favour.
    let pool = pool_with(9, 0, 0, 7);
    assert_eq!(pool.reward_per_token(3), Ok(2_333_333_333));
}

#[test]
fn reward_per_token_overflow_is_math_error() {
    let pool = pool_with(1_000, 0, 0, u64::MAX);
    assert_eq!(pool.reward_per_token(2), Err(StakingError::MathError));
}

#[test]
fn reward_per_token_scale_overflow_is_math_error() {
    // reward_rate * elapsed fits, but scaling it by 1e9 does not.
    let pool = pool_with(1_000, 0, 0, u64::MAX / 4);
    assert_eq!(pool.reward_per_token(2), Err(StakingError::MathError));
}

#[test]
fn resync_zero_supply_only_advances_clock() {
    let mut pool = pool_with(0, 5, 42, 100);
    assert_eq!(pool.resync(80), Ok(()));
    assert_eq!(pool.reward_per_token_stored, 42);
    assert_eq!(pool.updated_at, 80);
}

#[test]
fn resync_accumulator_and_clock_never_decrease() {
    let mut pool = pool_with(1_000, 0, 0, 100);
    let mut last_stored = pool.reward_per_token_stored;
    let mut last_at = pool.updated_at;
    for now in [3u64, 3, 10, 25] {
        assert_eq!(pool.resync(now), Ok(()));
        assert!(pool.reward_per_token_stored >= last_stored);
        assert!(pool.updated_at >= last_at);
        last_stored = pool.reward_per_token_stored;
        last_at = pool.updated_at;
    }
}

#[test]
fn resync_failure_leaves_pool_untouched() {
    let mut pool = pool_with(1_000, 0, 7, u64::MAX);
    let before = pool;
    assert_eq!(pool.resync(2), Err(StakingError::MathError));
    assert_eq!(pool, before);
}

#[test]
fn calculate_earned_exact_value() {
    // 1000 staked over an accumulator growth of 1e9: 1000*1e9/1e9 = 1000,
    // plus the 5 already owed.
    let staker = StakerState { amount: 1_000, reward_per_token_paid: 0, rewards: 5 };
    assert_eq!(staker.calculate_earned(1_000_000_000), Ok(1_005));
}

#[test]
fn calculate_earned_rounds_down() {
    // 3 staked over a growth of 5e8: 3*5e8/1e9 = 1.5, floored to 1.
    let staker = StakerState { amount: 3, reward_per_token_paid: 0, rewards: 0 };
    assert_eq!(staker.calculate_earned(500_000_000), Ok(1));
}

#[test]
fn calculate_earned_overflow_is_math_error() {
    let staker = StakerState { amount: u64::MAX, reward_per_token_paid: 0, rewards: 0 };
    assert_eq!(staker.calculate_earned(2), Err(StakingError::MathError));
}

#[test]
fn settle_takes_accumulator_snapshot() {
    let mut staker = StakerState { amount: 200, reward_per_token_paid: 0, rewards: 0 };
    assert_eq!(staker.settle(1_500_000_000), Ok(()));
    assert_eq!(staker.rewards, 300);
    assert_eq!(staker.reward_per_token_paid, 1_500_000_000);
    assert_eq!(staker.amount, 200);
}

#[test]
fn settle_twice_is_idempotent() {
    let mut staker = StakerState { amount: 200, reward_per_token_paid: 0, rewards: 0 };
    assert_eq!(staker.settle(1_500_000_000), Ok(()));
    let after_first = staker;
    assert_eq!(staker.settle(1_500_000_000), Ok(()));
    assert_eq!(staker, after_first);
}

#[test]
fn update_reward_settles_sole_staker() {
    let mut pool = pool_with(1_000, 0, 0, 100);
    let mut staker = StakerState { amount: 1_000, reward_per_token_paid: 0, rewards: 0 };
    assert_eq!(pool.update_reward(&mut staker, 10), Ok(()));
    assert_eq!(staker.rewards, 1_000);
    assert_eq!(staker.reward_per_token_paid, 1_000_000_000);
    assert_eq!(pool.reward_per_token_stored, 1_000_000_000);
    assert_eq!(pool.updated_at, 10);
}

#[test]
fn update_reward_failure_leaves_both_untouched() {
    let mut pool = pool_with(1_000, 0, 0, u64::MAX);
    let mut staker = StakerState { amount: 1_000, reward_per_token_paid: 0, rewards: 0 };
    let pool_before = pool;
    let staker_before = staker;
    assert_eq!(pool.update_reward(&mut staker, 2), Err(StakingError::MathError));
    assert_eq!(pool, pool_before);
    assert_eq!(staker, staker_before);
}
