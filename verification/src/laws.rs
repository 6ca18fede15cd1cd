use vstd::arithmetic::div_mod::lemma_fundamental_div_mod;
use vstd::arithmetic::div_mod::lemma_mod_division_less_than_divisor;
use vstd::prelude::*;

use crate::accrual::accrued_spec;
use crate::accrual::earned_fits;
use crate::accrual::earned_spec;
use crate::state::StakerState;
use crate::state::StakingRewardsState;
use crate::state::SCALE;

verus! {

/// The combined stake held by a collection of staker records.
pub open spec fn sum_amounts(amounts: Seq<u64>) -> int
    decreases amounts.len(),
{
    if amounts.len() == 0 {
        0
    } else {
        amounts[0] + sum_amounts(amounts.drop_first())
    }
}

proof fn lemma_sum_update(amounts: Seq<u64>, i: int, v: u64)
    requires
        0 <= i < amounts.len(),
    ensures
        sum_amounts(amounts.update(i, v)) == sum_amounts(amounts) - amounts[i] + v,
    decreases amounts.len(),
{
    if i == 0 {
        assert(amounts.update(0, v).drop_first() =~= amounts.drop_first());
    } else {
        assert(amounts.update(i, v).drop_first() =~= amounts.drop_first().update(i - 1, v));
        lemma_sum_update(amounts.drop_first(), i - 1, v);
    }
}

proof fn lemma_sum_push(amounts: Seq<u64>, v: u64)
    ensures
        sum_amounts(amounts.push(v)) == sum_amounts(amounts) + v,
    decreases amounts.len(),
{
    if amounts.len() == 0 {
        assert(amounts.push(v)[0] == v);
        assert(sum_amounts(Seq::<u64>::empty()) == 0);
        assert(amounts.push(v).drop_first() =~= Seq::<u64>::empty());
    } else {
        assert(amounts.push(v)[0] == amounts[0]);
        assert(amounts.push(v).drop_first() =~= amounts.drop_first().push(v));
        lemma_sum_push(amounts.drop_first(), v);
    }
}

/// Conservation, base case: a freshly initialized pool reports a total
/// supply of zero, which is exactly the combined stake of no stakers.
pub proof fn lemma_conservation_init()
    ensures
        sum_amounts(Seq::<u64>::empty()) == 0,
{
}

/// Conservation under first contact: a staker record enters the ledger with
/// a zero balance, which leaves the combined stake untouched, so the total
/// supply need not move when a record is created.
pub proof fn lemma_conservation_new_staker(amounts: Seq<u64>)
    ensures
        sum_amounts(amounts.push(0)) == sum_amounts(amounts),
{
    lemma_sum_push(amounts, 0);
}

/// Conservation under `stake`: a successful stake grows the acting staker's
/// balance and the pool's total supply by the same `amount` (see the
/// postconditions of [`crate::ops::stake`]), so if the supply equalled the
/// combined stake of all stakers before, it still does after.
pub proof fn lemma_conservation_stake(
    amounts: Seq<u64>,
    i: int,
    supply: u64,
    amount: u64,
    new_supply: u64,
    new_amount: u64,
)
    requires
        0 <= i < amounts.len(),
        supply == sum_amounts(amounts),
        new_amount == amounts[i] + amount,
        new_supply == supply + amount,
    ensures
        new_supply == sum_amounts(amounts.update(i, new_amount)),
{
    lemma_sum_update(amounts, i, new_amount);
}

/// Conservation under `withdraw`: a successful withdrawal shrinks the acting
/// staker's balance and the pool's total supply by the same `amount` (see
/// the postconditions of [`crate::ops::withdraw`]), so the supply and the
/// combined stake stay equal.
pub proof fn lemma_conservation_withdraw(
    amounts: Seq<u64>,
    i: int,
    supply: u64,
    amount: u64,
    new_supply: u64,
    new_amount: u64,
)
    requires
        0 <= i < amounts.len(),
        supply == sum_amounts(amounts),
        amount <= amounts[i],
        amount <= supply,
        new_amount == amounts[i] - amount,
        new_supply == supply - amount,
    ensures
        new_supply == sum_amounts(amounts.update(i, new_amount)),
{
    lemma_sum_update(amounts, i, new_amount);
}

/// Non-negative balances: every balance in the ledger is carried as an
/// unsigned integer, and every subtraction is guarded, so no operation can
/// drive a staked amount, an unclaimed reward or the total supply below
/// zero.
pub proof fn lemma_non_negative(pool: StakingRewardsState, staker: StakerState)
    ensures
        pool.total_supply >= 0,
        staker.amount >= 0,
        staker.rewards >= 0,
{
}

/// Settlement idempotence: once a staker's accumulator snapshot has caught
/// up with the pool accumulator — as it has immediately after any
/// settlement — settling again against the same accumulator value is owed to
/// succeed and leaves the unclaimed balance exactly where it was.
pub proof fn lemma_settle_idempotent(staker: StakerState, acc: u64)
    requires
        staker.reward_per_token_paid == acc,
    ensures
        earned_fits(staker, acc as int),
        earned_spec(staker, acc as int) == staker.rewards,
{
    assert(staker.amount * (acc - staker.reward_per_token_paid) == 0);
}

/// Proportional fairness: two stakers whose snapshots stand at the same
/// value, settled against the same pool accumulator, accrue in proportion
/// to their stakes, up to the one reward unit per settlement that floor
/// division may withhold from each.
pub proof fn lemma_proportional_fairness(a: StakerState, b: StakerState, acc: u64)
    requires
        a.reward_per_token_paid == b.reward_per_token_paid,
        a.reward_per_token_paid <= acc,
    ensures
        accrued_spec(a, acc as int) * b.amount <= (accrued_spec(b, acc as int) + 1) * a.amount,
        accrued_spec(b, acc as int) * a.amount <= (accrued_spec(a, acc as int) + 1) * b.amount,
{
    let s = SCALE as int;
    let d = acc - a.reward_per_token_paid;
    let pa = a.amount * d;
    let pb = b.amount * d;
    let qa = pa / s;
    let qb = pb / s;
    lemma_fundamental_div_mod(pa, s);
    lemma_fundamental_div_mod(pb, s);
    lemma_mod_division_less_than_divisor(pa, s);
    lemma_mod_division_less_than_divisor(pb, s);
    assert(qa * b.amount <= (qb + 1) * a.amount) by (nonlinear_arith)
        requires
            pa == s * qa + pa % s,
            pb == s * qb + pb % s,
            0 <= pa % s < s,
            0 <= pb % s < s,
            pa == a.amount * d,
            pb == b.amount * d,
            s > 0,
            a.amount >= 0,
            b.amount >= 0,
            d >= 0,
    ;
    assert(qb * a.amount <= (qa + 1) * b.amount) by (nonlinear_arith)
        requires
            pa == s * qa + pa % s,
            pb == s * qb + pb % s,
            0 <= pa % s < s,
            0 <= pb % s < s,
            pa == a.amount * d,
            pb == b.amount * d,
            s > 0,
            a.amount >= 0,
            b.amount >= 0,
            d >= 0,
    ;
}

} // verus!
