use vstd::prelude::*;
use vstd::arithmetic::div_mod::{lemma_div_is_ordered, lemma_div_multiples_vanish, lemma_div_pos_is_pos};
use vstd::arithmetic::mul::{lemma_mul_is_commutative, lemma_mul_inequality, lemma_mul_nonnegative};
use crate::ledger::reward_of;

verus! {

/// The reward never exceeds the staked total and is never negative: the
/// retained share `total * fee / 100` lies between 0 and `total` whenever
/// the fee is a percentage.
pub proof fn lemma_reward_in_range(total: int, fee: int)
    requires
        0 <= total,
        0 <= fee <= 100,
    ensures
        0 <= total * fee / 100 <= total,
        0 <= reward_of(total, fee) <= total,
{
    lemma_mul_nonnegative(total, fee);
    lemma_div_pos_is_pos(total * fee, 100);
    lemma_mul_inequality(fee, 100, total);
    lemma_mul_is_commutative(total, fee);
    lemma_mul_is_commutative(total, 100);
    lemma_div_is_ordered(total * fee, total * 100, 100);
    lemma_div_multiples_vanish(total, 100);
}

/// Boundary behaviour of the fee arithmetic: the full fee pays nothing out,
/// and a zero fee pays the whole staked total, whatever the total is.
pub proof fn lemma_reward_boundaries(total: int)
    requires
        0 <= total,
    ensures
        reward_of(total, 100) == 0,
        reward_of(total, 0) == total,
{
    lemma_mul_is_commutative(total, 100);
    lemma_div_multiples_vanish(total, 100);
}

/// The sum of a family of participant staked amounts.
pub open spec fn sum_staked(amounts: Seq<u64>) -> int
    decreases amounts.len(),
{
    if amounts.len() == 0 {
        0
    } else {
        amounts[0] + sum_staked(amounts.drop_first())
    }
}

/// Replacing one amount changes the sum by exactly the difference.
proof fn lemma_sum_update(amounts: Seq<u64>, i: int, v: u64)
    requires
        0 <= i < amounts.len(),
    ensures
        sum_staked(amounts.update(i, v)) == sum_staked(amounts) - amounts[i] + v,
    decreases amounts.len(),
{
    if i == 0 {
        assert(amounts.update(0, v).drop_first() =~= amounts.drop_first());
    } else {
        lemma_sum_update(amounts.drop_first(), i - 1, v);
        assert(amounts.update(i, v).drop_first() =~= amounts.drop_first().update(i - 1, v));
    }
}

/// A sum of staked amounts is never negative.
pub proof fn lemma_sum_nonneg(amounts: Seq<u64>)
    ensures
        sum_staked(amounts) >= 0,
    decreases amounts.len(),
{
    if amounts.len() > 0 {
        lemma_sum_nonneg(amounts.drop_first());
    }
}

/// Each participant's amount is at most the sum of all of them.
pub proof fn lemma_sum_bounds_element(amounts: Seq<u64>, i: int)
    requires
        0 <= i < amounts.len(),
    ensures
        0 <= amounts[i] <= sum_staked(amounts),
    decreases amounts.len(),
{
    if i == 0 {
        lemma_sum_nonneg(amounts.drop_first());
    } else {
        lemma_sum_bounds_element(amounts.drop_first(), i - 1);
        assert(amounts.drop_first()[i - 1] == amounts[i]);
    }
}

/// Ledger invariant between operations: when the pool total equals the sum
/// of all participants' staked amounts, a successful stake of `amount` by
/// the participant at position `i` preserves that equality, since it adds
/// `amount` both to the pool total and to that participant's amount.
pub proof fn lemma_stake_preserves_sum(amounts: Seq<u64>, i: int, amount: u64, total: u64)
    requires
        0 <= i < amounts.len(),
        total == sum_staked(amounts),
        total + amount <= u64::MAX,
    ensures
        amounts[i] + amount <= u64::MAX,
        total + amount == sum_staked(amounts.update(i, (amounts[i] + amount) as u64)),
{
    lemma_sum_bounds_element(amounts, i);
    lemma_sum_update(amounts, i, (amounts[i] + amount) as u64);
}

/// Resetting the recipient's amount to zero while every other participant's
/// ledger stays untouched lowers the sum by exactly the recipient's former
/// amount. With the pool total reset to zero at the same moment, the sum
/// invariant survives a distribution only when the recipient was the sole
/// staker: the stale remainder is precisely the other participants' amounts.
pub proof fn lemma_reset_sum(amounts: Seq<u64>, i: int)
    requires
        0 <= i < amounts.len(),
    ensures
        sum_staked(amounts.update(i, 0u64)) == sum_staked(amounts) - amounts[i],
{
    lemma_sum_update(amounts, i, 0u64);
}

} // verus!
