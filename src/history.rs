use vstd::prelude::*;

use crate::pool::Pool;

verus! {

/// The sum of `amounts`, as an unbounded integer.
pub open spec fn sum_of(amounts: Seq<u64>) -> int
    decreases amounts.len(),
{
    if amounts.len() == 0 {
        0
    } else {
        sum_of(amounts.drop_last()) + amounts.last()
    }
}

/// The record that `pool` becomes when each of `amounts` is staked into it in
/// turn and every transfer succeeds, or `None` where one of the stakes would
/// overflow the total.
pub open spec fn after_stakes(pool: Pool, amounts: Seq<u64>) -> Option<Pool>
    decreases amounts.len(),
{
    if amounts.len() == 0 {
        Some(pool)
    } else {
        match after_stakes(pool, amounts.drop_last()) {
            Some(p) => p.staked(amounts.last()),
            None => None,
        }
    }
}

/// A run of successful stakes adds exactly the sum of their amounts to the
/// pool's total.
pub proof fn lemma_stakes_add_sum(pool: Pool, amounts: Seq<u64>)
    requires
        after_stakes(pool, amounts) is Some,
    ensures
        after_stakes(pool, amounts)->Some_0.total_staked == pool.total_staked + sum_of(amounts),
    decreases amounts.len(),
{
    if amounts.len() > 0 {
        lemma_stakes_add_sum(pool, amounts.drop_last());
    }
}

/// After a pool is initialized and the amounts a1, ..., an are staked into it
/// by successful calls, its total equals a1 + ... + an.
pub proof fn lemma_total_is_sum_of_stakes(amounts: Seq<u64>)
    requires
        after_stakes(Pool::initial(), amounts) is Some,
    ensures
        after_stakes(Pool::initial(), amounts)->Some_0.total_staked == sum_of(amounts),
{
    lemma_stakes_add_sum(Pool::initial(), amounts);
}

/// Staking an amount of zero always succeeds and leaves the pool as it was.
pub proof fn lemma_zero_stake_keeps_pool(pool: Pool)
    ensures
        pool.staked(0) == Some(pool),
{
}

} // verus!
