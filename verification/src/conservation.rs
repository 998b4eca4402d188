//! Conservation of the pool total.
//!
//! A pool's `total_staked` must always equal the sum of the `amount` fields
//! of the positions it covers. The engine only ever touches one position at a
//! time, so the law is stated over a snapshot of all positions: a successful
//! stake or unstake against any one of them, and the lazy creation of a fresh
//! position, each carry the equality from the old snapshot to the new one.

use vstd::prelude::*;

use crate::engine::{spec_stake, spec_unstake, StakingPool, UserStake};

verus! {

/// The sum of the staked amounts of a snapshot of positions.
pub open spec fn total_position_amounts(positions: Seq<UserStake>) -> int
    decreases positions.len(),
{
    if positions.len() == 0 {
        0
    } else {
        total_position_amounts(positions.drop_last()) + positions.last().amount
    }
}

/// The pool's accounted total equals the sum of the staked amounts of the
/// positions it covers.
pub open spec fn pool_conserved(pool: StakingPool, positions: Seq<UserStake>) -> bool {
    pool.total_staked == total_position_amounts(positions)
}

/// Replacing one position changes the sum by exactly the change in that
/// position's staked amount.
proof fn lemma_sum_update(positions: Seq<UserStake>, i: int, us: UserStake)
    requires
        0 <= i < positions.len(),
    ensures
        total_position_amounts(positions.update(i, us)) == total_position_amounts(positions)
            - positions[i].amount + us.amount,
    decreases positions.len(),
{
    let updated = positions.update(i, us);
    if i == positions.len() - 1 {
        assert(updated.drop_last() =~= positions.drop_last());
    } else {
        assert(updated.last() == positions.last());
        assert(updated.drop_last() =~= positions.drop_last().update(i, us));
        lemma_sum_update(positions.drop_last(), i, us);
    }
}

/// Law: a newly created pool, which accounts zero staked, is conserved over
/// the snapshot with no positions — the base case of every sequence of
/// operations.
pub proof fn lemma_new_pool_conserved(pool: StakingPool)
    requires
        pool.total_staked == 0,
    ensures
        pool_conserved(pool, Seq::<UserStake>::empty()),
{
}

/// Law: a successful stake against any one position of a conserved pool
/// leaves the pool conserved over the updated snapshot.
pub proof fn lemma_stake_preserves_conservation(
    pool: StakingPool,
    positions: Seq<UserStake>,
    i: int,
    amount: u64,
    now: i64,
)
    requires
        pool_conserved(pool, positions),
        0 <= i < positions.len(),
        spec_stake(pool, positions[i], amount, now) is Ok,
    ensures
        pool_conserved(
            spec_stake(pool, positions[i], amount, now)->Ok_0.0,
            positions.update(i, spec_stake(pool, positions[i], amount, now)->Ok_0.1),
        ),
{
    lemma_sum_update(positions, i, spec_stake(pool, positions[i], amount, now)->Ok_0.1);
}

/// Law: a successful unstake against any one position of a conserved pool
/// leaves the pool conserved over the updated snapshot.
pub proof fn lemma_unstake_preserves_conservation(
    pool: StakingPool,
    positions: Seq<UserStake>,
    i: int,
    amount: u64,
    now: i64,
)
    requires
        pool_conserved(pool, positions),
        0 <= i < positions.len(),
        spec_unstake(pool, positions[i], amount, now) is Ok,
    ensures
        pool_conserved(
            spec_unstake(pool, positions[i], amount, now)->Ok_0.0,
            positions.update(i, spec_unstake(pool, positions[i], amount, now)->Ok_0.1),
        ),
{
    lemma_sum_update(positions, i, spec_unstake(pool, positions[i], amount, now)->Ok_0.1);
}

/// Law: lazily creating a fresh, empty position changes no sum, so it leaves
/// a conserved pool conserved.
pub proof fn lemma_new_position_preserves_conservation(
    pool: StakingPool,
    positions: Seq<UserStake>,
    us: UserStake,
)
    requires
        pool_conserved(pool, positions),
        us.amount == 0,
    ensures
        pool_conserved(pool, positions.push(us)),
{
    assert(positions.push(us).drop_last() =~= positions);
}

} // verus!
