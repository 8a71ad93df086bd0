//! Reward ledger: per-strategy, per-pool and per-depositor records, and the
//! reward-per-share index arithmetic that attributes the farm token and the
//! governance token to depositors in O(1) per touched record.

use crate::error::FarmError;
use crate::math::{
    checked_multiply_ratio, ratio, ratio_atomics, ratio_fits, scale, Decimal, DECIMAL_FRACTIONAL,
};
use crate::laws::{lemma_unbond_favours_pool, record_value};
use crate::wide::{full_mul, wide_gt};
use vstd::prelude::*;

verus! {

/// One per strategy instance.
#[derive(Clone, Copy, Debug, PartialEq, Eq, Structural)]
pub struct GlobalState {
    /// Last observed share balance of this strategy in the governance staking ledger.
    pub previous_governance_share: u128,
    /// Cumulative governance share per unit of pool weight.
    pub governance_share_index: Decimal,
    /// Sum of all pool weights.
    pub total_weight: u32,
    /// Sum of the outstanding farm-token shares of all pools.
    pub total_farm_share: u128,
    /// Lifetime net commission routed to the treasury.
    pub earning: u128,
}

/// One per supported LP token.
#[derive(Clone, Copy, Debug, PartialEq, Eq, Structural)]
pub struct PoolInfo {
    pub weight: u32,
    pub total_auto_bond_share: u128,
    pub total_stake_bond_share: u128,
    /// Principal currently earning fixed-stake farm rewards.
    pub total_stake_bond_amount: u128,
    pub farm_share_index: Decimal,
    pub auto_governance_share_index: Decimal,
    pub stake_governance_share_index: Decimal,
    /// Farm-token shares not yet paid out to depositors.
    pub farm_share: u128,
    /// The global governance index at the time this pool last absorbed it.
    pub state_governance_share_index: Decimal,
}

/// One per depositor and pool.
#[derive(Clone, Copy, Debug, PartialEq, Eq, Structural)]
pub struct RewardInfo {
    pub auto_bond_share: u128,
    pub stake_bond_share: u128,
    pub farm_share_index: Decimal,
    pub auto_governance_share_index: Decimal,
    pub stake_governance_share_index: Decimal,
    /// Unsettled farm-token shares.
    pub farm_share: u128,
    /// Claimable governance shares.
    pub governance_share: u128,
    /// Governance shares accrued over the record's lifetime.
    pub accum_governance_share: u128,
}

/// `Some(x)` where `0 <= x <= u128::MAX`, `None` elsewhere.
pub open spec fn fit(x: int) -> Option<u128> {
    if 0 <= x <= u128::MAX {
        Some(x as u128)
    } else {
        None
    }
}

/// A ratio multiplication, `None` where it fails.
pub open spec fn ratio_opt(a: int, num: int, den: int) -> Option<u128> {
    if ratio_fits(a, num, den) {
        Some(ratio(a, num, den) as u128)
    } else {
        None
    }
}

/// `floor(shares * delta / 10^18)`: what `shares` earned while an index rose by
/// `delta` atomics.
pub open spec fn accrued(shares: int, delta: int) -> int {
    ratio(shares, delta, DECIMAL_FRACTIONAL as int)
}

/// `ceil(a * num / den)`: a ratio multiplication rounded up.
pub open spec fn ratio_up(a: int, num: int, den: int) -> int {
    if (a * num) % den == 0 {
        a * num / den
    } else {
        a * num / den + 1
    }
}

/// A ratio multiplication rounded up, `None` where the divisor is zero or the
/// result leaves 128 bits.
pub open spec fn ratio_up_opt(a: int, num: int, den: int) -> Option<u128> {
    if den != 0 && ratio_up(a, num, den) <= u128::MAX {
        Some(ratio_up(a, num, den) as u128)
    } else {
        None
    }
}

fn ratio_up_or_none(a: u128, num: u128, den: u128) -> (r: Option<u128>)
    ensures
        r == ratio_up_opt(a as int, num as int, den as int),
{
    if den == 0 {
        return None;
    }
    let q = match checked_multiply_ratio(a, num, den) {
        Some(v) => v,
        None => return None,
    };
    let exact = full_mul(a, num);
    let back = full_mul(q, den);
    proof {
        vstd::arithmetic::div_mod::lemma_fundamental_div_mod(a * num, den as int);
        vstd::arithmetic::div_mod::lemma_mod_pos_bound(a * num, den as int);
        assert(q * den == den * q) by (nonlinear_arith);
    }
    if wide_gt(exact, back) {
        if q == u128::MAX {
            None
        } else {
            Some(q + 1)
        }
    } else {
        Some(q)
    }
}

fn ratio_or_none(a: u128, num: u128, den: u128) -> (r: Option<u128>)
    ensures
        r == ratio_opt(a as int, num as int, den as int),
{
    checked_multiply_ratio(a, num, den)
}

fn add_or_none(a: u128, b: u128) -> (r: Option<u128>)
    ensures
        r == fit(a + b),
{
    if a <= u128::MAX - b {
        Some(a + b)
    } else {
        None
    }
}

fn sub_or_none(a: u128, b: u128) -> (r: Option<u128>)
    ensures
        r == fit(a - b),
{
    if a >= b {
        Some(a - b)
    } else {
        None
    }
}

/// Shares of the auto-compound sub-position worth `amount` of principal, at the
/// pool's rate `total_auto_bond_share / (lp_balance − total_stake_bond_amount)`;
/// one to one while the sub-position is empty.
pub open spec fn auto_bond_share_of(pool: PoolInfo, amount: int, lp_balance: int) -> Option<u128> {
    let total_auto_amount = lp_balance - pool.total_stake_bond_amount;
    if total_auto_amount < 0 {
        None
    } else if pool.total_auto_bond_share == 0 || total_auto_amount == 0 {
        fit(amount)
    } else {
        ratio_opt(amount, pool.total_auto_bond_share as int, total_auto_amount)
    }
}

/// Shares of the fixed-stake sub-position worth `amount` of principal; one to one
/// while the sub-position is empty.
pub open spec fn stake_bond_share_of(pool: PoolInfo, amount: int) -> Option<u128> {
    if pool.total_stake_bond_share == 0 || pool.total_stake_bond_amount == 0 {
        fit(amount)
    } else {
        ratio_opt(
            amount,
            pool.total_stake_bond_share as int,
            pool.total_stake_bond_amount as int,
        )
    }
}

/// Auto-compound shares burned for withdrawing `amount` of principal: like
/// `auto_bond_share_of`, but rounded up, so that rounding favours the pool.
pub open spec fn auto_bond_burn_of(pool: PoolInfo, amount: int, lp_balance: int) -> Option<u128> {
    let total_auto_amount = lp_balance - pool.total_stake_bond_amount;
    if total_auto_amount < 0 {
        None
    } else if pool.total_auto_bond_share == 0 || total_auto_amount == 0 {
        fit(amount)
    } else {
        ratio_up_opt(amount, pool.total_auto_bond_share as int, total_auto_amount)
    }
}

/// Fixed-stake shares burned for withdrawing `amount` of principal, rounded up.
pub open spec fn stake_bond_burn_of(pool: PoolInfo, amount: int) -> Option<u128> {
    if pool.total_stake_bond_share == 0 || pool.total_stake_bond_amount == 0 {
        fit(amount)
    } else {
        ratio_up_opt(
            amount,
            pool.total_stake_bond_share as int,
            pool.total_stake_bond_amount as int,
        )
    }
}

/// Principal that `share` auto-compound shares are worth, rounded down.
pub open spec fn user_auto_balance_of(pool: PoolInfo, lp_balance: int, share: int) -> Option<u128> {
    if pool.total_auto_bond_share == 0 {
        Some(0u128)
    } else if lp_balance < pool.total_stake_bond_amount {
        None
    } else {
        ratio_opt(
            lp_balance - pool.total_stake_bond_amount,
            share,
            pool.total_auto_bond_share as int,
        )
    }
}

/// Principal that `share` fixed-stake shares are worth, rounded down.
pub open spec fn user_stake_balance_of(pool: PoolInfo, share: int) -> Option<u128> {
    if pool.total_stake_bond_share == 0 {
        Some(0u128)
    } else {
        ratio_opt(
            pool.total_stake_bond_amount as int,
            share,
            pool.total_stake_bond_share as int,
        )
    }
}

impl PoolInfo {
    /// A newly registered pool with the given weight: no shares, indices at zero.
    pub fn new(weight: u32, state_governance_share_index: Decimal) -> (r: PoolInfo)
        ensures
            r.weight == weight,
            r.total_auto_bond_share == 0,
            r.total_stake_bond_share == 0,
            r.total_stake_bond_amount == 0,
            r.farm_share == 0,
            r.farm_share_index.atomics == 0,
            r.auto_governance_share_index.atomics == 0,
            r.stake_governance_share_index.atomics == 0,
            r.state_governance_share_index == state_governance_share_index,
    {
        PoolInfo {
            weight,
            total_auto_bond_share: 0,
            total_stake_bond_share: 0,
            total_stake_bond_amount: 0,
            farm_share_index: Decimal::zero(),
            auto_governance_share_index: Decimal::zero(),
            stake_governance_share_index: Decimal::zero(),
            farm_share: 0,
            state_governance_share_index,
        }
    }

    pub fn calc_auto_bond_share(&self, amount: u128, lp_balance: u128) -> (r: Option<u128>)
        ensures
            r == auto_bond_share_of(*self, amount as int, lp_balance as int),
    {
        if lp_balance < self.total_stake_bond_amount {
            return None;
        }
        let total_auto_amount = lp_balance - self.total_stake_bond_amount;
        if self.total_auto_bond_share == 0 || total_auto_amount == 0 {
            Some(amount)
        } else {
            ratio_or_none(amount, self.total_auto_bond_share, total_auto_amount)
        }
    }

    pub fn calc_stake_bond_share(&self, amount: u128) -> (r: Option<u128>)
        ensures
            r == stake_bond_share_of(*self, amount as int),
    {
        if self.total_stake_bond_share == 0 || self.total_stake_bond_amount == 0 {
            Some(amount)
        } else {
            ratio_or_none(amount, self.total_stake_bond_share, self.total_stake_bond_amount)
        }
    }

    fn calc_auto_bond_burn(&self, amount: u128, lp_balance: u128) -> (r: Option<u128>)
        ensures
            r == auto_bond_burn_of(*self, amount as int, lp_balance as int),
    {
        if lp_balance < self.total_stake_bond_amount {
            return None;
        }
        let total_auto_amount = lp_balance - self.total_stake_bond_amount;
        if self.total_auto_bond_share == 0 || total_auto_amount == 0 {
            Some(amount)
        } else {
            ratio_up_or_none(amount, self.total_auto_bond_share, total_auto_amount)
        }
    }

    fn calc_stake_bond_burn(&self, amount: u128) -> (r: Option<u128>)
        ensures
            r == stake_bond_burn_of(*self, amount as int),
    {
        if self.total_stake_bond_share == 0 || self.total_stake_bond_amount == 0 {
            Some(amount)
        } else {
            ratio_up_or_none(amount, self.total_stake_bond_share, self.total_stake_bond_amount)
        }
    }

    pub fn calc_user_auto_balance(&self, lp_balance: u128, share: u128) -> (r: Option<u128>)
        ensures
            r == user_auto_balance_of(*self, lp_balance as int, share as int),
    {
        if self.total_auto_bond_share == 0 {
            Some(0)
        } else if lp_balance < self.total_stake_bond_amount {
            None
        } else {
            ratio_or_none(
                lp_balance - self.total_stake_bond_amount,
                share,
                self.total_auto_bond_share,
            )
        }
    }

    pub fn calc_user_stake_balance(&self, share: u128) -> (r: Option<u128>)
        ensures
            r == user_stake_balance_of(*self, share as int),
    {
        if self.total_stake_bond_share == 0 {
            Some(0)
        } else {
            ratio_or_none(self.total_stake_bond_amount, share, self.total_stake_bond_share)
        }
    }
}

/// Settle-depositor: what the record is after crediting what its shares earned
/// since its index snapshots and moving the snapshots up to the pool's indices.
/// Farm shares accrue on the fixed-stake shares only; governance shares on both
/// sub-positions. `None` where an index lies below the record's snapshot or a sum
/// leaves 128 bits.
pub open spec fn settle_spec(pool: PoolInfo, r: RewardInfo) -> Option<RewardInfo> {
    let farm_delta = pool.farm_share_index.atomics - r.farm_share_index.atomics;
    let stake_delta = pool.stake_governance_share_index.atomics
        - r.stake_governance_share_index.atomics;
    let auto_delta = pool.auto_governance_share_index.atomics
        - r.auto_governance_share_index.atomics;
    let farm = accrued(r.stake_bond_share as int, farm_delta);
    let stake_gov = accrued(r.stake_bond_share as int, stake_delta);
    let auto_gov = accrued(r.auto_bond_share as int, auto_delta);
    let gov = stake_gov + auto_gov;
    if farm_delta >= 0 && stake_delta >= 0 && auto_delta >= 0 && farm <= u128::MAX
        && r.farm_share + farm <= u128::MAX && stake_gov <= u128::MAX && auto_gov <= u128::MAX
        && gov <= u128::MAX && r.governance_share + gov <= u128::MAX && r.accum_governance_share
        + gov <= u128::MAX {
        Some(
            RewardInfo {
                farm_share: (r.farm_share + farm) as u128,
                governance_share: (r.governance_share + gov) as u128,
                accum_governance_share: (r.accum_governance_share + gov) as u128,
                farm_share_index: pool.farm_share_index,
                auto_governance_share_index: pool.auto_governance_share_index,
                stake_governance_share_index: pool.stake_governance_share_index,
                ..r
            },
        )
    } else {
        None
    }
}

fn accrue(shares: u128, delta: Decimal) -> (r: Option<u128>)
    ensures
        r == fit(accrued(shares as int, delta.atomics as int)),
{
    delta.checked_mul_amount(shares)
}

/// Settle-depositor, run before any change of the record's share counts: credits
/// pending farm and governance shares to the record and snapshots the pool's
/// indices. On failure the record is left as it was.
pub fn before_share_change(pool: &PoolInfo, reward_info: &mut RewardInfo) -> (res: Result<
    (),
    FarmError,
>)
    ensures
        match settle_spec(*pool, *old(reward_info)) {
            Some(n) => res == Ok::<(), FarmError>(()) && *final(reward_info) == n,
            None => res == Err::<(), FarmError>(FarmError::Arithmetic) && *final(reward_info)
                == *old(reward_info),
        },
{
    let farm_delta = match pool.farm_share_index.checked_sub(reward_info.farm_share_index) {
        Some(d) => d,
        None => return Err(FarmError::Arithmetic),
    };
    let stake_delta = match pool.stake_governance_share_index.checked_sub(
        reward_info.stake_governance_share_index,
    ) {
        Some(d) => d,
        None => return Err(FarmError::Arithmetic),
    };
    let auto_delta = match pool.auto_governance_share_index.checked_sub(
        reward_info.auto_governance_share_index,
    ) {
        Some(d) => d,
        None => return Err(FarmError::Arithmetic),
    };
    let farm = match accrue(reward_info.stake_bond_share, farm_delta) {
        Some(v) => v,
        None => return Err(FarmError::Arithmetic),
    };
    let farm_share = match add_or_none(reward_info.farm_share, farm) {
        Some(v) => v,
        None => return Err(FarmError::Arithmetic),
    };
    let stake_gov = match accrue(reward_info.stake_bond_share, stake_delta) {
        Some(v) => v,
        None => return Err(FarmError::Arithmetic),
    };
    let auto_gov = match accrue(reward_info.auto_bond_share, auto_delta) {
        Some(v) => v,
        None => return Err(FarmError::Arithmetic),
    };
    let gov = match add_or_none(stake_gov, auto_gov) {
        Some(v) => v,
        None => return Err(FarmError::Arithmetic),
    };
    let governance_share = match add_or_none(reward_info.governance_share, gov) {
        Some(v) => v,
        None => return Err(FarmError::Arithmetic),
    };
    let accum = match add_or_none(reward_info.accum_governance_share, gov) {
        Some(v) => v,
        None => return Err(FarmError::Arithmetic),
    };
    reward_info.farm_share = farm_share;
    reward_info.governance_share = governance_share;
    reward_info.accum_governance_share = accum;
    reward_info.farm_share_index = pool.farm_share_index;
    reward_info.auto_governance_share_index = pool.auto_governance_share_index;
    reward_info.stake_governance_share_index = pool.stake_governance_share_index;
    Ok(())
}

/// Settle-pool-governance-index: the pool after absorbing the governance shares
/// accrued by its weight since its snapshot of the global index. The stake
/// sub-position's part is `floor(accrued · total_stake_bond_amount / lp_balance)`,
/// the auto sub-position gets the rest, and each part is spread over its
/// sub-position's shares. Nothing changes while `lp_balance` is zero.
pub open spec fn pool_governance_spec(index: Decimal, pool: PoolInfo, lp_balance: int) -> Option<
    PoolInfo,
> {
    if lp_balance == 0 {
        Some(pool)
    } else {
        let delta = index.atomics - pool.state_governance_share_index.atomics;
        let share = delta * pool.weight;
        let stake_share = ratio(share, pool.total_stake_bond_amount as int, lp_balance);
        let auto_share = share - stake_share;
        let stake_index = if stake_share == 0 {
            pool.stake_governance_share_index.atomics as int
        } else {
            pool.stake_governance_share_index.atomics + stake_share
                / pool.total_stake_bond_share as int
        };
        let auto_index = if auto_share == 0 {
            pool.auto_governance_share_index.atomics as int
        } else {
            pool.auto_governance_share_index.atomics + auto_share
                / pool.total_auto_bond_share as int
        };
        if delta >= 0 && share <= u128::MAX && stake_share <= u128::MAX && auto_share >= 0 && (
        stake_share != 0 ==> pool.total_stake_bond_share != 0 && stake_index <= u128::MAX) && (
        auto_share != 0 ==> pool.total_auto_bond_share != 0 && auto_index <= u128::MAX) {
            Some(
                PoolInfo {
                    stake_governance_share_index: Decimal { atomics: stake_index as u128 },
                    auto_governance_share_index: Decimal { atomics: auto_index as u128 },
                    state_governance_share_index: index,
                    ..pool
                },
            )
        } else {
            None
        }
    }
}

/// Spreads `share` atomics over `shares` and adds the result to `index`.
fn raise_index(index: Decimal, share: u128, shares: u128) -> (r: Option<Decimal>)
    requires
        shares != 0,
    ensures
        r.is_some() == (index.atomics + share / shares <= u128::MAX),
        r.is_some() ==> r.unwrap().atomics == index.atomics + share / shares,
{
    index.checked_add(Decimal { atomics: share / shares })
}

/// Settle-pool-governance-index, run before any change of the pool's share
/// counts. On failure the pool is left as it was.
pub fn spec_reward_to_pool(state: &GlobalState, pool_info: &mut PoolInfo, lp_balance: u128) -> (res:
    Result<(), FarmError>)
    ensures
        match pool_governance_spec(state.governance_share_index, *old(pool_info), lp_balance as int) {
            Some(n) => res == Ok::<(), FarmError>(()) && *final(pool_info) == n,
            None => res == Err::<(), FarmError>(FarmError::Arithmetic) && *final(pool_info)
                == *old(pool_info),
        },
{
    if lp_balance == 0 {
        return Ok(());
    }
    let delta = match state.governance_share_index.checked_sub(
        pool_info.state_governance_share_index,
    ) {
        Some(d) => d,
        None => return Err(FarmError::Arithmetic),
    };
    let share = match delta.atomics.checked_mul(pool_info.weight as u128) {
        Some(v) => v,
        None => return Err(FarmError::Arithmetic),
    };
    let stake_share = match ratio_or_none(share, pool_info.total_stake_bond_amount, lp_balance) {
        Some(v) => v,
        None => return Err(FarmError::Arithmetic),
    };
    if stake_share > share {
        return Err(FarmError::Arithmetic);
    }
    let auto_share = share - stake_share;
    let mut stake_index = pool_info.stake_governance_share_index;
    if stake_share != 0 {
        if pool_info.total_stake_bond_share == 0 {
            return Err(FarmError::Arithmetic);
        }
        stake_index = match raise_index(stake_index, stake_share, pool_info.total_stake_bond_share) {
            Some(d) => d,
            None => return Err(FarmError::Arithmetic),
        };
    }
    let mut auto_index = pool_info.auto_governance_share_index;
    if auto_share != 0 {
        if pool_info.total_auto_bond_share == 0 {
            return Err(FarmError::Arithmetic);
        }
        auto_index = match raise_index(auto_index, auto_share, pool_info.total_auto_bond_share) {
            Some(d) => d,
            None => return Err(FarmError::Arithmetic),
        };
    }
    pool_info.stake_governance_share_index = stake_index;
    pool_info.auto_governance_share_index = auto_index;
    pool_info.state_governance_share_index = state.governance_share_index;
    Ok(())
}

/// Settle-global-governance-index: the state after folding the growth of the
/// strategy's staked governance share, spread over the total pool weight, into the
/// global index. A balance below the last observed one is an error, except for a
/// read-only `query`, which counts it as no growth. Nothing changes while the total
/// weight is zero.
pub open spec fn global_governance_spec(state: GlobalState, staked_share: int, query: bool) -> Option<
    GlobalState,
> {
    if state.total_weight == 0 {
        Some(state)
    } else {
        let diff = staked_share - state.previous_governance_share;
        let deposit = if diff < 0 {
            0
        } else {
            diff
        };
        let per_weight = ratio_atomics(deposit, state.total_weight as int);
        if (diff >= 0 || query) && per_weight <= u128::MAX && state.governance_share_index.atomics
            + per_weight <= u128::MAX {
            Some(
                GlobalState {
                    governance_share_index: Decimal {
                        atomics: (state.governance_share_index.atomics + per_weight) as u128,
                    },
                    previous_governance_share: staked_share as u128,
                    ..state
                },
            )
        } else {
            None
        }
    }
}

/// Settle-global-governance-index, given the strategy's current share balance in
/// the governance staking ledger. On failure the state is left as it was.
pub fn deposit_spec_reward(state: &mut GlobalState, staked_share: u128, query: bool) -> (res:
    Result<(), FarmError>)
    ensures
        match global_governance_spec(*old(state), staked_share as int, query) {
            Some(n) => res == Ok::<(), FarmError>(()) && *final(state) == n,
            None => res == Err::<(), FarmError>(FarmError::Arithmetic) && *final(state) == *old(state),
        },
{
    if state.total_weight == 0 {
        return Ok(());
    }
    let deposit = if staked_share >= state.previous_governance_share {
        staked_share - state.previous_governance_share
    } else if query {
        0
    } else {
        return Err(FarmError::Arithmetic);
    };
    let per_weight = match Decimal::checked_from_ratio(deposit, state.total_weight as u128) {
        Some(d) => d,
        None => return Err(FarmError::Arithmetic),
    };
    let index = match state.governance_share_index.checked_add(per_weight) {
        Some(d) => d,
        None => return Err(FarmError::Arithmetic),
    };
    state.governance_share_index = index;
    state.previous_governance_share = staked_share;
    Ok(())
}

/// Farm-token shares worth `amount` newly staked farm tokens, against the
/// `total_farm_amount` that backs the outstanding shares; one to one while either
/// is zero.
pub open spec fn farm_share_of(state: GlobalState, amount: int, total_farm_amount: int) -> Option<
    u128,
> {
    if state.total_farm_share == 0 || total_farm_amount == 0 {
        fit(amount)
    } else {
        ratio_opt(amount, state.total_farm_share as int, total_farm_amount)
    }
}

impl GlobalState {
    pub fn calc_farm_share(&self, amount: u128, total_farm_amount: u128) -> (r: Option<u128>)
        ensures
            r == farm_share_of(*self, amount as int, total_farm_amount as int),
    {
        if self.total_farm_share == 0 || total_farm_amount == 0 {
            Some(amount)
        } else {
            ratio_or_none(amount, self.total_farm_share, total_farm_amount)
        }
    }
}

/// The state and pool after `amount` farm tokens were staked on behalf of the
/// pool's fixed-stake sub-position: the new farm shares go to the pool and to the
/// strategy's total, and the farm index rises by them per stake share. A pool
/// without stake shares is skipped.
pub open spec fn farm_deposit_spec(
    state: GlobalState,
    pool: PoolInfo,
    amount: int,
    total_farm_amount: int,
) -> Option<(GlobalState, PoolInfo)> {
    if pool.total_stake_bond_share == 0 {
        Some((state, pool))
    } else {
        match farm_share_of(state, amount, total_farm_amount) {
            Some(new_share) => {
                let per_bond = ratio_atomics(new_share as int, pool.total_stake_bond_share as int);
                let index = pool.farm_share_index.atomics + per_bond;
                if per_bond <= u128::MAX && index <= u128::MAX && pool.farm_share + new_share
                    <= u128::MAX && state.total_farm_share + new_share <= u128::MAX {
                    Some(
                        (
                            GlobalState {
                                total_farm_share: (state.total_farm_share + new_share) as u128,
                                ..state
                            },
                            PoolInfo {
                                farm_share_index: Decimal { atomics: index as u128 },
                                farm_share: (pool.farm_share + new_share) as u128,
                                ..pool
                            },
                        ),
                    )
                } else {
                    None
                }
            },
            None => None,
        }
    }
}

/// Registers `amount` newly staked farm tokens as farm-share entitlement of the
/// pool's fixed-stake depositors. `total_farm_amount` is the strategy's farm-token
/// balance in the farm's staking contract. On failure nothing changes.
pub fn deposit_farm_share(
    state: &mut GlobalState,
    pool_info: &mut PoolInfo,
    amount: u128,
    total_farm_amount: u128,
) -> (res: Result<(), FarmError>)
    ensures
        match farm_deposit_spec(*old(state), *old(pool_info), amount as int, total_farm_amount as int) {
            Some((s, p)) => res == Ok::<(), FarmError>(()) && *final(state) == s && *final(pool_info)
                == p,
            None => res == Err::<(), FarmError>(FarmError::Arithmetic) && *final(state) == *old(state) && *final(pool_info) == *old(pool_info),
        },
{
    if pool_info.total_stake_bond_share == 0 {
        return Ok(());
    }
    let new_share = match state.calc_farm_share(amount, total_farm_amount) {
        Some(v) => v,
        None => return Err(FarmError::Arithmetic),
    };
    let per_bond = match Decimal::checked_from_ratio(new_share, pool_info.total_stake_bond_share) {
        Some(d) => d,
        None => return Err(FarmError::Arithmetic),
    };
    let index = match pool_info.farm_share_index.checked_add(per_bond) {
        Some(d) => d,
        None => return Err(FarmError::Arithmetic),
    };
    let pool_farm_share = match add_or_none(pool_info.farm_share, new_share) {
        Some(v) => v,
        None => return Err(FarmError::Arithmetic),
    };
    let total_farm_share = match add_or_none(state.total_farm_share, new_share) {
        Some(v) => v,
        None => return Err(FarmError::Arithmetic),
    };
    pool_info.farm_share_index = index;
    pool_info.farm_share = pool_farm_share;
    state.total_farm_share = total_farm_share;
    Ok(())
}

/// Farm tokens that `share` farm shares are worth; zero while no share is outstanding.
pub open spec fn farm_balance_of(share: int, total_balance: int, total_farm_share: int) -> Option<
    u128,
> {
    if total_farm_share == 0 {
        Some(0u128)
    } else {
        ratio_opt(total_balance, share, total_farm_share)
    }
}

pub fn calc_farm_balance(share: u128, total_balance: u128, total_farm_share: u128) -> (r: Option<
    u128,
>)
    ensures
        r == farm_balance_of(share as int, total_balance as int, total_farm_share as int),
{
    if total_farm_share == 0 {
        Some(0)
    } else {
        ratio_or_none(total_balance, share, total_farm_share)
    }
}

/// Governance tokens that `share` governance shares are worth, at the staking
/// ledger's `staked_balance / staked_share`; zero while the strategy holds no share.
pub open spec fn governance_balance_of(share: int, staked_share: int, staked_balance: int) -> Option<
    u128,
> {
    if staked_share == 0 {
        Some(0u128)
    } else {
        ratio_opt(share, staked_balance, staked_share)
    }
}

pub fn calc_spec_balance(share: u128, staked_share: u128, staked_balance: u128) -> (r: Option<u128>)
    ensures
        r == governance_balance_of(share as int, staked_share as int, staked_balance as int),
{
    if staked_share == 0 {
        Some(0)
    } else {
        ratio_or_none(share, staked_balance, staked_share)
    }
}

/// A fresh record for a first bond into `pool`: no shares, nothing unsettled,
/// snapshots at the pool's current indices.
pub open spec fn fresh_reward(pool: PoolInfo) -> RewardInfo {
    RewardInfo {
        auto_bond_share: 0,
        stake_bond_share: 0,
        farm_share_index: pool.farm_share_index,
        auto_governance_share_index: pool.auto_governance_share_index,
        stake_governance_share_index: pool.stake_governance_share_index,
        farm_share: 0,
        governance_share: 0,
        accum_governance_share: 0,
    }
}

impl RewardInfo {
    /// A fresh record for a first bond into `pool`: no shares, snapshots at the
    /// pool's current indices.
    pub fn new(pool: &PoolInfo) -> (r: RewardInfo)
        ensures
            r == fresh_reward(*pool),
            r.auto_bond_share == 0,
            r.stake_bond_share == 0,
            r.farm_share == 0,
            r.governance_share == 0,
            r.accum_governance_share == 0,
            r.farm_share_index == pool.farm_share_index,
            r.auto_governance_share_index == pool.auto_governance_share_index,
            r.stake_governance_share_index == pool.stake_governance_share_index,
    {
        RewardInfo {
            auto_bond_share: 0,
            stake_bond_share: 0,
            farm_share_index: pool.farm_share_index,
            auto_governance_share_index: pool.auto_governance_share_index,
            stake_governance_share_index: pool.stake_governance_share_index,
            farm_share: 0,
            governance_share: 0,
            accum_governance_share: 0,
        }
    }

    /// A record with no shares and nothing unsettled, which storage drops.
    pub fn is_empty(&self) -> (r: bool)
        ensures
            r == (self.governance_share == 0 && self.farm_share == 0 && self.auto_bond_share == 0
                && self.stake_bond_share == 0),
    {
        self.governance_share == 0 && self.farm_share == 0 && self.auto_bond_share == 0
            && self.stake_bond_share == 0
    }
}

/// The pool and record after the shares of a deposit are added to both.
pub open spec fn add_shares(
    pool: PoolInfo,
    r: RewardInfo,
    auto_share: int,
    stake_share: int,
    stake_amount: int,
) -> Option<(PoolInfo, RewardInfo)> {
    if pool.total_auto_bond_share + auto_share <= u128::MAX && pool.total_stake_bond_amount
        + stake_amount <= u128::MAX && pool.total_stake_bond_share + stake_share <= u128::MAX
        && r.auto_bond_share + auto_share <= u128::MAX && r.stake_bond_share + stake_share
        <= u128::MAX {
        Some(
            (
                PoolInfo {
                    total_auto_bond_share: (pool.total_auto_bond_share + auto_share) as u128,
                    total_stake_bond_amount: (pool.total_stake_bond_amount + stake_amount) as u128,
                    total_stake_bond_share: (pool.total_stake_bond_share + stake_share) as u128,
                    ..pool
                },
                RewardInfo {
                    auto_bond_share: (r.auto_bond_share + auto_share) as u128,
                    stake_bond_share: (r.stake_bond_share + stake_share) as u128,
                    ..r
                },
            ),
        )
    } else {
        None
    }
}

/// Increase-bond: `amount` of principal split by `compound_rate` between the two
/// sub-positions. The deposit fee comes off the top and stays in the pool; its
/// burden is split by where the new balance lands, and the stake part of it is
/// added to the stake principal. Each part is converted to shares at its
/// sub-position's current rate. `lp_balance` is the principal the strategy holds
/// in the farm before this deposit.
pub open spec fn bond_spec(
    pool: PoolInfo,
    r: RewardInfo,
    amount: int,
    compound_rate: Decimal,
    deposit_fee: Decimal,
    lp_balance: int,
) -> Option<(PoolInfo, RewardInfo)> {
    let to_auto = scale(amount, compound_rate);
    let to_stake = amount - to_auto;
    let new_balance = lp_balance + amount;
    let new_auto_amount = new_balance - (pool.total_stake_bond_amount + to_stake);
    let fee = scale(amount, deposit_fee);
    let auto_fee = ratio(fee, new_auto_amount, new_balance);
    let stake_fee = fee - auto_fee;
    let remaining = amount - fee;
    let auto_amount = scale(remaining, compound_rate);
    let stake_amount = remaining - auto_amount;
    if to_auto <= u128::MAX && to_stake >= 0 && new_balance <= u128::MAX
        && pool.total_stake_bond_amount + to_stake <= u128::MAX && new_auto_amount >= 0 && fee
        <= u128::MAX && ratio_fits(fee, new_auto_amount, new_balance) && stake_fee >= 0
        && remaining >= 0 && auto_amount <= u128::MAX && stake_amount >= 0 && stake_amount
        + stake_fee <= u128::MAX {
        match (
            auto_bond_share_of(pool, auto_amount, lp_balance),
            stake_bond_share_of(pool, stake_amount),
        ) {
            (Some(auto_share), Some(stake_share)) => add_shares(
                pool,
                r,
                auto_share as int,
                stake_share as int,
                stake_amount + stake_fee,
            ),
            _ => None,
        }
    } else {
        None
    }
}

/// Increase-bond, run after both settlements. On failure nothing changes.
pub fn increase_bond_amount(
    pool_info: &mut PoolInfo,
    reward_info: &mut RewardInfo,
    deposit_fee: Decimal,
    amount: u128,
    compound_rate: Decimal,
    lp_balance: u128,
) -> (res: Result<(), FarmError>)
    ensures
        match bond_spec(
            *old(pool_info),
            *old(reward_info),
            amount as int,
            compound_rate,
            deposit_fee,
            lp_balance as int,
        ) {
            Some((p, r)) => res == Ok::<(), FarmError>(()) && *final(pool_info) == p && *final(reward_info) == r,
            None => res == Err::<(), FarmError>(FarmError::Arithmetic) && *final(pool_info) == *old(pool_info) && *final(reward_info) == *old(reward_info),
        },
{
    let to_auto = match compound_rate.checked_mul_amount(amount) {
        Some(v) => v,
        None => return Err(FarmError::Arithmetic),
    };
    let to_stake = match sub_or_none(amount, to_auto) {
        Some(v) => v,
        None => return Err(FarmError::Arithmetic),
    };
    let new_balance = match add_or_none(lp_balance, amount) {
        Some(v) => v,
        None => return Err(FarmError::Arithmetic),
    };
    let stake_after = match add_or_none(pool_info.total_stake_bond_amount, to_stake) {
        Some(v) => v,
        None => return Err(FarmError::Arithmetic),
    };
    let new_auto_amount = match sub_or_none(new_balance, stake_after) {
        Some(v) => v,
        None => return Err(FarmError::Arithmetic),
    };
    let fee = match deposit_fee.checked_mul_amount(amount) {
        Some(v) => v,
        None => return Err(FarmError::Arithmetic),
    };
    let auto_fee = match ratio_or_none(fee, new_auto_amount, new_balance) {
        Some(v) => v,
        None => return Err(FarmError::Arithmetic),
    };
    let stake_fee = match sub_or_none(fee, auto_fee) {
        Some(v) => v,
        None => return Err(FarmError::Arithmetic),
    };
    let remaining = match sub_or_none(amount, fee) {
        Some(v) => v,
        None => return Err(FarmError::Arithmetic),
    };
    let auto_amount = match compound_rate.checked_mul_amount(remaining) {
        Some(v) => v,
        None => return Err(FarmError::Arithmetic),
    };
    let stake_amount = match sub_or_none(remaining, auto_amount) {
        Some(v) => v,
        None => return Err(FarmError::Arithmetic),
    };
    let stake_added = match add_or_none(stake_amount, stake_fee) {
        Some(v) => v,
        None => return Err(FarmError::Arithmetic),
    };
    let auto_share = match pool_info.calc_auto_bond_share(auto_amount, lp_balance) {
        Some(v) => v,
        None => return Err(FarmError::Arithmetic),
    };
    let stake_share = match pool_info.calc_stake_bond_share(stake_amount) {
        Some(v) => v,
        None => return Err(FarmError::Arithmetic),
    };
    add_shares_to(pool_info, reward_info, auto_share, stake_share, stake_added)
}

fn add_shares_to(
    pool_info: &mut PoolInfo,
    reward_info: &mut RewardInfo,
    auto_share: u128,
    stake_share: u128,
    stake_amount: u128,
) -> (res: Result<(), FarmError>)
    ensures
        match add_shares(
            *old(pool_info),
            *old(reward_info),
            auto_share as int,
            stake_share as int,
            stake_amount as int,
        ) {
            Some((p, r)) => res == Ok::<(), FarmError>(()) && *final(pool_info) == p && *final(reward_info) == r,
            None => res == Err::<(), FarmError>(FarmError::Arithmetic) && *final(pool_info) == *old(pool_info) && *final(reward_info) == *old(reward_info),
        },
{
    let total_auto = match add_or_none(pool_info.total_auto_bond_share, auto_share) {
        Some(v) => v,
        None => return Err(FarmError::Arithmetic),
    };
    let total_stake_amount = match add_or_none(pool_info.total_stake_bond_amount, stake_amount) {
        Some(v) => v,
        None => return Err(FarmError::Arithmetic),
    };
    let total_stake = match add_or_none(pool_info.total_stake_bond_share, stake_share) {
        Some(v) => v,
        None => return Err(FarmError::Arithmetic),
    };
    let user_auto = match add_or_none(reward_info.auto_bond_share, auto_share) {
        Some(v) => v,
        None => return Err(FarmError::Arithmetic),
    };
    let user_stake = match add_or_none(reward_info.stake_bond_share, stake_share) {
        Some(v) => v,
        None => return Err(FarmError::Arithmetic),
    };
    pool_info.total_auto_bond_share = total_auto;
    pool_info.total_stake_bond_amount = total_stake_amount;
    pool_info.total_stake_bond_share = total_stake;
    reward_info.auto_bond_share = user_auto;
    reward_info.stake_bond_share = user_stake;
    Ok(())
}

/// The pool and record after the shares of a withdrawal are taken from both.
pub open spec fn remove_shares(
    pool: PoolInfo,
    r: RewardInfo,
    auto_share: int,
    stake_share: int,
    stake_amount: int,
) -> Option<(PoolInfo, RewardInfo)> {
    if pool.total_auto_bond_share >= auto_share && pool.total_stake_bond_amount >= stake_amount
        && pool.total_stake_bond_share >= stake_share && r.auto_bond_share >= auto_share
        && r.stake_bond_share >= stake_share {
        Some(
            (
                PoolInfo {
                    total_auto_bond_share: (pool.total_auto_bond_share - auto_share) as u128,
                    total_stake_bond_amount: (pool.total_stake_bond_amount - stake_amount) as u128,
                    total_stake_bond_share: (pool.total_stake_bond_share - stake_share) as u128,
                    ..pool
                },
                RewardInfo {
                    auto_bond_share: (r.auto_bond_share - auto_share) as u128,
                    stake_bond_share: (r.stake_bond_share - stake_share) as u128,
                    ..r
                },
            ),
        )
    } else {
        None
    }
}

/// Decrease-bond: `amount` of principal taken from the depositor's two
/// sub-positions in proportion to their current balances (all from the auto
/// sub-position while the record holds no stake share), each part converted to
/// the shares burned at its sub-position's rate, rounded up so that rounding
/// favours the pool. More than the depositor's combined balance, or a burn above
/// the record's shares, is refused with `ExceedsBond`.
pub open spec fn unbond_spec(pool: PoolInfo, r: RewardInfo, amount: int, lp_balance: int) -> Result<
    (PoolInfo, RewardInfo),
    FarmError,
> {
    match (
        user_auto_balance_of(pool, lp_balance, r.auto_bond_share as int),
        user_stake_balance_of(pool, r.stake_bond_share as int),
    ) {
        (Some(user_auto), Some(user_stake)) => {
            let user_balance = user_auto + user_stake;
            let auto_amount = if r.stake_bond_share == 0 {
                amount
            } else {
                ratio(amount, user_auto as int, user_balance)
            };
            let stake_amount = amount - auto_amount;
            if user_balance > u128::MAX {
                Err(FarmError::Arithmetic)
            } else if user_balance < amount {
                Err(FarmError::ExceedsBond)
            } else if (r.stake_bond_share != 0 ==> ratio_fits(
                amount,
                user_auto as int,
                user_balance,
            )) && stake_amount >= 0 {
                match (
                    auto_bond_burn_of(pool, auto_amount, lp_balance),
                    stake_bond_burn_of(pool, stake_amount),
                ) {
                    (Some(auto_share), Some(stake_share)) => if auto_share > r.auto_bond_share
                        || stake_share > r.stake_bond_share {
                        Err(FarmError::ExceedsBond)
                    } else {
                        match remove_shares(
                        pool,
                        r,
                        auto_share as int,
                        stake_share as int,
                        stake_amount,
                    ) {
                            Some(x) => Ok(x),
                            None => Err(FarmError::Arithmetic),
                        }
                    },
                    _ => Err(FarmError::Arithmetic),
                }
            } else {
                Err(FarmError::Arithmetic)
            }
        },
        _ => Err(FarmError::Arithmetic),
    }
}

/// Decrease-bond, run after both settlements. On failure nothing changes. On
/// success the record, valued at the new farm position `lp_balance − amount`, is
/// worth at most its former value less `amount`.
pub fn decrease_bond_amount(
    pool_info: &mut PoolInfo,
    reward_info: &mut RewardInfo,
    amount: u128,
    lp_balance: u128,
) -> (res: Result<(), FarmError>)
    ensures
        match unbond_spec(*old(pool_info), *old(reward_info), amount as int, lp_balance as int) {
            Ok((p, r)) => res == Ok::<(), FarmError>(()) && *final(pool_info) == p
                && *final(reward_info) == r,
            Err(e) => res == Err::<(), FarmError>(e) && *final(pool_info) == *old(pool_info)
                && *final(reward_info) == *old(reward_info),
        },
        res is Ok && old(reward_info).auto_bond_share <= old(pool_info).total_auto_bond_share
            && old(reward_info).stake_bond_share <= old(pool_info).total_stake_bond_share
            ==> (record_value(*old(pool_info), *old(reward_info), lp_balance as int) matches Some(
            before) && record_value(*final(pool_info), *final(reward_info), lp_balance - amount)
            matches Some(after) && after <= before - amount),
{
    let ghost old_pool = *pool_info;
    let ghost old_reward = *reward_info;
    let user_auto = match pool_info.calc_user_auto_balance(lp_balance, reward_info.auto_bond_share) {
        Some(v) => v,
        None => return Err(FarmError::Arithmetic),
    };
    let user_stake = match pool_info.calc_user_stake_balance(reward_info.stake_bond_share) {
        Some(v) => v,
        None => return Err(FarmError::Arithmetic),
    };
    let user_balance = match add_or_none(user_auto, user_stake) {
        Some(v) => v,
        None => return Err(FarmError::Arithmetic),
    };
    if user_balance < amount {
        return Err(FarmError::ExceedsBond);
    }
    let auto_amount = if reward_info.stake_bond_share == 0 {
        amount
    } else {
        match ratio_or_none(amount, user_auto, user_balance) {
            Some(v) => v,
            None => return Err(FarmError::Arithmetic),
        }
    };
    let stake_amount = match sub_or_none(amount, auto_amount) {
        Some(v) => v,
        None => return Err(FarmError::Arithmetic),
    };
    let auto_share = match pool_info.calc_auto_bond_burn(auto_amount, lp_balance) {
        Some(v) => v,
        None => return Err(FarmError::Arithmetic),
    };
    let stake_share = match pool_info.calc_stake_bond_burn(stake_amount) {
        Some(v) => v,
        None => return Err(FarmError::Arithmetic),
    };
    if reward_info.auto_bond_share < auto_share || reward_info.stake_bond_share < stake_share {
        return Err(FarmError::ExceedsBond);
    }
    if pool_info.total_auto_bond_share < auto_share || pool_info.total_stake_bond_amount
        < stake_amount || pool_info.total_stake_bond_share < stake_share
        || reward_info.auto_bond_share < auto_share || reward_info.stake_bond_share < stake_share {
        return Err(FarmError::Arithmetic);
    }
    pool_info.total_auto_bond_share = pool_info.total_auto_bond_share - auto_share;
    pool_info.total_stake_bond_amount = pool_info.total_stake_bond_amount - stake_amount;
    pool_info.total_stake_bond_share = pool_info.total_stake_bond_share - stake_share;
    reward_info.auto_bond_share = reward_info.auto_bond_share - auto_share;
    reward_info.stake_bond_share = reward_info.stake_bond_share - stake_share;
    proof {
        if old_reward.auto_bond_share <= old_pool.total_auto_bond_share
            && old_reward.stake_bond_share <= old_pool.total_stake_bond_share {
            lemma_unbond_favours_pool(old_pool, old_reward, amount as int, lp_balance as int);
        }
    }
    Ok(())
}

/// Paying out a settled record: all its farm shares leave the record and the
/// pool, and its governance shares above `locked_share` (the part still under a
/// time lock) are released, the record keeping `locked_share`. The result also
/// gives the released governance shares and the paid farm shares.
pub open spec fn withdraw_spec(pool: PoolInfo, r: RewardInfo, locked_share: int) -> Option<
    (PoolInfo, RewardInfo, u128, u128),
> {
    let released = if locked_share >= r.governance_share {
        0
    } else {
        r.governance_share - locked_share
    };
    if pool.farm_share >= r.farm_share {
        Some(
            (
                PoolInfo { farm_share: (pool.farm_share - r.farm_share) as u128, ..pool },
                RewardInfo { farm_share: 0, governance_share: locked_share as u128, ..r },
                released as u128,
                r.farm_share,
            ),
        )
    } else {
        None
    }
}

/// Pays out a settled record; returns `(released governance shares, farm shares)`.
/// On failure nothing changes.
pub fn withdraw_reward_record(
    pool_info: &mut PoolInfo,
    reward_info: &mut RewardInfo,
    locked_share: u128,
) -> (res: Result<(u128, u128), FarmError>)
    ensures
        match withdraw_spec(*old(pool_info), *old(reward_info), locked_share as int) {
            Some((p, r, g, f)) => res == Ok::<(u128, u128), FarmError>((g, f)) && *final(pool_info)
                == p && *final(reward_info) == r,
            None => res == Err::<(u128, u128), FarmError>(FarmError::Arithmetic) && *final(
                pool_info) == *old(pool_info) && *final(reward_info) == *old(reward_info),
        },
{
    if pool_info.farm_share < reward_info.farm_share {
        return Err(FarmError::Arithmetic);
    }
    let released = if locked_share >= reward_info.governance_share {
        0
    } else {
        reward_info.governance_share - locked_share
    };
    let farm_share = reward_info.farm_share;
    pool_info.farm_share = pool_info.farm_share - farm_share;
    reward_info.farm_share = 0;
    reward_info.governance_share = locked_share;
    Ok((released, farm_share))
}

/// The state after a withdrawal paid out `governance_share` governance shares and
/// `farm_share` farm shares.
pub open spec fn state_withdraw_spec(state: GlobalState, governance_share: int, farm_share: int) -> Option<
    GlobalState,
> {
    if state.previous_governance_share >= governance_share && state.total_farm_share >= farm_share {
        Some(
            GlobalState {
                previous_governance_share: (state.previous_governance_share - governance_share) as u128,
                total_farm_share: (state.total_farm_share - farm_share) as u128,
                ..state
            },
        )
    } else {
        None
    }
}

/// Takes paid-out shares off the strategy's totals. On failure nothing changes.
pub fn withdraw_from_state(state: &mut GlobalState, governance_share: u128, farm_share: u128) -> (res:
    Result<(), FarmError>)
    ensures
        match state_withdraw_spec(*old(state), governance_share as int, farm_share as int) {
            Some(s) => res == Ok::<(), FarmError>(()) && *final(state) == s,
            None => res == Err::<(), FarmError>(FarmError::Arithmetic) && *final(state) == *old(state),
        },
{
    if state.previous_governance_share < governance_share || state.total_farm_share < farm_share {
        return Err(FarmError::Arithmetic);
    }
    state.previous_governance_share = state.previous_governance_share - governance_share;
    state.total_farm_share = state.total_farm_share - farm_share;
    Ok(())
}

/// A pool after `new_share` farm shares were registered for its stake sub-position.
pub open spec fn pool_farm_deposit(pool: PoolInfo, new_share: int) -> Option<PoolInfo> {
    let per_bond = ratio_atomics(new_share, pool.total_stake_bond_share as int);
    let index = pool.farm_share_index.atomics + per_bond;
    if per_bond <= u128::MAX && index <= u128::MAX && pool.farm_share + new_share <= u128::MAX {
        Some(
            PoolInfo {
                farm_share_index: Decimal { atomics: index as u128 },
                farm_share: (pool.farm_share + new_share) as u128,
                ..pool
            },
        )
    } else {
        None
    }
}

/// Registering `amounts[i]` newly staked farm tokens for each of the first `n`
/// pools, every conversion against the strategy's totals as they stood before:
/// the updated pools and the sum of the new farm shares. Pools without stake
/// shares are left as they are.
pub open spec fn farm_deposits_spec(
    state: GlobalState,
    pools: Seq<PoolInfo>,
    amounts: Seq<u128>,
    total_farm_amount: int,
    n: nat,
) -> Option<(Seq<PoolInfo>, int)>
    decreases n,
{
    if n == 0 {
        Some((Seq::empty(), 0))
    } else {
        let i = n - 1;
        match farm_deposits_spec(state, pools, amounts, total_farm_amount, (n - 1) as nat) {
            Some((ps, total)) => if pools[i].total_stake_bond_share == 0 {
                Some((ps.push(pools[i]), total))
            } else {
                match farm_share_of(state, amounts[i] as int, total_farm_amount) {
                    Some(new_share) => match pool_farm_deposit(pools[i], new_share as int) {
                        Some(p) => if total + new_share <= u128::MAX {
                            Some((ps.push(p), total + new_share))
                        } else {
                            None
                        },
                        None => None,
                    },
                    None => None,
                }
            },
            None => None,
        }
    }
}

proof fn lemma_farm_deposits_fail_onward(
    state: GlobalState,
    pools: Seq<PoolInfo>,
    amounts: Seq<u128>,
    total_farm_amount: int,
    k: nat,
    n: nat,
)
    requires
        k <= n,
        farm_deposits_spec(state, pools, amounts, total_farm_amount, k) is None,
    ensures
        farm_deposits_spec(state, pools, amounts, total_farm_amount, n) is None,
    decreases n - k,
{
    if k < n {
        lemma_farm_deposits_fail_onward(state, pools, amounts, total_farm_amount, (k + 1) as nat, n);
    }
}

/// The strategy after a multi-pool farm deposit: the pools' new farm shares are
/// added to its total.
pub open spec fn farm_deposits_state_spec(
    state: GlobalState,
    pools: Seq<PoolInfo>,
    amounts: Seq<u128>,
    total_farm_amount: int,
) -> Option<(GlobalState, Seq<PoolInfo>)> {
    match farm_deposits_spec(state, pools, amounts, total_farm_amount, pools.len()) {
        Some((ps, total)) => if state.total_farm_share + total <= u128::MAX {
            Some((GlobalState { total_farm_share: (state.total_farm_share + total) as u128, ..state }, ps))
        } else {
            None
        },
        None => None,
    }
}

/// Registers newly staked farm tokens for several pools at once (`amounts[i]` for
/// `pools[i]`); returns the updated pools. On failure the state is left as it was.
pub fn deposit_farm_shares(
    state: &mut GlobalState,
    pools: &Vec<PoolInfo>,
    amounts: &Vec<u128>,
    total_farm_amount: u128,
) -> (res: Result<Vec<PoolInfo>, FarmError>)
    requires
        amounts@.len() == pools@.len(),
    ensures
        match farm_deposits_state_spec(*old(state), pools@, amounts@, total_farm_amount as int) {
            Some((s, ps)) => res matches Ok(v) && v@ == ps && *final(state) == s,
            None => res == Err::<Vec<PoolInfo>, FarmError>(FarmError::Arithmetic) && *final(state)
                == *old(state),
        },
{
    let n = pools.len();
    let mut out: Vec<PoolInfo> = Vec::new();
    let mut total: u128 = 0;
    let mut i: usize = 0;
    while i < n
        invariant
            n == pools@.len(),
            amounts@.len() == n,
            0 <= i <= n,
            farm_deposits_spec(*state, pools@, amounts@, total_farm_amount as int, i as nat) == Some(
                (out@, total as int),
            ),
            *state == *old(state),
        decreases n - i,
    {
        let pool = pools[i];
        if pool.total_stake_bond_share == 0 {
            out.push(pool);
        } else {
            let new_share = match state.calc_farm_share(amounts[i], total_farm_amount) {
                Some(v) => v,
                None => {
                    proof {
                        lemma_farm_deposits_fail_onward(
                            *state,
                            pools@,
                            amounts@,
                            total_farm_amount as int,
                            (i + 1) as nat,
                            n as nat,
                        );
                    }
                    return Err(FarmError::Arithmetic);
                },
            };
            let per_bond = Decimal::checked_from_ratio(new_share, pool.total_stake_bond_share);
            let index = match per_bond {
                Some(d) => pool.farm_share_index.checked_add(d),
                None => None,
            };
            let farm_share = add_or_none(pool.farm_share, new_share);
            let new_total = add_or_none(total, new_share);
            match (index, farm_share, new_total) {
                (Some(index), Some(farm_share), Some(new_total)) => {
                    out.push(PoolInfo { farm_share_index: index, farm_share, ..pool });
                    total = new_total;
                },
                _ => {
                    proof {
                        lemma_farm_deposits_fail_onward(
                            *state,
                            pools@,
                            amounts@,
                            total_farm_amount as int,
                            (i + 1) as nat,
                            n as nat,
                        );
                    }
                    return Err(FarmError::Arithmetic);
                },
            }
        }
        i = i + 1;
    }
    if state.total_farm_share > u128::MAX - total {
        return Err(FarmError::Arithmetic);
    }
    state.total_farm_share = state.total_farm_share + total;
    Ok(out)
}

} // verus!
