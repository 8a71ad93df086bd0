//! Laws of the ledger and of the compound cycle that hold across operations,
//! stated over the spec functions of those operations and proved.

use crate::bond::{bond_flow_spec, indices_settled_spec, unbond_flow_spec};
use crate::compound::{
    actions_spec, fee_split_spec, finish_spec, plan_spec, split_spec, total_fee_spec,
    CompoundAction, CompoundPlan,
};
use crate::ledger::{
    bond_spec, farm_deposit_spec, farm_deposits_spec, farm_deposits_state_spec, fresh_reward,
    global_governance_spec, pool_governance_spec, ratio_up, settle_spec, state_withdraw_spec,
    unbond_spec, user_auto_balance_of, user_stake_balance_of, withdraw_spec, GlobalState, PoolInfo,
    RewardInfo,
};
use crate::math::{ratio, scale, Decimal, DECIMAL_FRACTIONAL};
use vstd::prelude::*;

verus! {

/// Sum of the depositors' auto-compound shares.
pub open spec fn sum_auto(infos: Seq<RewardInfo>) -> int
    decreases infos.len(),
{
    if infos.len() == 0 {
        0
    } else {
        sum_auto(infos.drop_last()) + infos.last().auto_bond_share
    }
}

/// Sum of the depositors' fixed-stake shares.
pub open spec fn sum_stake(infos: Seq<RewardInfo>) -> int
    decreases infos.len(),
{
    if infos.len() == 0 {
        0
    } else {
        sum_stake(infos.drop_last()) + infos.last().stake_bond_share
    }
}

/// Sum of the pools' outstanding farm shares.
pub open spec fn sum_farm(pools: Seq<PoolInfo>) -> int
    decreases pools.len(),
{
    if pools.len() == 0 {
        0
    } else {
        sum_farm(pools.drop_last()) + pools.last().farm_share
    }
}

/// The pool's share totals are the sums over its depositors' records.
pub open spec fn shares_conserved(pool: PoolInfo, infos: Seq<RewardInfo>) -> bool {
    sum_auto(infos) == pool.total_auto_bond_share && sum_stake(infos)
        == pool.total_stake_bond_share
}

proof fn lemma_sums_update(infos: Seq<RewardInfo>, i: int, v: RewardInfo)
    requires
        0 <= i < infos.len(),
    ensures
        sum_auto(infos.update(i, v)) == sum_auto(infos) - infos[i].auto_bond_share
            + v.auto_bond_share,
        sum_stake(infos.update(i, v)) == sum_stake(infos) - infos[i].stake_bond_share
            + v.stake_bond_share,
    decreases infos.len(),
{
    let u = infos.update(i, v);
    if i == infos.len() - 1 {
        assert(u.drop_last() =~= infos.drop_last());
    } else {
        lemma_sums_update(infos.drop_last(), i, v);
        assert(u.drop_last() =~= infos.drop_last().update(i, v));
    }
}

proof fn lemma_farm_update(pools: Seq<PoolInfo>, i: int, v: PoolInfo)
    requires
        0 <= i < pools.len(),
    ensures
        sum_farm(pools.update(i, v)) == sum_farm(pools) - pools[i].farm_share + v.farm_share,
    decreases pools.len(),
{
    let u = pools.update(i, v);
    if i == pools.len() - 1 {
        assert(u.drop_last() =~= pools.drop_last());
    } else {
        lemma_farm_update(pools.drop_last(), i, v);
        assert(u.drop_last() =~= pools.drop_last().update(i, v));
    }
}

/// Conservation under a bond: when the pool's share totals are the sums over its
/// depositors' records, they still are after depositor `i` bonds.
pub proof fn lemma_bond_conserves_shares(
    pool: PoolInfo,
    infos: Seq<RewardInfo>,
    i: int,
    amount: int,
    compound_rate: Decimal,
    deposit_fee: Decimal,
    lp_balance: int,
)
    requires
        0 <= i < infos.len(),
        shares_conserved(pool, infos),
        bond_spec(pool, infos[i], amount, compound_rate, deposit_fee, lp_balance).is_some(),
    ensures
        ({
            let (p, r) = bond_spec(
                pool,
                infos[i],
                amount,
                compound_rate,
                deposit_fee,
                lp_balance,
            ).unwrap();
            shares_conserved(p, infos.update(i, r))
        }),
{
    let (p, r) = bond_spec(pool, infos[i], amount, compound_rate, deposit_fee, lp_balance).unwrap();
    lemma_sums_update(infos, i, r);
}

/// Conservation under an unbond: when the pool's share totals are the sums over
/// its depositors' records, they still are after depositor `i` unbonds.
pub proof fn lemma_unbond_conserves_shares(
    pool: PoolInfo,
    infos: Seq<RewardInfo>,
    i: int,
    amount: int,
    lp_balance: int,
)
    requires
        0 <= i < infos.len(),
        shares_conserved(pool, infos),
        unbond_spec(pool, infos[i], amount, lp_balance).is_ok(),
    ensures
        ({
            let (p, r) = unbond_spec(pool, infos[i], amount, lp_balance).unwrap();
            shares_conserved(p, infos.update(i, r))
        }),
{
    let (p, r) = unbond_spec(pool, infos[i], amount, lp_balance).unwrap();
    lemma_sums_update(infos, i, r);
}

/// Conservation under settlement and payout: settling a depositor, settling the
/// pool's governance index, registering staked farm rewards and paying out a
/// record leave every share count and share total as they were.
pub proof fn lemma_settlement_conserves_shares(
    pool: PoolInfo,
    infos: Seq<RewardInfo>,
    i: int,
    state: GlobalState,
    lp_balance: int,
    amount: int,
    total_farm_amount: int,
    locked_share: int,
)
    requires
        0 <= i < infos.len(),
        shares_conserved(pool, infos),
    ensures
        settle_spec(pool, infos[i]) matches Some(r) ==> shares_conserved(pool, infos.update(i, r)),
        pool_governance_spec(state.governance_share_index, pool, lp_balance) matches Some(p)
            ==> shares_conserved(p, infos),
        farm_deposit_spec(state, pool, amount, total_farm_amount) matches Some((s, p))
            ==> shares_conserved(p, infos),
        withdraw_spec(pool, infos[i], locked_share) matches Some((p, r, g, f)) ==> shares_conserved(
            p,
            infos.update(i, r),
        ),
{
    if let Some(r) = settle_spec(pool, infos[i]) {
        lemma_sums_update(infos, i, r);
    }
    if let Some((p, r, g, f)) = withdraw_spec(pool, infos[i], locked_share) {
        lemma_sums_update(infos, i, r);
    }
}

/// Conservation for a new depositor: a fresh record holds no share.
pub proof fn lemma_new_record_conserves_shares(
    pool: PoolInfo,
    infos: Seq<RewardInfo>,
    fresh: RewardInfo,
)
    requires
        shares_conserved(pool, infos),
        fresh.auto_bond_share == 0,
        fresh.stake_bond_share == 0,
    ensures
        shares_conserved(pool, infos.push(fresh)),
{
    assert(infos.push(fresh).drop_last() =~= infos);
}

/// Conservation of farm shares: when the strategy's total is the sum over its
/// pools, it still is after pool `j` registers staked farm rewards.
pub proof fn lemma_farm_deposit_conserves_farm_shares(
    state: GlobalState,
    pools: Seq<PoolInfo>,
    j: int,
    amount: int,
    total_farm_amount: int,
)
    requires
        0 <= j < pools.len(),
        sum_farm(pools) == state.total_farm_share,
        farm_deposit_spec(state, pools[j], amount, total_farm_amount).is_some(),
    ensures
        ({
            let (s, p) = farm_deposit_spec(state, pools[j], amount, total_farm_amount).unwrap();
            sum_farm(pools.update(j, p)) == s.total_farm_share
        }),
{
    let (s, p) = farm_deposit_spec(state, pools[j], amount, total_farm_amount).unwrap();
    lemma_farm_update(pools, j, p);
}

/// Conservation of farm shares under a payout: paying out a record of pool `j`
/// and taking the paid shares off the strategy's total keeps the total equal to
/// the sum over the pools.
pub proof fn lemma_withdraw_conserves_farm_shares(
    state: GlobalState,
    pools: Seq<PoolInfo>,
    j: int,
    r: RewardInfo,
    locked_share: int,
)
    requires
        0 <= j < pools.len(),
        sum_farm(pools) == state.total_farm_share,
        withdraw_spec(pools[j], r, locked_share).is_some(),
        state_withdraw_spec(state, 0, r.farm_share as int).is_some(),
    ensures
        ({
            let (p, r2, g, f) = withdraw_spec(pools[j], r, locked_share).unwrap();
            let s = state_withdraw_spec(state, 0, f as int).unwrap();
            sum_farm(pools.update(j, p)) == s.total_farm_share
        }),
{
    let (p, r2, g, f) = withdraw_spec(pools[j], r, locked_share).unwrap();
    lemma_farm_update(pools, j, p);
}

/// Every index of `b` is at least the same index of `a`.
pub open spec fn pool_indices_le(a: PoolInfo, b: PoolInfo) -> bool {
    &&& a.farm_share_index.atomics <= b.farm_share_index.atomics
    &&& a.auto_governance_share_index.atomics <= b.auto_governance_share_index.atomics
    &&& a.stake_governance_share_index.atomics <= b.stake_governance_share_index.atomics
    &&& a.state_governance_share_index.atomics <= b.state_governance_share_index.atomics
}

/// Monotonicity: no operation of the ledger lowers the global governance index or
/// any of a pool's indices.
pub proof fn lemma_indices_monotonic(
    state: GlobalState,
    pool: PoolInfo,
    r: RewardInfo,
    staked_share: int,
    query: bool,
    lp_balance: int,
    amount: int,
    total_farm_amount: int,
    compound_rate: Decimal,
    deposit_fee: Decimal,
    locked_share: int,
)
    requires
        0 <= lp_balance,
    ensures
        global_governance_spec(state, staked_share, query) matches Some(s)
            ==> state.governance_share_index.atomics <= s.governance_share_index.atomics,
        pool_governance_spec(state.governance_share_index, pool, lp_balance) matches Some(p)
            ==> pool_indices_le(pool, p),
        farm_deposit_spec(state, pool, amount, total_farm_amount) matches Some((s, p))
            ==> pool_indices_le(pool, p),
        bond_spec(pool, r, amount, compound_rate, deposit_fee, lp_balance) matches Some((p, r2))
            ==> pool_indices_le(pool, p),
        unbond_spec(pool, r, amount, lp_balance) matches Ok((p, r2)) ==> pool_indices_le(pool, p),
        withdraw_spec(pool, r, locked_share) matches Some((p, r2, g, f)) ==> pool_indices_le(pool, p),
{
    if lp_balance != 0 {
        let delta = state.governance_share_index.atomics - pool.state_governance_share_index.atomics;
        let share = delta * pool.weight;
        let stake_share = share * pool.total_stake_bond_amount / lp_balance;
        if delta >= 0 {
            assert(share >= 0) by (nonlinear_arith)
                requires
                    delta >= 0,
                    share == delta * pool.weight,
            ;
            assert(stake_share >= 0) by (nonlinear_arith)
                requires
                    share >= 0,
                    lp_balance > 0,
                    stake_share == share * pool.total_stake_bond_amount / lp_balance,
            ;
        }
    }
}

/// Monotonicity for depositors: settling moves a record's snapshots up to the
/// pool's indices, never down.
pub proof fn lemma_settle_snapshots_monotonic(pool: PoolInfo, r: RewardInfo)
    ensures
        settle_spec(pool, r) matches Some(n) ==> r.farm_share_index.atomics
            <= n.farm_share_index.atomics && r.auto_governance_share_index.atomics
            <= n.auto_governance_share_index.atomics && r.stake_governance_share_index.atomics
            <= n.stake_governance_share_index.atomics,
{
}

/// Idempotent settlement: settling a depositor a second time, with no change in
/// between, succeeds and leaves the record as the first settlement left it.
pub proof fn lemma_settle_idempotent(pool: PoolInfo, r: RewardInfo)
    requires
        settle_spec(pool, r).is_some(),
    ensures
        settle_spec(pool, settle_spec(pool, r).unwrap()) == settle_spec(pool, r),
{
    let n = settle_spec(pool, r).unwrap();
    assert(n.stake_bond_share * 0int / 1_000_000_000_000_000_000int == 0);
    assert(n.auto_bond_share * 0int / 1_000_000_000_000_000_000int == 0);
    let m = settle_spec(pool, n).unwrap();
    assert(m == n);
}

/// No leak in the fee split: community, platform and controller amounts add up
/// to the commission balance exactly.
pub proof fn lemma_fee_split_exact(
    balance: int,
    community_fee: Decimal,
    platform_fee: Decimal,
    controller_fee: Decimal,
)
    requires
        0 <= balance <= u128::MAX,
    ensures
        fee_split_spec(balance, community_fee, platform_fee, controller_fee) matches Some(s)
            ==> s.community + s.platform + s.controller == balance,
{
}

/// No leak in the harvest split: with principal bonded, commission, auto-compound
/// and stake parts add up to the harvested reward exactly.
pub proof fn lemma_reward_split_exact(
    reward: int,
    lp_balance: int,
    total_stake_bond_amount: int,
    total_fee: Decimal,
)
    requires
        0 <= reward <= u128::MAX,
        0 < lp_balance,
    ensures
        split_spec(reward, lp_balance, total_stake_bond_amount, total_fee) matches Some(s)
            ==> s.commission + s.compound + s.stake == reward,
{
    if reward != 0 && lp_balance != 0 {
        let commission = scale(reward, total_fee);
        assert(commission >= 0) by (nonlinear_arith)
            requires
                reward >= 0,
                total_fee.atomics >= 0,
                DECIMAL_FRACTIONAL > 0,
                commission == reward * total_fee.atomics / (DECIMAL_FRACTIONAL as int),
        ;
        let net = reward - commission;
        let auto_amount = lp_balance - total_stake_bond_amount;
        if net >= 0 && auto_amount >= 0 {
            assert(ratio(net, auto_amount, lp_balance) >= 0) by (nonlinear_arith)
                requires
                    net >= 0,
                    auto_amount >= 0,
                    lp_balance > 0,
                    ratio(net, auto_amount, lp_balance) == net * auto_amount / lp_balance,
            ;
        }
    }
}

/// An idle cycle (nothing pending, nothing held, nothing bonded) succeeds: its
/// first half plans nothing and leaves state and pool (and so every index) as
/// they were, and its second half emits the claim alone and changes nothing,
/// whatever the simulated return, the tax and the pool's depths.
pub proof fn lemma_idle_cycle_only_claims(
    state: GlobalState,
    pool: PoolInfo,
    fees: (Decimal, Decimal, Decimal),
    staked_farm_balance: int,
    returned: int,
    tax_rate: Decimal,
    tax_cap: int,
    token_depth: int,
    base_depth: int,
)
    requires
        0 <= staked_farm_balance,
        total_fee_spec(fees.0, fees.1, fees.2) is Some,
    ensures
        plan_spec(state, pool, fees, 0, 0, 0, staked_farm_balance) == Some(
            (
                state,
                pool,
                CompoundPlan {
                    commission: 0,
                    compound: 0,
                    stake: 0,
                    reinvest_amount: 0,
                    total_swap_amount: 0,
                },
            ),
        ),
        finish_spec(
            state,
            CompoundPlan {
                commission: 0,
                compound: 0,
                stake: 0,
                reinvest_amount: 0,
                total_swap_amount: 0,
            },
            returned,
            tax_rate,
            tax_cap,
            token_depth,
            base_depth,
        ) == Some((state, seq![CompoundAction::ClaimRewards])),
{
    if pool.total_stake_bond_share != 0 {
        if state.total_farm_share != 0 && staked_farm_balance != 0 {
            assert(0 * state.total_farm_share / staked_farm_balance == 0);
        }
        assert(0int * 1_000_000_000_000_000_000int / (pool.total_stake_bond_share as int) == 0);
    }
    assert(farm_deposit_spec(state, pool, 0, staked_farm_balance) == Some((state, pool)));
    assert(actions_spec(0, 0, 0, 0, 0, 0) =~= seq![CompoundAction::ClaimRewards]);
    assert((GlobalState { earning: (state.earning + 0) as u128, ..state }) == state);
}

/// Conservation under the whole deposit flow of an existing depositor `i`: the
/// pool's share totals remain the sums over its depositors' records.
pub proof fn lemma_bond_flow_conserves_shares(
    state: GlobalState,
    pool: PoolInfo,
    infos: Seq<RewardInfo>,
    i: int,
    staked_share: int,
    amount: int,
    compound_rate: Decimal,
    deposit_fee: Decimal,
    lp_balance: int,
)
    requires
        0 <= i < infos.len(),
        shares_conserved(pool, infos),
    ensures
        bond_flow_spec(
            state,
            pool,
            Some(infos[i]),
            staked_share,
            amount,
            compound_rate,
            deposit_fee,
            lp_balance,
        ) matches Some((s, p, r)) ==> shares_conserved(p, infos.update(i, r)),
{
    let pre = if pool.total_auto_bond_share != 0 || pool.total_stake_bond_share != 0 {
        indices_settled_spec(state, pool, staked_share, lp_balance)
    } else {
        Some((state, pool))
    };
    if let Some((s1, p1)) = pre {
        assert(shares_conserved(p1, infos));
        if let Some(r1) = settle_spec(p1, infos[i]) {
            lemma_sums_update(infos, i, r1);
            let settled = infos.update(i, r1);
            if let Some((p2, r2)) = bond_spec(
                p1,
                r1,
                amount,
                compound_rate,
                deposit_fee,
                lp_balance,
            ) {
                lemma_bond_conserves_shares(
                    p1,
                    settled,
                    i,
                    amount,
                    compound_rate,
                    deposit_fee,
                    lp_balance,
                );
                assert(settled.update(i, r2) =~= infos.update(i, r2));
            }
        }
    }
}

/// Conservation under a depositor's first deposit: appending the new record keeps
/// the pool's share totals the sums over its records, for any list of earlier
/// records, the empty list of a pool's very first depositor included.
pub proof fn lemma_first_bond_conserves_shares(
    state: GlobalState,
    pool: PoolInfo,
    infos: Seq<RewardInfo>,
    staked_share: int,
    amount: int,
    compound_rate: Decimal,
    deposit_fee: Decimal,
    lp_balance: int,
)
    requires
        shares_conserved(pool, infos),
    ensures
        bond_flow_spec(
            state,
            pool,
            None,
            staked_share,
            amount,
            compound_rate,
            deposit_fee,
            lp_balance,
        ) matches Some((s, p, r)) ==> shares_conserved(p, infos.push(r)),
{
    let pre = if pool.total_auto_bond_share != 0 || pool.total_stake_bond_share != 0 {
        indices_settled_spec(state, pool, staked_share, lp_balance)
    } else {
        Some((state, pool))
    };
    if let Some((s1, p1)) = pre {
        assert(shares_conserved(p1, infos));
        let fresh = fresh_reward(p1);
        lemma_new_record_conserves_shares(p1, infos, fresh);
        let grown = infos.push(fresh);
        let j = infos.len() as int;
        if let Some(r1) = settle_spec(p1, fresh) {
            lemma_sums_update(grown, j, r1);
            let settled = grown.update(j, r1);
            if let Some((p2, r2)) = bond_spec(
                p1,
                r1,
                amount,
                compound_rate,
                deposit_fee,
                lp_balance,
            ) {
                lemma_bond_conserves_shares(
                    p1,
                    settled,
                    j,
                    amount,
                    compound_rate,
                    deposit_fee,
                    lp_balance,
                );
                assert(settled.update(j, r2) =~= infos.push(r2));
            }
        }
    }
}

/// Conservation under the whole withdrawal-of-principal flow of depositor `i`.
pub proof fn lemma_unbond_flow_conserves_shares(
    state: GlobalState,
    pool: PoolInfo,
    infos: Seq<RewardInfo>,
    i: int,
    staked_share: int,
    amount: int,
    lp_balance: int,
)
    requires
        0 <= i < infos.len(),
        shares_conserved(pool, infos),
    ensures
        unbond_flow_spec(state, pool, infos[i], staked_share, amount, lp_balance) matches Ok(
            (s, p, r),
        ) ==> shares_conserved(p, infos.update(i, r)),
{
    if let Some((s1, p1)) = indices_settled_spec(state, pool, staked_share, lp_balance) {
        assert(shares_conserved(p1, infos));
        if let Some(r1) = settle_spec(p1, infos[i]) {
            lemma_sums_update(infos, i, r1);
            let settled = infos.update(i, r1);
            if let Ok((p2, r2)) = unbond_spec(p1, r1, amount, lp_balance) {
                lemma_unbond_conserves_shares(p1, settled, i, amount, lp_balance);
                assert(settled.update(i, r2) =~= infos.update(i, r2));
            }
        }
    }
}

/// Monotonicity across the deposit and withdrawal flows: neither lowers the
/// global governance index nor any of the pool's indices.
pub proof fn lemma_flows_monotonic(
    state: GlobalState,
    pool: PoolInfo,
    reward: Option<RewardInfo>,
    r: RewardInfo,
    staked_share: int,
    amount: int,
    compound_rate: Decimal,
    deposit_fee: Decimal,
    lp_balance: int,
)
    requires
        0 <= lp_balance,
    ensures
        bond_flow_spec(
            state,
            pool,
            reward,
            staked_share,
            amount,
            compound_rate,
            deposit_fee,
            lp_balance,
        ) matches Some((s, p, r2)) ==> pool_indices_le(pool, p)
            && state.governance_share_index.atomics <= s.governance_share_index.atomics,
        unbond_flow_spec(state, pool, r, staked_share, amount, lp_balance) matches Ok((s, p, r2))
            ==> pool_indices_le(pool, p) && state.governance_share_index.atomics
            <= s.governance_share_index.atomics,
{
    if let Some(s1) = global_governance_spec(state, staked_share, false) {
        lemma_indices_monotonic(
            s1,
            pool,
            r,
            staked_share,
            false,
            lp_balance,
            amount,
            0,
            compound_rate,
            deposit_fee,
            0,
        );
        if let Some(p1) = pool_governance_spec(s1.governance_share_index, pool, lp_balance) {
            let r0 = match reward {
                Some(x) => x,
                None => fresh_reward(p1),
            };
            if let Some(r1) = settle_spec(p1, r0) {
                lemma_indices_monotonic(
                    s1,
                    p1,
                    r1,
                    staked_share,
                    false,
                    lp_balance,
                    amount,
                    0,
                    compound_rate,
                    deposit_fee,
                    0,
                );
            }
            if let Some(r1) = settle_spec(p1, r) {
                lemma_indices_monotonic(
                    s1,
                    p1,
                    r1,
                    staked_share,
                    false,
                    lp_balance,
                    amount,
                    0,
                    compound_rate,
                    deposit_fee,
                    0,
                );
            }
        }
    }
    let r0 = match reward {
        Some(x) => x,
        None => fresh_reward(pool),
    };
    if let Some(r1) = settle_spec(pool, r0) {
        lemma_indices_monotonic(
            state,
            pool,
            r1,
            staked_share,
            false,
            lp_balance,
            amount,
            0,
            compound_rate,
            deposit_fee,
            0,
        );
    }
}

proof fn lemma_farm_deposits_sum(
    state: GlobalState,
    pools: Seq<PoolInfo>,
    amounts: Seq<u128>,
    total_farm_amount: int,
    n: nat,
)
    requires
        n <= pools.len(),
        farm_deposits_spec(state, pools, amounts, total_farm_amount, n) is Some,
    ensures
        ({
            let (ps, total) = farm_deposits_spec(state, pools, amounts, total_farm_amount, n).unwrap();
            ps.len() == n && total >= 0 && sum_farm(ps) == sum_farm(pools.take(n as int)) + total
        }),
    decreases n,
{
    if n > 0 {
        lemma_farm_deposits_sum(state, pools, amounts, total_farm_amount, (n - 1) as nat);
        assert(pools.take(n as int).drop_last() =~= pools.take(n - 1));
        let (ps, total) = farm_deposits_spec(state, pools, amounts, total_farm_amount, n).unwrap();
        let (ps0, t0) = farm_deposits_spec(
            state,
            pools,
            amounts,
            total_farm_amount,
            (n - 1) as nat,
        ).unwrap();
        assert(ps.drop_last() =~= ps0);
    } else {
        assert(pools.take(0) =~= Seq::<PoolInfo>::empty());
    }
}

/// Conservation of farm shares under a deposit for several pools at once: when
/// the strategy's total is the sum over its pools, it still is afterwards.
pub proof fn lemma_farm_deposits_conserve_farm_shares(
    state: GlobalState,
    pools: Seq<PoolInfo>,
    amounts: Seq<u128>,
    total_farm_amount: int,
)
    requires
        sum_farm(pools) == state.total_farm_share,
        farm_deposits_state_spec(state, pools, amounts, total_farm_amount) is Some,
    ensures
        ({
            let (s, ps) = farm_deposits_state_spec(state, pools, amounts, total_farm_amount).unwrap();
            sum_farm(ps) == s.total_farm_share
        }),
{
    lemma_farm_deposits_sum(state, pools, amounts, total_farm_amount, pools.len());
    assert(pools.take(pools.len() as int) =~= pools);
}

/// What `u` of `s` shares backed by `t` of principal are worth, rounded down;
/// nothing while no share is outstanding.
pub open spec fn part_value(t: int, s: int, u: int) -> int {
    if s == 0 {
        0
    } else {
        t * u / s
    }
}

/// Shares burned for withdrawing `a` of principal from `s` shares backed by `t`:
/// one to one while either is zero, else rounded up.
pub open spec fn part_burn(t: int, s: int, a: int) -> int {
    if s == 0 || t == 0 {
        a
    } else {
        ratio_up(a, s, t)
    }
}

proof fn lemma_burn_core(t: int, s: int, u: int, a: int, b: int)
    requires
        0 < t,
        0 < s,
        0 <= u <= s,
        0 <= a <= t * u / s,
        0 <= b <= u,
        b * t >= a * s,
        s - b > 0,
    ensures
        0 <= (t - a) * (u - b) / (s - b) <= t * u / s - a,
{
    let v = t * u / s;
    vstd::arithmetic::div_mod::lemma_fundamental_div_mod(t * u, s);
    vstd::arithmetic::div_mod::lemma_mod_pos_bound(t * u, s);
    assert(t * u < (v + 1) * s) by (nonlinear_arith)
        requires
            t * u == s * v + (t * u) % s,
            (t * u) % s < s,
    ;
    let x = (t - a) * (u - b);
    assert((t * u - a * s) * (s - b) == t * u * s - t * u * b - a * s * s + a * s * b)
        by (nonlinear_arith);
    assert(x == t * u - t * b - a * u + a * b) by (nonlinear_arith)
        requires
            x == (t - a) * (u - b),
    ;
    assert(x * s == t * u * s - t * b * s - a * u * s + a * b * s) by (nonlinear_arith)
        requires
            x == t * u - t * b - a * u + a * b,
    ;
    let y = b * t - a * s;
    assert((s - u) * y == s * y - u * y) by (nonlinear_arith);
    assert(s * y == s * b * t - s * a * s) by (nonlinear_arith)
        requires
            y == b * t - a * s,
    ;
    assert(u * y == u * b * t - u * a * s) by (nonlinear_arith)
        requires
            y == b * t - a * s,
    ;
    assert(t * u * b == u * b * t && a * s * s == s * a * s && t * b * s == s * b * t && a * u * s
        == u * a * s && a * b * s == a * s * b) by (nonlinear_arith);
    assert((t * u - a * s) * (s - b) - x * s == (s - u) * (b * t - a * s));
    assert(t * u - a * s < (v + 1 - a) * s) by (nonlinear_arith)
        requires
            t * u < (v + 1) * s,
    ;
    assert((s - u) * (b * t - a * s) >= 0) by (nonlinear_arith)
        requires
            s - u >= 0,
            b * t - a * s >= 0,
    ;
    assert(x * s < (v - a + 1) * (s - b) * s) by (nonlinear_arith)
        requires
            x * s <= (t * u - a * s) * (s - b),
            t * u - a * s < (v + 1 - a) * s,
            s - b > 0,
    ;
    assert(x < (s - b) * (v - a + 1)) by (nonlinear_arith)
        requires
            x * s < (v - a + 1) * (s - b) * s,
            s > 0,
    ;
    lemma_value_le_principal(t, s, u);
    assert(x >= 0) by (nonlinear_arith)
        requires
            t - a >= 0,
            u - b >= 0,
            x == (t - a) * (u - b),
    ;
    vstd::arithmetic::div_mod::lemma_multiply_divide_lt(x, s - b, v - a + 1);
    vstd::arithmetic::div_mod::lemma_div_pos_is_pos(x, s - b);
}

/// One sub-position: withdrawing `a` of principal, no more than the record's
/// value, and burning the rounded-up shares leaves the record worth at most its
/// value less `a`, and the principal behind the sub-position non-negative.
proof fn lemma_part_after_burn(t: int, s: int, u: int, a: int)
    requires
        0 <= t,
        0 <= u <= s,
        0 <= a <= part_value(t, s, u),
        part_burn(t, s, a) <= u,
    ensures
        t - a >= 0,
        0 <= part_value(t - a, s - part_burn(t, s, a), u - part_burn(t, s, a)) <= part_value(t, s, u)
            - a,
        part_value(t - a, s - part_burn(t, s, a), u - part_burn(t, s, a)) <= t - a,
{
    let b = part_burn(t, s, a);
    if s == 0 {
        assert(a == 0 && b == 0);
    } else if t == 0 {
        assert(0 * u / s == 0) by (nonlinear_arith)
            requires
                s > 0,
        ;
        assert(a == 0 && b == 0);
        assert(0 * u / s == 0);
    } else {
        vstd::arithmetic::div_mod::lemma_fundamental_div_mod(a * s, t);
        vstd::arithmetic::div_mod::lemma_mod_pos_bound(a * s, t);
        assert(b * t >= a * s) by (nonlinear_arith)
            requires
                a * s == t * (a * s / t) + (a * s) % t,
                0 <= (a * s) % t < t,
                b == a * s / t || b == a * s / t + 1,
                (a * s) % t != 0 ==> b == a * s / t + 1,
        ;
        vstd::arithmetic::div_mod::lemma_div_pos_is_pos(a * s, t);
        lemma_value_le_principal(t, s, u);
        if s - b > 0 {
            lemma_burn_core(t, s, u, a, b);
            assert(s - b != 0);
        }
    }
}

proof fn lemma_value_le_principal(t: int, s: int, u: int)
    requires
        0 <= t,
        0 <= u <= s,
        0 < s,
    ensures
        0 <= t * u / s <= t,
{
    assert(0 <= t * u <= t * s) by (nonlinear_arith)
        requires
            0 <= t,
            0 <= u <= s,
    ;
    vstd::arithmetic::div_mod::lemma_div_is_ordered(t * u, t * s, s);
    vstd::arithmetic::div_mod::lemma_div_by_multiple(t, s);
    vstd::arithmetic::div_mod::lemma_div_pos_is_pos(t * u, s);
}

/// The principal a record is worth in a pool whose farm position is `lp_balance`:
/// both sub-positions at the pool's rates, rounded down.
pub open spec fn record_value(pool: PoolInfo, r: RewardInfo, lp_balance: int) -> Option<int> {
    match (
        user_auto_balance_of(pool, lp_balance, r.auto_bond_share as int),
        user_stake_balance_of(pool, r.stake_bond_share as int),
    ) {
        (Some(a), Some(s)) => Some(a + s),
        _ => None,
    }
}

/// Rounding favours the pool on a withdrawal of principal: after unbonding
/// `amount`, the record is worth, at the pool's new farm position
/// `lp_balance − amount`, at most what it was worth before less `amount`.
pub proof fn lemma_unbond_favours_pool(pool: PoolInfo, r: RewardInfo, amount: int, lp_balance: int)
    requires
        0 <= amount,
        0 <= lp_balance <= u128::MAX,
        r.auto_bond_share <= pool.total_auto_bond_share,
        r.stake_bond_share <= pool.total_stake_bond_share,
        unbond_spec(pool, r, amount, lp_balance) is Ok,
    ensures
        ({
            let (p, r2) = unbond_spec(pool, r, amount, lp_balance).unwrap();
            &&& record_value(pool, r, lp_balance) is Some
            &&& record_value(p, r2, lp_balance - amount) is Some
            &&& record_value(p, r2, lp_balance - amount).unwrap() <= record_value(
                pool,
                r,
                lp_balance,
            ).unwrap() - amount
        }),
{
    let (p, r2) = unbond_spec(pool, r, amount, lp_balance).unwrap();
    let ua = user_auto_balance_of(pool, lp_balance, r.auto_bond_share as int).unwrap() as int;
    let us = user_stake_balance_of(pool, r.stake_bond_share as int).unwrap() as int;
    let e = ua + us;
    let tsa = pool.total_stake_bond_amount as int;
    let tss = pool.total_stake_bond_share as int;
    let tas = pool.total_auto_bond_share as int;
    let u = r.auto_bond_share as int;
    let v = r.stake_bond_share as int;
    let t = lp_balance - tsa;
    let a1 = if v == 0 {
        amount
    } else {
        ratio(amount, ua, e)
    };
    let a2 = amount - a1;
    assert(us == part_value(tsa, tss, v)) by {
        if tss != 0 && v == 0 {
            assert(tsa * 0 / tss == 0) by (nonlinear_arith)
                requires
                    tss > 0,
            ;
        }
    }
    if v == 0 {
        if tss != 0 {
            assert(tsa * 0 / tss == 0) by (nonlinear_arith)
                requires
                    tss > 0,
            ;
        }
        assert(us == 0);
    } else {
        assert(e > 0);
        assert(amount * ua <= e * ua) by (nonlinear_arith)
            requires
                0 <= amount <= e,
                ua >= 0,
        ;
        vstd::arithmetic::div_mod::lemma_multiply_divide_le(amount * ua, e, ua);
        assert(amount * ua >= 0) by (nonlinear_arith)
            requires
                amount >= 0,
                ua >= 0,
        ;
        vstd::arithmetic::div_mod::lemma_div_pos_is_pos(amount * ua, e);
        if amount - us > 0 {
            let c = amount - us;
            assert(amount * ua - c * e == us * (e - amount)) by (nonlinear_arith)
                requires
                    c == amount - us,
                    e == ua + us,
            ;
            assert(us * (e - amount) >= 0) by (nonlinear_arith)
                requires
                    us >= 0,
                    e - amount >= 0,
            ;
            vstd::arithmetic::div_mod::lemma_div_is_ordered(c * e, amount * ua, e);
            vstd::arithmetic::div_mod::lemma_div_by_multiple(c, e);
        }
    }
    assert(0 <= a1 <= ua && 0 <= a2 <= us);
    assert(t >= 0);
    assert(ua == part_value(t, tas, u));
    lemma_part_after_burn(t, tas, u, a1);
    lemma_part_after_burn(tsa, tss, v, a2);
}

} // verus!
