//! Bond/unbond handler and reward payout: the ledger steps of a deposit, a
//! withdrawal of principal and a reward withdrawal, in their required order
//! (settle the global and pool indices, settle the depositor, then change shares).
//! Each flow works on copies and commits only on success.

use crate::error::FarmError;
use crate::ledger::{
    before_share_change, bond_spec, calc_farm_balance, calc_spec_balance, decrease_bond_amount,
    deposit_spec_reward, farm_balance_of, fresh_reward, global_governance_spec,
    governance_balance_of, increase_bond_amount, pool_governance_spec, settle_spec,
    spec_reward_to_pool, state_withdraw_spec, unbond_spec, user_auto_balance_of,
    user_stake_balance_of, withdraw_from_state, withdraw_reward_record, withdraw_spec, GlobalState,
    PoolInfo, RewardInfo,
};
use crate::laws::record_value;
use crate::math::Decimal;
use vstd::prelude::*;

verus! {

/// The state and pool once the governance indices are settled, before a share
/// change in a pool that has shares.
pub open spec fn indices_settled_spec(
    state: GlobalState,
    pool: PoolInfo,
    staked_share: int,
    lp_balance: int,
) -> Option<(GlobalState, PoolInfo)> {
    match global_governance_spec(state, staked_share, false) {
        Some(s) => match pool_governance_spec(s.governance_share_index, pool, lp_balance) {
            Some(p) => Some((s, p)),
            None => None,
        },
        None => None,
    }
}

/// A deposit of `amount` LP tokens: in a pool that has shares, the global and
/// pool governance indices are settled first (`staked_share` is the strategy's
/// share balance in the governance staking ledger); then the depositor's record
/// (a fresh one for a first deposit) is settled and the bond added.
pub open spec fn bond_flow_spec(
    state: GlobalState,
    pool: PoolInfo,
    reward: Option<RewardInfo>,
    staked_share: int,
    amount: int,
    compound_rate: Decimal,
    deposit_fee: Decimal,
    lp_balance: int,
) -> Option<(GlobalState, PoolInfo, RewardInfo)> {
    let pre = if pool.total_auto_bond_share != 0 || pool.total_stake_bond_share != 0 {
        indices_settled_spec(state, pool, staked_share, lp_balance)
    } else {
        Some((state, pool))
    };
    match pre {
        Some((s, p)) => {
            let r0 = match reward {
                Some(r) => r,
                None => fresh_reward(p),
            };
            match settle_spec(p, r0) {
                Some(r1) => match bond_spec(p, r1, amount, compound_rate, deposit_fee, lp_balance) {
                    Some((p2, r2)) => Some((s, p2, r2)),
                    None => None,
                },
                None => None,
            }
        },
        None => None,
    }
}

/// Bonds `amount` LP tokens for a depositor whose record is `reward_info` (`None`
/// for a first deposit); `lp_balance` is the strategy's principal in the farm
/// before this deposit. Returns the depositor's new record.
pub fn bond(
    state: &mut GlobalState,
    pool_info: &mut PoolInfo,
    reward_info: Option<RewardInfo>,
    staked_share: u128,
    amount: u128,
    compound_rate: Decimal,
    deposit_fee: Decimal,
    lp_balance: u128,
) -> (res: Result<RewardInfo, FarmError>)
    ensures
        match bond_flow_spec(
            *old(state),
            *old(pool_info),
            reward_info,
            staked_share as int,
            amount as int,
            compound_rate,
            deposit_fee,
            lp_balance as int,
        ) {
            Some((s, p, r)) => res == Ok::<RewardInfo, FarmError>(r) && *final(state) == s
                && *final(pool_info) == p,
            None => res == Err::<RewardInfo, FarmError>(FarmError::Arithmetic) && *final(state)
                == *old(state) && *final(pool_info) == *old(pool_info),
        },
{
    let mut s = *state;
    let mut p = *pool_info;
    if p.total_auto_bond_share != 0 || p.total_stake_bond_share != 0 {
        if deposit_spec_reward(&mut s, staked_share, false).is_err() {
            return Err(FarmError::Arithmetic);
        }
        if spec_reward_to_pool(&s, &mut p, lp_balance).is_err() {
            return Err(FarmError::Arithmetic);
        }
    }
    let mut r = match reward_info {
        Some(r) => r,
        None => RewardInfo::new(&p),
    };
    if before_share_change(&p, &mut r).is_err() {
        return Err(FarmError::Arithmetic);
    }
    if increase_bond_amount(&mut p, &mut r, deposit_fee, amount, compound_rate, lp_balance).is_err() {
        return Err(FarmError::Arithmetic);
    }
    *state = s;
    *pool_info = p;
    Ok(r)
}

/// A withdrawal of `amount` LP tokens of principal: refused with `ExceedsBond`
/// beyond the depositor's combined balance; otherwise the indices and the record
/// are settled and the shares removed.
pub open spec fn unbond_flow_spec(
    state: GlobalState,
    pool: PoolInfo,
    r: RewardInfo,
    staked_share: int,
    amount: int,
    lp_balance: int,
) -> Result<(GlobalState, PoolInfo, RewardInfo), FarmError> {
    match (
        user_auto_balance_of(pool, lp_balance, r.auto_bond_share as int),
        user_stake_balance_of(pool, r.stake_bond_share as int),
    ) {
        (Some(user_auto), Some(user_stake)) => {
            if user_auto + user_stake > u128::MAX {
                Err(FarmError::Arithmetic)
            } else if user_auto + user_stake < amount {
                Err(FarmError::ExceedsBond)
            } else {
                match indices_settled_spec(state, pool, staked_share, lp_balance) {
                    Some((s, p)) => match settle_spec(p, r) {
                        Some(r1) => match unbond_spec(p, r1, amount, lp_balance) {
                            Ok((p2, r2)) => Ok((s, p2, r2)),
                            Err(e) => Err(e),
                        },
                        None => Err(FarmError::Arithmetic),
                    },
                    None => Err(FarmError::Arithmetic),
                }
            }
        },
        _ => Err(FarmError::Arithmetic),
    }
}

/// Unbonds `amount` LP tokens of the depositor whose record is `reward_info`;
/// `lp_balance` is the strategy's principal in the farm. Returns the new record,
/// which storage drops when it is empty. Rounding favours the pool: the record
/// is then worth at most its former value less `amount`.
pub fn unbond(
    state: &mut GlobalState,
    pool_info: &mut PoolInfo,
    reward_info: RewardInfo,
    staked_share: u128,
    amount: u128,
    lp_balance: u128,
) -> (res: Result<RewardInfo, FarmError>)
    ensures
        match unbond_flow_spec(
            *old(state),
            *old(pool_info),
            reward_info,
            staked_share as int,
            amount as int,
            lp_balance as int,
        ) {
            Ok((s, p, r)) => res == Ok::<RewardInfo, FarmError>(r) && *final(state) == s
                && *final(pool_info) == p,
            Err(e) => res == Err::<RewardInfo, FarmError>(e) && *final(state) == *old(state)
                && *final(pool_info) == *old(pool_info),
        },
        res is Ok && reward_info.auto_bond_share <= old(pool_info).total_auto_bond_share
            && reward_info.stake_bond_share <= old(pool_info).total_stake_bond_share
            ==> (record_value(*old(pool_info), reward_info, lp_balance as int) matches Some(before)
            && record_value(*final(pool_info), res.unwrap(), lp_balance - amount) matches Some(
            after) && after <= before - amount),
{
    let user_auto = match pool_info.calc_user_auto_balance(lp_balance, reward_info.auto_bond_share) {
        Some(v) => v,
        None => return Err(FarmError::Arithmetic),
    };
    let user_stake = match pool_info.calc_user_stake_balance(reward_info.stake_bond_share) {
        Some(v) => v,
        None => return Err(FarmError::Arithmetic),
    };
    if user_auto > u128::MAX - user_stake {
        return Err(FarmError::Arithmetic);
    }
    if user_auto + user_stake < amount {
        return Err(FarmError::ExceedsBond);
    }
    let mut s = *state;
    let mut p = *pool_info;
    let mut r = reward_info;
    if deposit_spec_reward(&mut s, staked_share, false).is_err() {
        return Err(FarmError::Arithmetic);
    }
    if spec_reward_to_pool(&s, &mut p, lp_balance).is_err() {
        return Err(FarmError::Arithmetic);
    }
    if before_share_change(&p, &mut r).is_err() {
        return Err(FarmError::Arithmetic);
    }
    match decrease_bond_amount(&mut p, &mut r, amount, lp_balance) {
        Ok(()) => {},
        Err(e) => return Err(e),
    }
    *state = s;
    *pool_info = p;
    Ok(r)
}

/// What a reward withdrawal pays for one record.
#[derive(Clone, Copy, Debug, PartialEq, Eq, Structural)]
pub struct Payout {
    /// Governance tokens paid.
    pub governance_amount: u128,
    /// Governance shares released.
    pub governance_share: u128,
    /// Farm tokens paid.
    pub farm_amount: u128,
    /// Farm shares paid.
    pub farm_share: u128,
}

/// Withdrawal of one record's rewards, the global index being settled already:
/// the pool's governance index and the record are settled, the record's farm
/// shares and unlocked governance shares are paid out, and both are converted to
/// tokens (farm shares against `farm_balance`, the strategy's staked farm tokens;
/// governance shares at `gov_staked_balance / gov_staked_share`).
pub open spec fn payout_spec(
    state: GlobalState,
    pool: PoolInfo,
    r: RewardInfo,
    lp_balance: int,
    locked_share: int,
    farm_balance: int,
    gov_staked_share: int,
    gov_staked_balance: int,
) -> Option<(PoolInfo, RewardInfo, Payout)> {
    match pool_governance_spec(state.governance_share_index, pool, lp_balance) {
        Some(p) => match settle_spec(p, r) {
            Some(r1) => match withdraw_spec(p, r1, locked_share) {
                Some((p2, r2, g, f)) => match (
                    farm_balance_of(f as int, farm_balance, state.total_farm_share as int),
                    governance_balance_of(g as int, gov_staked_share, gov_staked_balance),
                ) {
                    (Some(fa), Some(ga)) => Some(
                        (
                            p2,
                            r2,
                            Payout {
                                governance_amount: ga,
                                governance_share: g,
                                farm_amount: fa,
                                farm_share: f,
                            },
                        ),
                    ),
                    _ => None,
                },
                None => None,
            },
            None => None,
        },
        None => None,
    }
}

/// Pays out one record's rewards; `locked_share` is the part of the settled
/// record's governance shares still under the time lock (settling is idempotent,
/// so a caller may settle a copy first to learn the accumulated share it depends on). The strategy's totals are lowered afterwards
/// by `ledger::withdraw_from_state`.
pub fn withdraw_reward(
    state: &GlobalState,
    pool_info: &mut PoolInfo,
    reward_info: &mut RewardInfo,
    lp_balance: u128,
    locked_share: u128,
    farm_balance: u128,
    gov_staked_share: u128,
    gov_staked_balance: u128,
) -> (res: Result<Payout, FarmError>)
    ensures
        match payout_spec(
            *state,
            *old(pool_info),
            *old(reward_info),
            lp_balance as int,
            locked_share as int,
            farm_balance as int,
            gov_staked_share as int,
            gov_staked_balance as int,
        ) {
            Some((p, r, o)) => res == Ok::<Payout, FarmError>(o) && *final(pool_info) == p
                && *final(reward_info) == r,
            None => res == Err::<Payout, FarmError>(FarmError::Arithmetic) && *final(pool_info)
                == *old(pool_info) && *final(reward_info) == *old(reward_info),
        },
{
    let mut p = *pool_info;
    let mut r = *reward_info;
    if spec_reward_to_pool(state, &mut p, lp_balance).is_err() {
        return Err(FarmError::Arithmetic);
    }
    if before_share_change(&p, &mut r).is_err() {
        return Err(FarmError::Arithmetic);
    }
    let (g, f) = match withdraw_reward_record(&mut p, &mut r, locked_share) {
        Ok(x) => x,
        Err(_) => return Err(FarmError::Arithmetic),
    };
    let farm_amount = match calc_farm_balance(f, farm_balance, state.total_farm_share) {
        Some(v) => v,
        None => return Err(FarmError::Arithmetic),
    };
    let governance_amount = match calc_spec_balance(g, gov_staked_share, gov_staked_balance) {
        Some(v) => v,
        None => return Err(FarmError::Arithmetic),
    };
    *pool_info = p;
    *reward_info = r;
    Ok(Payout { governance_amount, governance_share: g, farm_amount, farm_share: f })
}

/// The sum of two payouts, `None` where a total leaves 128 bits.
pub open spec fn add_payout(a: Payout, b: Payout) -> Option<Payout> {
    if a.governance_amount + b.governance_amount <= u128::MAX && a.governance_share
        + b.governance_share <= u128::MAX && a.farm_amount + b.farm_amount <= u128::MAX
        && a.farm_share + b.farm_share <= u128::MAX {
        Some(
            Payout {
                governance_amount: (a.governance_amount + b.governance_amount) as u128,
                governance_share: (a.governance_share + b.governance_share) as u128,
                farm_amount: (a.farm_amount + b.farm_amount) as u128,
                farm_share: (a.farm_share + b.farm_share) as u128,
            },
        )
    } else {
        None
    }
}

/// Paying out the first `n` records, in order: record `i` belongs to `pools[i]`,
/// whose farm position is `lp_balances[i]` and whose time lock holds back
/// `locked_shares[i]`. Gives the updated pools and records and the total payout.
pub open spec fn payouts_spec(
    state: GlobalState,
    pools: Seq<PoolInfo>,
    rewards: Seq<RewardInfo>,
    lp_balances: Seq<u128>,
    locked_shares: Seq<u128>,
    farm_balance: int,
    gov_staked_share: int,
    gov_staked_balance: int,
    n: nat,
) -> Option<(Seq<PoolInfo>, Seq<RewardInfo>, Payout)>
    decreases n,
{
    if n == 0 {
        Some(
            (
                Seq::empty(),
                Seq::empty(),
                Payout { governance_amount: 0, governance_share: 0, farm_amount: 0, farm_share: 0 },
            ),
        )
    } else {
        let i = n - 1;
        match payouts_spec(
            state,
            pools,
            rewards,
            lp_balances,
            locked_shares,
            farm_balance,
            gov_staked_share,
            gov_staked_balance,
            (n - 1) as nat,
        ) {
            Some((ps, rs, total)) => match payout_spec(
                state,
                pools[i],
                rewards[i],
                lp_balances[i] as int,
                locked_shares[i] as int,
                farm_balance,
                gov_staked_share,
                gov_staked_balance,
            ) {
                Some((p, r, o)) => match add_payout(total, o) {
                    Some(t) => Some((ps.push(p), rs.push(r), t)),
                    None => None,
                },
                None => None,
            },
            None => None,
        }
    }
}

/// Once paying out the first `k` records fails, paying out more fails too.
proof fn lemma_payouts_fail_onward(
    state: GlobalState,
    pools: Seq<PoolInfo>,
    rewards: Seq<RewardInfo>,
    lp_balances: Seq<u128>,
    locked_shares: Seq<u128>,
    farm_balance: int,
    gov_staked_share: int,
    gov_staked_balance: int,
    k: nat,
    n: nat,
)
    requires
        k <= n,
        payouts_spec(
            state,
            pools,
            rewards,
            lp_balances,
            locked_shares,
            farm_balance,
            gov_staked_share,
            gov_staked_balance,
            k,
        ) is None,
    ensures
        payouts_spec(
            state,
            pools,
            rewards,
            lp_balances,
            locked_shares,
            farm_balance,
            gov_staked_share,
            gov_staked_balance,
            n,
        ) is None,
    decreases n - k,
{
    if k < n {
        lemma_payouts_fail_onward(
            state,
            pools,
            rewards,
            lp_balances,
            locked_shares,
            farm_balance,
            gov_staked_share,
            gov_staked_balance,
            (k + 1) as nat,
            n,
        );
    }
}

/// A reward withdrawal over several records of one depositor: the global
/// governance index is settled against `staked_share`, every record is paid out
/// in order, and the paid shares are taken off the strategy's totals.
pub open spec fn withdraw_flow_spec(
    state: GlobalState,
    pools: Seq<PoolInfo>,
    rewards: Seq<RewardInfo>,
    lp_balances: Seq<u128>,
    locked_shares: Seq<u128>,
    staked_share: int,
    staked_balance: int,
    farm_balance: int,
) -> Option<(GlobalState, Seq<PoolInfo>, Seq<RewardInfo>, Payout)> {
    match global_governance_spec(state, staked_share, false) {
        Some(s) => match payouts_spec(
            s,
            pools,
            rewards,
            lp_balances,
            locked_shares,
            farm_balance,
            staked_share,
            staked_balance,
            pools.len(),
        ) {
            Some((ps, rs, total)) => match state_withdraw_spec(
                s,
                total.governance_share as int,
                total.farm_share as int,
            ) {
                Some(s2) => Some((s2, ps, rs, total)),
                None => None,
            },
            None => None,
        },
        None => None,
    }
}

/// Withdraws the rewards of the records `rewards` (record `i` in pool `pools[i]`);
/// `staked_share` and `staked_balance` are the strategy's share and token balance
/// in the governance staking ledger, `farm_balance` its staked farm tokens.
/// Returns the updated pools and records (storage drops the empty ones) and the
/// total payout.
pub fn withdraw(
    state: &mut GlobalState,
    pools: &Vec<PoolInfo>,
    rewards: &Vec<RewardInfo>,
    lp_balances: &Vec<u128>,
    locked_shares: &Vec<u128>,
    staked_share: u128,
    staked_balance: u128,
    farm_balance: u128,
) -> (res: Result<(Vec<PoolInfo>, Vec<RewardInfo>, Payout), FarmError>)
    requires
        rewards@.len() == pools@.len(),
        lp_balances@.len() == pools@.len(),
        locked_shares@.len() == pools@.len(),
    ensures
        match withdraw_flow_spec(
            *old(state),
            pools@,
            rewards@,
            lp_balances@,
            locked_shares@,
            staked_share as int,
            staked_balance as int,
            farm_balance as int,
        ) {
            Some((s, ps, rs, total)) => res matches Ok((p, r, t)) && p@ == ps && r@ == rs && t
                == total && *final(state) == s,
            None => res == Err::<(Vec<PoolInfo>, Vec<RewardInfo>, Payout), FarmError>(
                FarmError::Arithmetic,
            ) && *final(state) == *old(state),
        },
{
    let mut s = *state;
    if deposit_spec_reward(&mut s, staked_share, false).is_err() {
        return Err(FarmError::Arithmetic);
    }
    let mut out_pools: Vec<PoolInfo> = Vec::new();
    let mut out_rewards: Vec<RewardInfo> = Vec::new();
    let mut total = Payout { governance_amount: 0, governance_share: 0, farm_amount: 0, farm_share: 0 };
    let n = pools.len();
    let mut i: usize = 0;
    while i < n
        invariant
            n == pools@.len(),
            rewards@.len() == n,
            lp_balances@.len() == n,
            locked_shares@.len() == n,
            0 <= i <= n,
            global_governance_spec(*old(state), staked_share as int, false) == Some(s),
            payouts_spec(
                s,
                pools@,
                rewards@,
                lp_balances@,
                locked_shares@,
                farm_balance as int,
                staked_share as int,
                staked_balance as int,
                i as nat,
            ) == Some((out_pools@, out_rewards@, total)),
            *state == *old(state),
        decreases n - i,
    {
        let mut p = pools[i];
        let mut r = rewards[i];
        let o = match withdraw_reward(
            &s,
            &mut p,
            &mut r,
            lp_balances[i],
            locked_shares[i],
            farm_balance,
            staked_share,
            staked_balance,
        ) {
            Ok(o) => o,
            Err(_) => {
                proof {
                lemma_payouts_fail_onward(
                    s,
                    pools@,
                    rewards@,
                    lp_balances@,
                    locked_shares@,
                    farm_balance as int,
                    staked_share as int,
                    staked_balance as int,
                    (i + 1) as nat,
                    n as nat,
                );
            }
                return Err(FarmError::Arithmetic);
            },
        };
        if total.governance_amount > u128::MAX - o.governance_amount || total.governance_share
            > u128::MAX - o.governance_share || total.farm_amount > u128::MAX - o.farm_amount
            || total.farm_share > u128::MAX - o.farm_share {
            proof {
            lemma_payouts_fail_onward(
                s,
                pools@,
                rewards@,
                lp_balances@,
                locked_shares@,
                farm_balance as int,
                staked_share as int,
                staked_balance as int,
                (i + 1) as nat,
                n as nat,
            );
        }
            return Err(FarmError::Arithmetic);
        }
        total =
        Payout {
            governance_amount: total.governance_amount + o.governance_amount,
            governance_share: total.governance_share + o.governance_share,
            farm_amount: total.farm_amount + o.farm_amount,
            farm_share: total.farm_share + o.farm_share,
        };
        out_pools.push(p);
        out_rewards.push(r);
        i = i + 1;
    }
    if withdraw_from_state(&mut s, total.governance_share, total.farm_share).is_err() {
        return Err(FarmError::Arithmetic);
    }
    *state = s;
    Ok((out_pools, out_rewards, total))
}

/// What a depositor's record is worth right now, as the reward query reports it.
#[derive(Clone, Copy, Debug, PartialEq, Eq, Structural)]
pub struct RewardView {
    /// The record's snapshots before this query settled it.
    pub farm_share_index: Decimal,
    pub auto_governance_share_index: Decimal,
    pub stake_governance_share_index: Decimal,
    /// Principal in both sub-positions, and in each.
    pub bond_amount: u128,
    pub auto_bond_amount: u128,
    pub stake_bond_amount: u128,
    pub farm_share: u128,
    pub auto_bond_share: u128,
    pub stake_bond_share: u128,
    pub governance_share: u128,
    /// Governance tokens that the claimable governance shares are worth.
    pub pending_governance_reward: u128,
    /// Farm tokens that the unsettled farm shares are worth.
    pub pending_farm_reward: u128,
    pub accum_governance_share: u128,
    pub locked_governance_share: u128,
    pub locked_governance_reward: u128,
}

/// The record settled against the pool (its governance index settled first),
/// without changing either, and valued: principal through the exchange rates,
/// shares through the staking balances. `locked_share` is the time-locked part of
/// the settled record's accumulated governance shares.
pub open spec fn view_spec(
    state: GlobalState,
    pool: PoolInfo,
    r: RewardInfo,
    lp_balance: int,
    locked_share: int,
    farm_balance: int,
    gov_staked_share: int,
    gov_staked_balance: int,
) -> Option<RewardView> {
    match pool_governance_spec(state.governance_share_index, pool, lp_balance) {
        Some(p) => match settle_spec(p, r) {
            Some(n) => match (
                user_auto_balance_of(p, lp_balance, n.auto_bond_share as int),
                user_stake_balance_of(p, n.stake_bond_share as int),
                governance_balance_of(n.governance_share as int, gov_staked_share, gov_staked_balance),
                farm_balance_of(n.farm_share as int, farm_balance, state.total_farm_share as int),
                governance_balance_of(locked_share, gov_staked_share, gov_staked_balance),
            ) {
                (Some(ua), Some(us), Some(pg), Some(pf), Some(lg)) => if ua + us <= u128::MAX {
                    Some(
                        RewardView {
                            farm_share_index: r.farm_share_index,
                            auto_governance_share_index: r.auto_governance_share_index,
                            stake_governance_share_index: r.stake_governance_share_index,
                            bond_amount: (ua + us) as u128,
                            auto_bond_amount: ua,
                            stake_bond_amount: us,
                            farm_share: n.farm_share,
                            auto_bond_share: n.auto_bond_share,
                            stake_bond_share: n.stake_bond_share,
                            governance_share: n.governance_share,
                            pending_governance_reward: pg,
                            pending_farm_reward: pf,
                            accum_governance_share: n.accum_governance_share,
                            locked_governance_share: locked_share as u128,
                            locked_governance_reward: lg,
                        },
                    )
                } else {
                    None
                },
                _ => None,
            },
            None => None,
        },
        None => None,
    }
}

/// Values one record for the reward query, leaving pool and record untouched;
/// the global index is expected settled in read-only mode beforehand.
pub fn reward_view(
    state: &GlobalState,
    pool_info: &PoolInfo,
    reward_info: &RewardInfo,
    lp_balance: u128,
    locked_share: u128,
    farm_balance: u128,
    gov_staked_share: u128,
    gov_staked_balance: u128,
) -> (res: Result<RewardView, FarmError>)
    ensures
        match view_spec(
            *state,
            *pool_info,
            *reward_info,
            lp_balance as int,
            locked_share as int,
            farm_balance as int,
            gov_staked_share as int,
            gov_staked_balance as int,
        ) {
            Some(v) => res == Ok::<RewardView, FarmError>(v),
            None => res == Err::<RewardView, FarmError>(FarmError::Arithmetic),
        },
{
    let mut p = *pool_info;
    let mut n = *reward_info;
    if spec_reward_to_pool(state, &mut p, lp_balance).is_err() {
        return Err(FarmError::Arithmetic);
    }
    if before_share_change(&p, &mut n).is_err() {
        return Err(FarmError::Arithmetic);
    }
    let ua = p.calc_user_auto_balance(lp_balance, n.auto_bond_share);
    let us = p.calc_user_stake_balance(n.stake_bond_share);
    let pg = calc_spec_balance(n.governance_share, gov_staked_share, gov_staked_balance);
    let pf = calc_farm_balance(n.farm_share, farm_balance, state.total_farm_share);
    let lg = calc_spec_balance(locked_share, gov_staked_share, gov_staked_balance);
    match (ua, us, pg, pf, lg) {
        (Some(ua), Some(us), Some(pg), Some(pf), Some(lg)) => {
            if ua > u128::MAX - us {
                return Err(FarmError::Arithmetic);
            }
            Ok(
                RewardView {
                    farm_share_index: reward_info.farm_share_index,
                    auto_governance_share_index: reward_info.auto_governance_share_index,
                    stake_governance_share_index: reward_info.stake_governance_share_index,
                    bond_amount: ua + us,
                    auto_bond_amount: ua,
                    stake_bond_amount: us,
                    farm_share: n.farm_share,
                    auto_bond_share: n.auto_bond_share,
                    stake_bond_share: n.stake_bond_share,
                    governance_share: n.governance_share,
                    pending_governance_reward: pg,
                    pending_farm_reward: pf,
                    accum_governance_share: n.accum_governance_share,
                    locked_governance_share: locked_share,
                    locked_governance_reward: lg,
                },
            )
        },
        _ => Err(FarmError::Arithmetic),
    }
}

/// A record as it stands once the pool's governance index and the record itself
/// are settled, leaving pool and record untouched.
pub open spec fn settled_record_spec(
    state: GlobalState,
    pool: PoolInfo,
    r: RewardInfo,
    lp_balance: int,
) -> Option<RewardInfo> {
    match pool_governance_spec(state.governance_share_index, pool, lp_balance) {
        Some(p) => settle_spec(p, r),
        None => None,
    }
}

pub fn settled_record(
    state: &GlobalState,
    pool_info: &PoolInfo,
    reward_info: &RewardInfo,
    lp_balance: u128,
) -> (res: Result<RewardInfo, FarmError>)
    ensures
        match settled_record_spec(*state, *pool_info, *reward_info, lp_balance as int) {
            Some(n) => res == Ok::<RewardInfo, FarmError>(n),
            None => res == Err::<RewardInfo, FarmError>(FarmError::Arithmetic),
        },
{
    let mut p = *pool_info;
    let mut n = *reward_info;
    if spec_reward_to_pool(state, &mut p, lp_balance).is_err() {
        return Err(FarmError::Arithmetic);
    }
    if before_share_change(&p, &mut n).is_err() {
        return Err(FarmError::Arithmetic);
    }
    Ok(n)
}

} // verus!
