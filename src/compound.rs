//! Decisions of one harvest-and-reinvest cycle: the split of a harvest into
//! commission, auto-compound and stake parts, the sizing of the reinvestment, the
//! split of the commission among its three recipients, and the ordered list of
//! external actions that the cycle emits.

use crate::error::FarmError;
use crate::ledger::{deposit_farm_share, farm_deposit_spec, GlobalState, PoolInfo};
use crate::math::{checked_multiply_ratio, ratio, ratio_fits, scale, Decimal, DECIMAL_FRACTIONAL};
use crate::swap::{compute_provide_after_swap, deduct_tax, provide_after_swap_ok, tax_on};
use vstd::prelude::*;

verus! {

/// A harvest split into the protocol commission, the part reinvested as more
/// principal (auto-compound) and the part staked for the fixed-stake depositors.
#[derive(Clone, Copy, Debug, PartialEq, Eq, Structural)]
pub struct RewardSplit {
    pub commission: u128,
    pub compound: u128,
    pub stake: u128,
}

/// The commission is `floor(reward · total_fee)`; the rest is split by the current
/// share of auto-compound principal (`lp_balance − total_stake_bond_amount`) in the
/// bonded principal `lp_balance`, the auto part rounded down. An empty harvest or
/// an empty farm position splits into zeros.
pub open spec fn split_spec(
    reward: int,
    lp_balance: int,
    total_stake_bond_amount: int,
    total_fee: Decimal,
) -> Option<RewardSplit> {
    if reward == 0 || lp_balance == 0 {
        Some(RewardSplit { commission: 0, compound: 0, stake: 0 })
    } else {
        let commission = scale(reward, total_fee);
        let net = reward - commission;
        let auto_amount = lp_balance - total_stake_bond_amount;
        let compound = ratio(net, auto_amount, lp_balance);
        let stake = net - compound;
        if commission <= u128::MAX && net >= 0 && auto_amount >= 0 && ratio_fits(
            net,
            auto_amount,
            lp_balance,
        ) && stake >= 0 {
            Some(
                RewardSplit {
                    commission: commission as u128,
                    compound: compound as u128,
                    stake: stake as u128,
                },
            )
        } else {
            None
        }
    }
}

/// Splits a harvest of `reward` farm tokens; `lp_balance` is the principal the
/// strategy has bonded in the farm.
pub fn split_reward(
    reward: u128,
    lp_balance: u128,
    total_stake_bond_amount: u128,
    total_fee: Decimal,
) -> (r: Result<RewardSplit, FarmError>)
    ensures
        match split_spec(reward as int, lp_balance as int, total_stake_bond_amount as int, total_fee) {
            Some(s) => r == Ok::<RewardSplit, FarmError>(s),
            None => r == Err::<RewardSplit, FarmError>(FarmError::Arithmetic),
        },
        r is Ok <==> (reward == 0 || lp_balance == 0 || (scale(reward as int, total_fee) <= reward
            && total_stake_bond_amount <= lp_balance)),
{
    proof {
        if reward != 0 && lp_balance != 0 && scale(reward as int, total_fee) <= reward
            && total_stake_bond_amount <= lp_balance {
            assert(scale(reward as int, total_fee) >= 0) by (nonlinear_arith)
                requires
                    reward >= 0,
                    total_fee.atomics >= 0,
                    scale(reward as int, total_fee) == reward * total_fee.atomics
                        / (DECIMAL_FRACTIONAL as int),
                    DECIMAL_FRACTIONAL > 0,
            ;
            lemma_split_succeeds(
                reward as int,
                lp_balance as int,
                total_stake_bond_amount as int,
                total_fee,
            );
        }
    }
    if reward == 0 || lp_balance == 0 {
        return Ok(RewardSplit { commission: 0, compound: 0, stake: 0 });
    }
    let commission = match total_fee.checked_mul_amount(reward) {
        Some(v) => v,
        None => return Err(FarmError::Arithmetic),
    };
    if commission > reward || lp_balance < total_stake_bond_amount {
        return Err(FarmError::Arithmetic);
    }
    let net = reward - commission;
    let compound = match checked_multiply_ratio(net, lp_balance - total_stake_bond_amount, lp_balance) {
        Some(v) => v,
        None => return Err(FarmError::Arithmetic),
    };
    if compound > net {
        return Err(FarmError::Arithmetic);
    }
    Ok(RewardSplit { commission, compound, stake: net - compound })
}

/// The sum of the three fee rates, `None` where it does not fit.
pub open spec fn total_fee_spec(community: Decimal, platform: Decimal, controller: Decimal) -> Option<
    Decimal,
> {
    let t = community.atomics + platform.atomics + controller.atomics;
    if t <= u128::MAX {
        Some(Decimal { atomics: t as u128 })
    } else {
        None
    }
}

pub fn total_fee(community: Decimal, platform: Decimal, controller: Decimal) -> (r: Option<Decimal>)
    ensures
        r == total_fee_spec(community, platform, controller),
{
    match community.checked_add(platform) {
        Some(s) => s.checked_add(controller),
        None => None,
    }
}

/// A commission balance split among the three fee recipients.
#[derive(Clone, Copy, Debug, PartialEq, Eq, Structural)]
pub struct FeeSplit {
    pub community: u128,
    pub platform: u128,
    pub controller: u128,
}

/// Community and platform get `floor(balance · w / W)`, with each weight `w` the
/// recipient's rate in thousandths (`floor(1000 · rate)`) and `W` that of the total
/// rate; the controller gets the exact remainder.
pub open spec fn fee_split_spec(
    balance: int,
    community_fee: Decimal,
    platform_fee: Decimal,
    controller_fee: Decimal,
) -> Option<FeeSplit> {
    match total_fee_spec(community_fee, platform_fee, controller_fee) {
        Some(t) => {
            let w_total = scale(1000, t);
            let w_community = scale(1000, community_fee);
            let w_platform = scale(1000, platform_fee);
            let community = ratio(balance, w_community, w_total);
            let platform = ratio(balance, w_platform, w_total);
            if ratio_fits(balance, w_community, w_total) && ratio_fits(
                balance,
                w_platform,
                w_total,
            ) && community + platform <= balance {
                Some(
                    FeeSplit {
                        community: community as u128,
                        platform: platform as u128,
                        controller: (balance - community - platform) as u128,
                    },
                )
            } else {
                None
            }
        },
        None => None,
    }
}

/// Splits the commission balance among community, platform and controller, in
/// that order, the controller receiving the exact remainder.
pub fn split_fee(
    balance: u128,
    community_fee: Decimal,
    platform_fee: Decimal,
    controller_fee: Decimal,
) -> (r: Result<FeeSplit, FarmError>)
    ensures
        match fee_split_spec(balance as int, community_fee, platform_fee, controller_fee) {
            Some(s) => r == Ok::<FeeSplit, FarmError>(s),
            None => r == Err::<FeeSplit, FarmError>(FarmError::Arithmetic),
        },
        r is Ok <==> (total_fee_spec(community_fee, platform_fee, controller_fee) matches Some(t)
            && scale(1000, t) > 0),
{
    proof {
        if total_fee_spec(community_fee, platform_fee, controller_fee) matches Some(t) && scale(
            1000,
            t,
        ) > 0 {
            lemma_fee_split_succeeds(balance as int, community_fee, platform_fee, controller_fee);
        }
    }
    let t = match total_fee(community_fee, platform_fee, controller_fee) {
        Some(t) => t,
        None => return Err(FarmError::Arithmetic),
    };
    let w_total = t.checked_mul_amount(1000);
    let w_community = community_fee.checked_mul_amount(1000);
    let w_platform = platform_fee.checked_mul_amount(1000);
    proof {
        assert(scale(1000, t) <= u128::MAX) by (nonlinear_arith)
            requires
                t.atomics <= u128::MAX,
                scale(1000, t) == 1000 * t.atomics / 1_000_000_000_000_000_000int,
        ;
        assert(scale(1000, community_fee) <= u128::MAX) by (nonlinear_arith)
            requires
                community_fee.atomics <= u128::MAX,
                scale(1000, community_fee) == 1000 * community_fee.atomics
                    / 1_000_000_000_000_000_000int,
        ;
        assert(scale(1000, platform_fee) <= u128::MAX) by (nonlinear_arith)
            requires
                platform_fee.atomics <= u128::MAX,
                scale(1000, platform_fee) == 1000 * platform_fee.atomics
                    / 1_000_000_000_000_000_000int,
        ;
    }
    let (w_total, w_community, w_platform) = (
        w_total.unwrap(),
        w_community.unwrap(),
        w_platform.unwrap(),
    );
    let community = match checked_multiply_ratio(balance, w_community, w_total) {
        Some(v) => v,
        None => return Err(FarmError::Arithmetic),
    };
    let platform = match checked_multiply_ratio(balance, w_platform, w_total) {
        Some(v) => v,
        None => return Err(FarmError::Arithmetic),
    };
    if community > balance || platform > balance - community {
        return Err(FarmError::Arithmetic);
    }
    Ok(FeeSplit { community, platform, controller: balance - community - platform })
}

/// What the cycle reinvests and swaps: the tokens held plus the auto-compound
/// part are reinvested, half of them (rounded down) is swapped for the paired
/// asset, and the commission is swapped along with it.
#[derive(Clone, Copy, Debug, PartialEq, Eq, Structural)]
pub struct ReinvestPlan {
    pub reinvest_amount: u128,
    pub swap_amount: u128,
    pub total_swap_amount: u128,
}

pub open spec fn reinvest_spec(held: int, compound: int, commission: int) -> Option<ReinvestPlan> {
    let reinvest = held + compound;
    let swap = reinvest / 2;
    if reinvest <= u128::MAX && commission + swap <= u128::MAX {
        Some(
            ReinvestPlan {
                reinvest_amount: reinvest as u128,
                swap_amount: swap as u128,
                total_swap_amount: (commission + swap) as u128,
            },
        )
    } else {
        None
    }
}

pub fn plan_reinvest(held: u128, compound: u128, commission: u128) -> (r: Result<
    ReinvestPlan,
    FarmError,
>)
    ensures
        match reinvest_spec(held as int, compound as int, commission as int) {
            Some(p) => r == Ok::<ReinvestPlan, FarmError>(p),
            None => r == Err::<ReinvestPlan, FarmError>(FarmError::Arithmetic),
        },
{
    if held > u128::MAX - compound {
        return Err(FarmError::Arithmetic);
    }
    let reinvest = held + compound;
    let swap = reinvest / 2;
    if commission > u128::MAX - swap {
        return Err(FarmError::Arithmetic);
    }
    Ok(ReinvestPlan { reinvest_amount: reinvest, swap_amount: swap, total_swap_amount: commission + swap })
}

/// The paired asset that a swap of `total_swap` tokens returned, split between
/// the commission (`floor(returned · commission / total_swap)`) and the
/// reinvestment (the rest).
pub open spec fn return_split_spec(returned: int, commission: int, total_swap: int) -> Option<
    (u128, u128),
> {
    let c = if total_swap == 0 {
        0
    } else {
        ratio(returned, commission, total_swap)
    };
    if (total_swap != 0 ==> ratio_fits(returned, commission, total_swap)) && c <= returned {
        Some((c as u128, (returned - c) as u128))
    } else {
        None
    }
}

/// Returns `(commission part, reinvestment part)` of a swap's output.
pub fn split_swap_return(returned: u128, commission: u128, total_swap: u128) -> (r: Result<
    (u128, u128),
    FarmError,
>)
    ensures
        match return_split_spec(returned as int, commission as int, total_swap as int) {
            Some(p) => r == Ok::<(u128, u128), FarmError>(p),
            None => r == Err::<(u128, u128), FarmError>(FarmError::Arithmetic),
        },
{
    let c = if total_swap == 0 {
        0
    } else {
        match checked_multiply_ratio(returned, commission, total_swap) {
            Some(v) => v,
            None => return Err(FarmError::Arithmetic),
        }
    };
    if c > returned {
        return Err(FarmError::Arithmetic);
    }
    Ok((c, returned - c))
}

/// Adds the net commission routed to the treasury to the strategy's lifetime earning.
pub fn record_earning(state: &mut GlobalState, net_commission: u128) -> (res: Result<(), FarmError>)
    ensures
        old(state).earning + net_commission <= u128::MAX ==> res == Ok::<(), FarmError>(())
            && *final(state) == (GlobalState { earning: (old(state).earning + net_commission) as u128, ..*old(state) }),
        old(state).earning + net_commission > u128::MAX ==> res == Err::<(), FarmError>(
            FarmError::Arithmetic,
        ) && *final(state) == *old(state),
{
    if state.earning > u128::MAX - net_commission {
        return Err(FarmError::Arithmetic);
    }
    state.earning = state.earning + net_commission;
    Ok(())
}

/// An external action of a compound cycle, executed in order by the dispatcher.
#[derive(Clone, Copy, Debug, PartialEq, Eq, Structural)]
pub enum CompoundAction {
    /// Claim the pending rewards from the farm.
    ClaimRewards,
    /// Swap this many reward tokens for the paired asset.
    SwapReward { amount: u128 },
    /// Deposit this much commission into the yield-bearing wrapper.
    DepositCommission { amount: u128 },
    /// Mint the protocol token's commission share.
    MintGovernance,
    /// Route the wrapped commission to the three fee recipients.
    SendFee,
    /// Stake this many reward tokens for the fixed-stake depositors.
    StakeReward { amount: u128 },
    /// Allow the pair to take this many reward tokens.
    IncreaseAllowance { amount: u128 },
    /// Provide these amounts of liquidity.
    ProvideLiquidity { token_amount: u128, base_amount: u128 },
    /// Re-stake the LP tokens that came back.
    StakeLp,
}

/// The cycle's actions in their required order; each but the claim is left out
/// when its amount is zero.
pub open spec fn actions_spec(
    total_swap: u128,
    commission: u128,
    net_commission: u128,
    stake: u128,
    provide_token: u128,
    provide_base: u128,
) -> Seq<CompoundAction> {
    seq![CompoundAction::ClaimRewards] + (if total_swap != 0 {
        seq![CompoundAction::SwapReward { amount: total_swap }]
    } else {
        Seq::empty()
    }) + (if commission != 0 {
        seq![
            CompoundAction::DepositCommission { amount: net_commission },
            CompoundAction::MintGovernance,
            CompoundAction::SendFee,
        ]
    } else {
        Seq::empty()
    }) + (if stake != 0 {
        seq![CompoundAction::StakeReward { amount: stake }]
    } else {
        Seq::empty()
    }) + (if provide_token != 0 {
        seq![
            CompoundAction::IncreaseAllowance { amount: provide_token },
            CompoundAction::ProvideLiquidity { token_amount: provide_token, base_amount: provide_base },
            CompoundAction::StakeLp,
        ]
    } else {
        Seq::empty()
    })
}

/// Emits the cycle's actions: claim; swap of the commission and the reinvested
/// half; commission deposit, mint and fee routing (`commission` is the
/// commission's share of the swap output, `net_commission` what is left of it
/// after tax); stake of the stake part; allowance, liquidity and LP re-stake.
pub fn compound_actions(
    total_swap: u128,
    commission: u128,
    net_commission: u128,
    stake: u128,
    provide_token: u128,
    provide_base: u128,
) -> (r: Vec<CompoundAction>)
    ensures
        r@ == actions_spec(total_swap, commission, net_commission, stake, provide_token, provide_base),
{
    let mut actions: Vec<CompoundAction> = Vec::new();
    actions.push(CompoundAction::ClaimRewards);
    let ghost a0 = actions@;
    if total_swap != 0 {
        actions.push(CompoundAction::SwapReward { amount: total_swap });
    }
    let ghost a1 = actions@;
    if commission != 0 {
        actions.push(CompoundAction::DepositCommission { amount: net_commission });
        actions.push(CompoundAction::MintGovernance);
        actions.push(CompoundAction::SendFee);
    }
    let ghost a2 = actions@;
    if stake != 0 {
        actions.push(CompoundAction::StakeReward { amount: stake });
    }
    let ghost a3 = actions@;
    if provide_token != 0 {
        actions.push(CompoundAction::IncreaseAllowance { amount: provide_token });
        actions.push(
            CompoundAction::ProvideLiquidity { token_amount: provide_token, base_amount: provide_base },
        );
        actions.push(CompoundAction::StakeLp);
    }
    assert(actions@ =~= actions_spec(
        total_swap,
        commission,
        net_commission,
        stake,
        provide_token,
        provide_base,
    ));
    actions
}

proof fn lemma_floor_sum(x: int, y: int, d: int)
    requires
        x >= 0,
        y >= 0,
        d > 0,
    ensures
        x / d + y / d <= (x + y) / d,
{
    vstd::arithmetic::div_mod::lemma_fundamental_div_mod(x, d);
    vstd::arithmetic::div_mod::lemma_fundamental_div_mod(y, d);
    vstd::arithmetic::div_mod::lemma_fundamental_div_mod(x + y, d);
    assert(x / d + y / d <= (x + y) / d) by (nonlinear_arith)
        requires
            x == d * (x / d) + x % d,
            y == d * (y / d) + y % d,
            x + y == d * ((x + y) / d) + (x + y) % d,
            0 <= x % d < d,
            0 <= y % d < d,
            0 <= (x + y) % d < d,
            d > 0,
    ;
}

/// The fee split succeeds whenever the total rate fits and is worth at least a
/// thousandth: the two rounded-down shares never exceed the balance.
proof fn lemma_fee_split_succeeds(
    balance: int,
    community_fee: Decimal,
    platform_fee: Decimal,
    controller_fee: Decimal,
)
    requires
        0 <= balance <= u128::MAX,
        total_fee_spec(community_fee, platform_fee, controller_fee) matches Some(t) && scale(1000, t)
            > 0,
    ensures
        fee_split_spec(balance, community_fee, platform_fee, controller_fee) is Some,
{
    let t = total_fee_spec(community_fee, platform_fee, controller_fee).unwrap();
    let f = DECIMAL_FRACTIONAL as int;
    let (xc, xp, xk) = (
        1000 * community_fee.atomics,
        1000 * platform_fee.atomics,
        1000 * controller_fee.atomics,
    );
    lemma_floor_sum(xc, xp, f);
    vstd::arithmetic::div_mod::lemma_div_is_ordered(xc + xp, xc + xp + xk, f);
    let wt = scale(1000, t);
    let wc = scale(1000, community_fee);
    let wp = scale(1000, platform_fee);
    assert(wc + wp <= wt);
    assert(wc >= 0 && wp >= 0) by {
        vstd::arithmetic::div_mod::lemma_div_pos_is_pos(xc, f);
        vstd::arithmetic::div_mod::lemma_div_pos_is_pos(xp, f);
    }
    assert(balance * wc >= 0 && balance * wp >= 0) by (nonlinear_arith)
        requires
            balance >= 0,
            wc >= 0,
            wp >= 0,
    ;
    lemma_floor_sum(balance * wc, balance * wp, wt);
    assert(balance * wc + balance * wp <= balance * wt) by (nonlinear_arith)
        requires
            balance >= 0,
            wc + wp <= wt,
    ;
    vstd::arithmetic::div_mod::lemma_multiply_divide_le(balance * wc + balance * wp, wt, balance);
    assert(balance * wc + balance * wp == balance * (wc + wp)) by (nonlinear_arith);
    vstd::arithmetic::div_mod::lemma_div_pos_is_pos(balance * wc, wt);
    vstd::arithmetic::div_mod::lemma_div_pos_is_pos(balance * wp, wt);
}

/// The harvest split succeeds whenever the commission does not exceed the reward
/// and the stake principal does not exceed the bonded principal.
proof fn lemma_split_succeeds(
    reward: int,
    lp_balance: int,
    total_stake_bond_amount: int,
    total_fee: Decimal,
)
    requires
        0 <= reward <= u128::MAX,
        0 < lp_balance,
        0 <= total_stake_bond_amount <= lp_balance,
        0 <= scale(reward, total_fee) <= reward,
    ensures
        split_spec(reward, lp_balance, total_stake_bond_amount, total_fee) is Some,
{
    let net = reward - scale(reward, total_fee);
    let auto_amount = lp_balance - total_stake_bond_amount;
    assert(net * auto_amount <= lp_balance * net && net * auto_amount >= 0) by (nonlinear_arith)
        requires
            net >= 0,
            0 <= auto_amount <= lp_balance,
    ;
    vstd::arithmetic::div_mod::lemma_multiply_divide_le(net * auto_amount, lp_balance, net);
    vstd::arithmetic::div_mod::lemma_div_pos_is_pos(net * auto_amount, lp_balance);
}

/// Whether `sender` may run a compound cycle: any sender while no controller is
/// configured (an empty address), otherwise only the controller.
pub open spec fn authorized(controller: Seq<u8>, sender: Seq<u8>) -> bool {
    controller.len() == 0 || controller == sender
}

pub fn is_authorized(controller: &[u8], sender: &[u8]) -> (r: bool)
    ensures
        r == authorized(controller@, sender@),
{
    if controller.len() == 0 {
        return true;
    }
    if controller.len() != sender.len() {
        return false;
    }
    let mut i: usize = 0;
    while i < controller.len()
        invariant
            controller@.len() == sender@.len(),
            0 <= i <= controller@.len(),
            forall|j: int| 0 <= j < i ==> controller@[j] == sender@[j],
        decreases controller@.len() - i,
    {
        if controller[i] != sender[i] {
            return false;
        }
        i = i + 1;
    }
    assert(controller@ =~= sender@);
    true
}

/// Of the half set aside for swapping, what the paired asset provided actually
/// buys (the reverse swap's return plus commission) is provided, and the rest is
/// carried to the next cycle as reinvest allowance.
pub open spec fn allowance_spec(swap_amount: int, provide_return: int, provide_commission: int) -> Option<
    (u128, u128),
> {
    let provide = provide_return + provide_commission;
    if provide <= u128::MAX && provide <= swap_amount {
        Some((provide as u128, (swap_amount - provide) as u128))
    } else {
        None
    }
}

/// Returns `(amount provided, allowance carried)`.
pub fn carry_reinvest_allowance(swap_amount: u128, provide_return: u128, provide_commission: u128) -> (r:
    Result<(u128, u128), FarmError>)
    ensures
        match allowance_spec(swap_amount as int, provide_return as int, provide_commission as int) {
            Some(p) => r == Ok::<(u128, u128), FarmError>(p),
            None => r == Err::<(u128, u128), FarmError>(FarmError::Arithmetic),
        },
{
    if provide_return > u128::MAX - provide_commission {
        return Err(FarmError::Arithmetic);
    }
    let provide = provide_return + provide_commission;
    if provide > swap_amount {
        return Err(FarmError::Arithmetic);
    }
    Ok((provide, swap_amount - provide))
}

/// What the first half of a cycle decided: the harvest split and the sizing of
/// the swap.
#[derive(Clone, Copy, Debug, PartialEq, Eq, Structural)]
pub struct CompoundPlan {
    pub commission: u128,
    pub compound: u128,
    pub stake: u128,
    pub reinvest_amount: u128,
    pub total_swap_amount: u128,
}

/// First half of a cycle, for an authorized sender: the harvest of `reward` is
/// split at the total of the three fee rates, the stake part is registered as
/// farm shares (`staked_farm_balance` backing the outstanding ones), and the
/// held tokens plus the auto-compound part are sized for reinvestment.
pub open spec fn plan_spec(
    state: GlobalState,
    pool: PoolInfo,
    fees: (Decimal, Decimal, Decimal),
    reward: int,
    lp_balance: int,
    held: int,
    staked_farm_balance: int,
) -> Option<(GlobalState, PoolInfo, CompoundPlan)> {
    match total_fee_spec(fees.0, fees.1, fees.2) {
        Some(t) => match split_spec(reward, lp_balance, pool.total_stake_bond_amount as int, t) {
            Some(sp) => match farm_deposit_spec(state, pool, sp.stake as int, staked_farm_balance) {
                Some((s, p)) => match reinvest_spec(held, sp.compound as int, sp.commission as int) {
                    Some(rp) => Some(
                        (
                            s,
                            p,
                            CompoundPlan {
                                commission: sp.commission,
                                compound: sp.compound,
                                stake: sp.stake,
                                reinvest_amount: rp.reinvest_amount,
                                total_swap_amount: rp.total_swap_amount,
                            },
                        ),
                    ),
                    None => None,
                },
                None => None,
            },
            None => None,
        },
        None => None,
    }
}

/// Runs the first half of a compound cycle: `reward` and `lp_balance` are the
/// farm's pending reward and the strategy's bonded principal, `held` the reward
/// tokens the strategy already holds. An unauthorized sender is refused; any
/// failure leaves state and pool as they were.
pub fn plan_compound(
    state: &mut GlobalState,
    pool: &mut PoolInfo,
    controller: &[u8],
    sender: &[u8],
    fees: (Decimal, Decimal, Decimal),
    reward: u128,
    lp_balance: u128,
    held: u128,
    staked_farm_balance: u128,
) -> (r: Result<CompoundPlan, FarmError>)
    ensures
        !authorized(controller@, sender@) ==> r == Err::<CompoundPlan, FarmError>(
            FarmError::Unauthorized,
        ) && *final(state) == *old(state) && *final(pool) == *old(pool),
        authorized(controller@, sender@) ==> match plan_spec(
            *old(state),
            *old(pool),
            fees,
            reward as int,
            lp_balance as int,
            held as int,
            staked_farm_balance as int,
        ) {
            Some((s, p, c)) => r == Ok::<CompoundPlan, FarmError>(c) && *final(state) == s
                && *final(pool) == p,
            None => r == Err::<CompoundPlan, FarmError>(FarmError::Arithmetic) && *final(state)
                == *old(state) && *final(pool) == *old(pool),
        },
{
    if !is_authorized(controller, sender) {
        return Err(FarmError::Unauthorized);
    }
    let t = match total_fee(fees.0, fees.1, fees.2) {
        Some(t) => t,
        None => return Err(FarmError::Arithmetic),
    };
    let sp = match split_reward(reward, lp_balance, pool.total_stake_bond_amount, t) {
        Ok(sp) => sp,
        Err(_) => return Err(FarmError::Arithmetic),
    };
    let mut s = *state;
    let mut p = *pool;
    if deposit_farm_share(&mut s, &mut p, sp.stake, staked_farm_balance).is_err() {
        return Err(FarmError::Arithmetic);
    }
    let rp = match plan_reinvest(held, sp.compound, sp.commission) {
        Ok(rp) => rp,
        Err(_) => return Err(FarmError::Arithmetic),
    };
    *state = s;
    *pool = p;
    Ok(
        CompoundPlan {
            commission: sp.commission,
            compound: sp.compound,
            stake: sp.stake,
            reinvest_amount: rp.reinvest_amount,
            total_swap_amount: rp.total_swap_amount,
        },
    )
}

/// `amount` after the transfer tax; nothing is taxed on nothing.
pub open spec fn taxed(amount: int, rate: Decimal, cap: int) -> Option<u128> {
    if amount == 0 {
        Some(0u128)
    } else if DECIMAL_FRACTIONAL + rate.atomics <= u128::MAX {
        Some((amount - tax_on(amount, rate, cap)) as u128)
    } else {
        None
    }
}

fn taxed_amount(amount: u128, rate: Decimal, cap: u128) -> (r: Option<u128>)
    ensures
        r == taxed(amount as int, rate, cap as int),
{
    if amount == 0 {
        return Some(0);
    }
    match deduct_tax(amount, rate, cap) {
        Ok(v) => Some(v),
        Err(_) => None,
    }
}

/// Second half of a cycle, once the swap of `plan.total_swap_amount` reward
/// tokens was simulated to return `returned` of the paired asset (ignored when
/// nothing is swapped). The taxed return is split between commission and
/// reinvestment; the reward tokens to provide beside the taxed reinvestment are
/// priced in the pool moved by the swap (depths `token_depth` of the reward
/// token and `base_depth` of the paired asset), and nothing is provided without
/// reinvestment; the taxed commission is added to the lifetime earning; and the
/// actions are listed in their required order.
pub open spec fn finish_spec(
    state: GlobalState,
    plan: CompoundPlan,
    returned: int,
    tax_rate: Decimal,
    tax_cap: int,
    token_depth: int,
    base_depth: int,
) -> Option<(GlobalState, Seq<CompoundAction>)> {
    let ret = if plan.total_swap_amount == 0 {
        0
    } else {
        returned
    };
    match taxed(ret, tax_rate, tax_cap) {
        Some(ret_net) => match return_split_spec(
            ret_net as int,
            plan.commission as int,
            plan.total_swap_amount as int,
        ) {
            Some((commission, reinvest)) => match taxed(reinvest as int, tax_rate, tax_cap) {
                Some(net_reinvest) => {
                    let provide = if net_reinvest == 0 {
                        Some(0u128)
                    } else if provide_after_swap_ok(
                        token_depth,
                        base_depth,
                        plan.total_swap_amount as int,
                        ret,
                        net_reinvest as int,
                    ) {
                        Some(
                            ratio(
                                net_reinvest as int,
                                token_depth + plan.total_swap_amount,
                                base_depth - ret,
                            ) as u128,
                        )
                    } else {
                        None
                    };
                    let net_commission = if commission == 0 {
                        Some(0u128)
                    } else {
                        taxed(commission as int, tax_rate, tax_cap)
                    };
                    match (provide, net_commission) {
                        (Some(pt), Some(nc)) => if state.earning + nc <= u128::MAX {
                            Some(
                                (
                                    GlobalState {
                                        earning: (state.earning + nc) as u128,
                                        ..state
                                    },
                                    actions_spec(
                                        plan.total_swap_amount,
                                        commission,
                                        nc,
                                        plan.stake,
                                        pt,
                                        net_reinvest,
                                    ),
                                ),
                            )
                        } else {
                            None
                        },
                        _ => None,
                    }
                },
                None => None,
            },
            None => None,
        },
        None => None,
    }
}

/// Runs the second half of a compound cycle; any failure leaves the state as it
/// was. A cycle that swaps and stakes nothing emits the claim alone and changes
/// nothing, whatever the pool's depths.
pub fn finish_compound(
    state: &mut GlobalState,
    plan: CompoundPlan,
    returned: u128,
    tax_rate: Decimal,
    tax_cap: u128,
    token_depth: u128,
    base_depth: u128,
) -> (r: Result<Vec<CompoundAction>, FarmError>)
    ensures
        match finish_spec(
            *old(state),
            plan,
            returned as int,
            tax_rate,
            tax_cap as int,
            token_depth as int,
            base_depth as int,
        ) {
            Some((s, a)) => r matches Ok(v) && v@ == a && *final(state) == s,
            None => r == Err::<Vec<CompoundAction>, FarmError>(FarmError::Arithmetic)
                && *final(state) == *old(state),
        },
        plan.total_swap_amount == 0 && plan.stake == 0 ==> (r matches Ok(v) && v@ == seq![
            CompoundAction::ClaimRewards,
        ]) && *final(state) == *old(state),
{
    let ret = if plan.total_swap_amount == 0 {
        0
    } else {
        returned
    };
    let ret_net = match taxed_amount(ret, tax_rate, tax_cap) {
        Some(v) => v,
        None => return Err(FarmError::Arithmetic),
    };
    let (commission, reinvest) = match split_swap_return(
        ret_net,
        plan.commission,
        plan.total_swap_amount,
    ) {
        Ok(x) => x,
        Err(_) => return Err(FarmError::Arithmetic),
    };
    let net_reinvest = match taxed_amount(reinvest, tax_rate, tax_cap) {
        Some(v) => v,
        None => return Err(FarmError::Arithmetic),
    };
    let provide = if net_reinvest == 0 {
        0
    } else {
        match compute_provide_after_swap(
            token_depth,
            base_depth,
            plan.total_swap_amount,
            ret,
            net_reinvest,
        ) {
            Ok(v) => v,
            Err(_) => return Err(FarmError::Arithmetic),
        }
    };
    let net_commission = if commission == 0 {
        0
    } else {
        match taxed_amount(commission, tax_rate, tax_cap) {
            Some(v) => v,
            None => return Err(FarmError::Arithmetic),
        }
    };
    if record_earning(state, net_commission).is_err() {
        return Err(FarmError::Arithmetic);
    }
    let actions = compound_actions(
        plan.total_swap_amount,
        commission,
        net_commission,
        plan.stake,
        provide,
        net_reinvest,
    );
    proof {
        if plan.total_swap_amount == 0 && plan.stake == 0 {
            assert(actions@ =~= seq![CompoundAction::ClaimRewards]);
        }
    }
    Ok(actions)
}

} // verus!
