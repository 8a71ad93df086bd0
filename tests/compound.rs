use spectrum_core::compound::{
    carry_reinvest_allowance, compound_actions, is_authorized, plan_reinvest, record_earning,
    finish_compound, plan_compound, split_fee, split_reward, split_swap_return, total_fee,
    CompoundAction, CompoundPlan, FeeSplit, ReinvestPlan, RewardSplit,
};
use spectrum_core::error::FarmError;
use spectrum_core::ledger::{deposit_farm_share, GlobalState, PoolInfo};
use spectrum_core::math::Decimal;

#[test]
fn harvest_splits_into_commission_compound_and_stake() {
    let s = split_reward(1000, 10000, 4000, Decimal::percent(10)).unwrap();
    assert_eq!(s, RewardSplit { commission: 100, compound: 540, stake: 360 });
    assert_eq!(s.commission + s.compound + s.stake, 1000);
}

#[test]
fn empty_harvest_splits_into_zeros() {
    let zero = RewardSplit { commission: 0, compound: 0, stake: 0 };
    assert_eq!(split_reward(0, 10000, 4000, Decimal::percent(10)), Ok(zero));
    assert_eq!(split_reward(1000, 0, 0, Decimal::percent(10)), Ok(zero));
}

#[test]
fn stake_principal_above_bonded_principal_is_an_arithmetic_error() {
    assert_eq!(split_reward(1000, 100, 200, Decimal::zero()), Err(FarmError::Arithmetic));
}

#[test]
fn fee_split_has_no_leak() {
    let f = split_fee(1000, Decimal::percent(3), Decimal::percent(2), Decimal::percent(1)).unwrap();
    assert_eq!(f, FeeSplit { community: 500, platform: 333, controller: 167 });
    assert_eq!(f.community + f.platform + f.controller, 1000);
    let g = split_fee(999_999, Decimal::percent(1), Decimal::percent(1), Decimal::percent(1))
        .unwrap();
    assert_eq!(g.community + g.platform + g.controller, 999_999);
    assert_eq!(g.controller, 333_333);
}

#[test]
fn fee_split_without_fees_is_an_arithmetic_error() {
    assert_eq!(
        split_fee(1000, Decimal::zero(), Decimal::zero(), Decimal::zero()),
        Err(FarmError::Arithmetic)
    );
}

#[test]
fn total_fee_adds_rates() {
    assert_eq!(
        total_fee(Decimal::percent(3), Decimal::percent(2), Decimal::percent(1)),
        Some(Decimal::percent(6))
    );
    assert_eq!(total_fee(Decimal::from_atomics(u128::MAX), Decimal::percent(1), Decimal::zero()), None);
}

#[test]
fn reinvest_swaps_half_plus_commission() {
    assert_eq!(
        plan_reinvest(10, 91, 5),
        Ok(ReinvestPlan { reinvest_amount: 101, swap_amount: 50, total_swap_amount: 55 })
    );
    assert_eq!(plan_reinvest(u128::MAX, 1, 0), Err(FarmError::Arithmetic));
}

#[test]
fn swap_return_split_between_commission_and_reinvestment() {
    assert_eq!(split_swap_return(1000, 5, 55), Ok((90, 910)));
    assert_eq!(split_swap_return(1000, 0, 0), Ok((0, 1000)));
}

#[test]
fn earning_accumulates() {
    let mut state = GlobalState {
        previous_governance_share: 0,
        governance_share_index: Decimal::zero(),
        total_weight: 1,
        total_farm_share: 0,
        earning: 5,
    };
    record_earning(&mut state, 7).unwrap();
    assert_eq!(state.earning, 12);
    assert_eq!(record_earning(&mut state, u128::MAX), Err(FarmError::Arithmetic));
    assert_eq!(state.earning, 12);
}

#[test]
fn actions_come_in_required_order() {
    let actions = compound_actions(55, 90, 89, 360, 400, 500);
    assert_eq!(
        actions,
        vec![
            CompoundAction::ClaimRewards,
            CompoundAction::SwapReward { amount: 55 },
            CompoundAction::DepositCommission { amount: 89 },
            CompoundAction::MintGovernance,
            CompoundAction::SendFee,
            CompoundAction::StakeReward { amount: 360 },
            CompoundAction::IncreaseAllowance { amount: 400 },
            CompoundAction::ProvideLiquidity { token_amount: 400, base_amount: 500 },
            CompoundAction::StakeLp,
        ]
    );
}

#[test]
fn idle_cycle_emits_only_the_claim() {
    let mut state = GlobalState {
        previous_governance_share: 0,
        governance_share_index: Decimal::zero(),
        total_weight: 1,
        total_farm_share: 0,
        earning: 0,
    };
    let mut pool = PoolInfo::new(1, Decimal::zero());
    let split = split_reward(0, 0, 0, Decimal::percent(5)).unwrap();
    let plan = plan_reinvest(0, split.compound, split.commission).unwrap();
    let before = pool;
    deposit_farm_share(&mut state, &mut pool, split.stake, 0).unwrap();
    assert_eq!(pool, before);
    let (commission, _) = split_swap_return(0, split.commission, plan.total_swap_amount).unwrap();
    let actions = compound_actions(plan.total_swap_amount, commission, 0, split.stake, 0, 0);
    assert_eq!(actions, vec![CompoundAction::ClaimRewards]);
}

#[test]
fn only_the_controller_compounds() {
    assert!(is_authorized(b"ctrl", b"ctrl"));
    assert!(!is_authorized(b"ctrl", b"ctrx"));
    assert!(!is_authorized(b"ctrl", b"ctr"));
    assert!(is_authorized(b"", b"anyone"));
}

#[test]
fn unspent_swap_half_is_carried() {
    assert_eq!(carry_reinvest_allowance(100, 90, 3), Ok((93, 7)));
    assert_eq!(carry_reinvest_allowance(100, 99, 3), Err(FarmError::Arithmetic));
}

fn fresh_state() -> GlobalState {
    GlobalState {
        previous_governance_share: 0,
        governance_share_index: Decimal::zero(),
        total_weight: 1,
        total_farm_share: 0,
        earning: 0,
    }
}

#[test]
fn compound_cycle_plans_and_finishes() {
    let mut state = fresh_state();
    let mut pool = PoolInfo::new(1, Decimal::zero());
    pool.total_stake_bond_share = 4000;
    pool.total_stake_bond_amount = 4000;
    let fees = (Decimal::percent(5), Decimal::percent(3), Decimal::percent(2));
    let plan = plan_compound(&mut state, &mut pool, b"c", b"c", fees, 1000, 10000, 0, 0).unwrap();
    assert_eq!(
        plan,
        CompoundPlan { commission: 100, compound: 540, stake: 360, reinvest_amount: 540, total_swap_amount: 370 }
    );
    assert_eq!(pool.farm_share, 360);
    assert_eq!(state.total_farm_share, 360);
    let actions = finish_compound(&mut state, plan, 740, Decimal::zero(), 0, 100_000, 200_000).unwrap();
    // commission part: 740 * 100 / 370 = 200; reinvest 540
    assert_eq!(state.earning, 200);
    assert_eq!(
        actions,
        vec![
            CompoundAction::ClaimRewards,
            CompoundAction::SwapReward { amount: 370 },
            CompoundAction::DepositCommission { amount: 200 },
            CompoundAction::MintGovernance,
            CompoundAction::SendFee,
            CompoundAction::StakeReward { amount: 360 },
            CompoundAction::IncreaseAllowance { amount: 272 },
            CompoundAction::ProvideLiquidity { token_amount: 272, base_amount: 540 },
            CompoundAction::StakeLp,
        ]
    );
}

#[test]
fn unauthorized_cycle_changes_nothing() {
    let mut state = fresh_state();
    let mut pool = PoolInfo::new(1, Decimal::zero());
    let fees = (Decimal::percent(5), Decimal::percent(3), Decimal::percent(2));
    let before = (state, pool);
    assert_eq!(
        plan_compound(&mut state, &mut pool, b"c", b"x", fees, 1000, 10000, 0, 0),
        Err(FarmError::Unauthorized)
    );
    assert_eq!((state, pool), before);
}

#[test]
fn idle_compound_cycle_only_claims_even_on_an_empty_pair() {
    let mut state = fresh_state();
    let mut pool = PoolInfo::new(1, Decimal::zero());
    let fees = (Decimal::percent(5), Decimal::percent(3), Decimal::percent(2));
    let before = (state, pool);
    let plan = plan_compound(&mut state, &mut pool, b"", b"anyone", fees, 0, 0, 0, 0).unwrap();
    assert_eq!((state, pool), before);
    let actions = finish_compound(&mut state, plan, 12345, Decimal::percent(1), 10, 0, 0).unwrap();
    assert_eq!(actions, vec![CompoundAction::ClaimRewards]);
    assert_eq!(state, before.0);
}
