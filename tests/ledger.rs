use spectrum_core::bond::{bond, unbond, withdraw_reward};
use spectrum_core::error::FarmError;
use spectrum_core::ledger::{
    before_share_change, calc_farm_balance, calc_spec_balance, decrease_bond_amount,
    deposit_farm_share, deposit_farm_shares,
    deposit_spec_reward, spec_reward_to_pool, withdraw_from_state, GlobalState, PoolInfo,
    RewardInfo,
};
use spectrum_core::math::Decimal;

fn empty_state(total_weight: u32) -> GlobalState {
    GlobalState {
        previous_governance_share: 0,
        governance_share_index: Decimal::zero(),
        total_weight,
        total_farm_share: 0,
        earning: 0,
    }
}

/// Two depositors: 7000 split 2800 stake / 4200 auto, and 5000 all stake.
fn two_depositors() -> (GlobalState, PoolInfo, RewardInfo, RewardInfo) {
    let mut state = empty_state(1);
    let mut pool = PoolInfo::new(1, Decimal::zero());
    let a = bond(&mut state, &mut pool, None, 0, 7000, Decimal::percent(60), Decimal::zero(), 0)
        .unwrap();
    let b = bond(&mut state, &mut pool, None, 0, 5000, Decimal::zero(), Decimal::zero(), 7000)
        .unwrap();
    (state, pool, a, b)
}

#[test]
fn bond_splits_principal_between_sub_positions() {
    let (_, pool, a, b) = two_depositors();
    assert_eq!(a.auto_bond_share, 4200);
    assert_eq!(a.stake_bond_share, 2800);
    assert_eq!(b.auto_bond_share, 0);
    assert_eq!(b.stake_bond_share, 5000);
    assert_eq!(pool.total_auto_bond_share, 4200);
    assert_eq!(pool.total_stake_bond_share, 7800);
    assert_eq!(pool.total_stake_bond_amount, 7800);
}

#[test]
fn harvest_distributes_farm_and_governance_rewards_proportionally() {
    let (mut state, mut pool, mut a, mut b) = two_depositors();
    deposit_farm_share(&mut state, &mut pool, 5000, 0).unwrap();
    deposit_spec_reward(&mut state, 1000, false).unwrap();
    spec_reward_to_pool(&state, &mut pool, 12000).unwrap();
    before_share_change(&pool, &mut a).unwrap();
    before_share_change(&pool, &mut b).unwrap();
    assert_eq!(a.farm_share, 1794);
    assert_eq!(b.farm_share, 3205);
    assert_eq!(a.governance_share, 582);
    assert_eq!(b.governance_share, 416);
    assert_eq!(a.accum_governance_share, 582);
    assert_eq!(state.total_farm_share, 5000);
    assert_eq!(pool.farm_share, 5000);
}

#[test]
fn shares_sum_to_pool_totals_after_bond_and_unbond() {
    let (mut state, mut pool, a, b) = two_depositors();
    let a = unbond(&mut state, &mut pool, a, 0, 3500, 12000).unwrap();
    assert_eq!(a.auto_bond_share + b.auto_bond_share, pool.total_auto_bond_share);
    assert_eq!(a.stake_bond_share + b.stake_bond_share, pool.total_stake_bond_share);
    let b = bond(&mut state, &mut pool, Some(b), 0, 1000, Decimal::percent(50), Decimal::zero(), 8500)
        .unwrap();
    assert_eq!(a.auto_bond_share + b.auto_bond_share, pool.total_auto_bond_share);
    assert_eq!(a.stake_bond_share + b.stake_bond_share, pool.total_stake_bond_share);
}

#[test]
fn unbond_takes_from_both_sub_positions_in_proportion() {
    let (mut state, mut pool, a, _) = two_depositors();
    let a = unbond(&mut state, &mut pool, a, 0, 3500, 12000).unwrap();
    assert_eq!(a.auto_bond_share, 2100);
    assert_eq!(a.stake_bond_share, 1400);
    assert_eq!(pool.total_stake_bond_amount, 6400);
}

#[test]
fn unbond_beyond_entitlement_is_refused() {
    let (mut state, mut pool, a, _) = two_depositors();
    let before = pool;
    assert_eq!(unbond(&mut state, &mut pool, a, 0, 7001, 12000), Err(FarmError::ExceedsBond));
    assert_eq!(pool, before);
}

#[test]
fn unbond_everything_leaves_an_empty_record() {
    let (mut state, mut pool, _, b) = two_depositors();
    let b = unbond(&mut state, &mut pool, b, 0, 5000, 12000).unwrap();
    assert!(b.is_empty());
}

#[test]
fn settle_twice_is_idempotent() {
    let (mut state, mut pool, mut a, _) = two_depositors();
    deposit_farm_share(&mut state, &mut pool, 5000, 0).unwrap();
    before_share_change(&pool, &mut a).unwrap();
    let first = a;
    before_share_change(&pool, &mut a).unwrap();
    assert_eq!(a, first);
}

#[test]
fn indices_never_decrease() {
    let (mut state, mut pool, _, _) = two_depositors();
    let i0 = state.governance_share_index.atomics;
    let f0 = pool.farm_share_index.atomics;
    deposit_spec_reward(&mut state, 1000, false).unwrap();
    spec_reward_to_pool(&state, &mut pool, 12000).unwrap();
    deposit_farm_share(&mut state, &mut pool, 700, 5000).unwrap();
    assert!(state.governance_share_index.atomics >= i0);
    assert!(pool.farm_share_index.atomics >= f0);
    assert!(pool.stake_governance_share_index.atomics > 0);
    assert!(pool.auto_governance_share_index.atomics > 0);
}

#[test]
fn shrinking_governance_balance_is_an_arithmetic_error() {
    let mut state = empty_state(1);
    deposit_spec_reward(&mut state, 1000, false).unwrap();
    assert_eq!(deposit_spec_reward(&mut state, 999, false), Err(FarmError::Arithmetic));
    assert_eq!(state.previous_governance_share, 1000);
    deposit_spec_reward(&mut state, 999, true).unwrap();
    assert_eq!(state.previous_governance_share, 999);
}

#[test]
fn zero_weight_leaves_the_global_index() {
    let mut state = empty_state(0);
    deposit_spec_reward(&mut state, 1000, false).unwrap();
    assert_eq!(state, empty_state(0));
}

#[test]
fn pool_settlement_skips_an_empty_farm_position() {
    let (mut state, mut pool, _, _) = two_depositors();
    deposit_spec_reward(&mut state, 1000, false).unwrap();
    let before = pool;
    spec_reward_to_pool(&state, &mut pool, 0).unwrap();
    assert_eq!(pool, before);
}

#[test]
fn deposit_fee_stays_in_the_pool() {
    let mut state = empty_state(1);
    let mut pool = PoolInfo::new(1, Decimal::zero());
    let r = bond(&mut state, &mut pool, None, 0, 10000, Decimal::zero(), Decimal::percent(1), 0)
        .unwrap();
    assert_eq!(r.stake_bond_share, 9900);
    assert_eq!(pool.total_stake_bond_amount, 10000);
}

#[test]
fn withdraw_pays_out_farm_and_unlocked_governance() {
    let (mut state, mut pool, mut a, _) = two_depositors();
    deposit_farm_share(&mut state, &mut pool, 5000, 0).unwrap();
    deposit_spec_reward(&mut state, 1000, false).unwrap();
    let out = withdraw_reward(&state, &mut pool, &mut a, 12000, 82, 10000, 1000, 2000).unwrap();
    assert_eq!(out.farm_share, 1794);
    assert_eq!(out.farm_amount, 3588);
    assert_eq!(out.governance_share, 500);
    assert_eq!(out.governance_amount, 1000);
    assert_eq!(a.farm_share, 0);
    assert_eq!(a.governance_share, 82);
    assert_eq!(pool.farm_share, 5000 - 1794);
    withdraw_from_state(&mut state, out.governance_share, out.farm_share).unwrap();
    assert_eq!(state.total_farm_share, pool.farm_share);
    assert_eq!(state.previous_governance_share, 500);
}

#[test]
fn balances_of_shares() {
    assert_eq!(calc_farm_balance(10, 300, 100), Some(30));
    assert_eq!(calc_farm_balance(10, 300, 0), Some(0));
    assert_eq!(calc_spec_balance(10, 100, 250), Some(25));
    assert_eq!(calc_spec_balance(10, 0, 250), Some(0));
}

#[test]
fn share_conversions_start_one_to_one() {
    let pool = PoolInfo::new(1, Decimal::zero());
    assert_eq!(pool.calc_auto_bond_share(123, 0), Some(123));
    assert_eq!(pool.calc_stake_bond_share(77), Some(77));
    assert_eq!(pool.calc_user_auto_balance(0, 5), Some(0));
    assert_eq!(pool.calc_user_stake_balance(5), Some(0));
}

#[test]
fn settlement_below_snapshot_is_an_arithmetic_error() {
    let pool = PoolInfo::new(1, Decimal::zero());
    let mut r = RewardInfo::new(&pool);
    r.farm_share_index = Decimal::from_atomics(1);
    assert_eq!(before_share_change(&pool, &mut r), Err(FarmError::Arithmetic));
}

#[test]
fn multi_pool_farm_deposit_converts_against_prior_totals() {
    let mut state = empty_state(2);
    state.total_farm_share = 100;
    let mut a = PoolInfo::new(1, Decimal::zero());
    a.total_stake_bond_share = 10;
    a.farm_share = 100;
    let b = PoolInfo::new(1, Decimal::zero());
    let pools = deposit_farm_shares(&mut state, &vec![a, b], &vec![50, 70], 200).unwrap();
    assert_eq!(pools[0].farm_share, 125);
    assert_eq!(pools[0].farm_share_index.atomics, 2_500_000_000_000_000_000);
    assert_eq!(pools[1], b);
    assert_eq!(state.total_farm_share, 125);
    assert_eq!(pools[0].farm_share + pools[1].farm_share, state.total_farm_share);
}

#[test]
fn unbond_burns_shares_rounded_up() {
    let mut pool = PoolInfo::new(1, Decimal::zero());
    pool.total_auto_bond_share = 3;
    let mut r = RewardInfo::new(&pool);
    r.auto_bond_share = 1;
    assert_eq!(pool.calc_user_auto_balance(10, 1), Some(3));
    decrease_bond_amount(&mut pool, &mut r, 3, 10).unwrap();
    assert_eq!(r.auto_bond_share, 0);
    assert_eq!(pool.total_auto_bond_share, 2);
    assert_eq!(pool.calc_user_auto_balance(7, r.auto_bond_share), Some(0));
}

#[test]
fn unbond_leaves_record_worth_at_most_the_rest() {
    let (mut state, mut pool, a, _) = two_depositors();
    let before = pool.calc_user_auto_balance(12000, a.auto_bond_share).unwrap()
        + pool.calc_user_stake_balance(a.stake_bond_share).unwrap();
    let a = unbond(&mut state, &mut pool, a, 0, 1001, 12000).unwrap();
    let after = pool.calc_user_auto_balance(12000 - 1001, a.auto_bond_share).unwrap()
        + pool.calc_user_stake_balance(a.stake_bond_share).unwrap();
    assert!(after <= before - 1001);
}
