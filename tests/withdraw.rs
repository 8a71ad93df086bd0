use spectrum_core::bond::{bond, reward_view, settled_record, withdraw};
use spectrum_core::error::FarmError;
use spectrum_core::ledger::{deposit_farm_share, GlobalState, PoolInfo};
use spectrum_core::math::Decimal;

fn state() -> GlobalState {
    GlobalState {
        previous_governance_share: 0,
        governance_share_index: Decimal::zero(),
        total_weight: 2,
        total_farm_share: 0,
        earning: 0,
    }
}

#[test]
fn withdraw_over_two_pools_sums_payouts() {
    let mut s = state();
    let mut p1 = PoolInfo::new(1, Decimal::zero());
    let mut p2 = PoolInfo::new(1, Decimal::zero());
    let r1 = bond(&mut s, &mut p1, None, 0, 1000, Decimal::zero(), Decimal::zero(), 0).unwrap();
    let r2 = bond(&mut s, &mut p2, None, 0, 3000, Decimal::zero(), Decimal::zero(), 0).unwrap();
    deposit_farm_share(&mut s, &mut p1, 400, 0).unwrap();
    deposit_farm_share(&mut s, &mut p2, 600, 400).unwrap();
    assert_eq!(s.total_farm_share, 1000);
    let (pools, rewards, total) = withdraw(
        &mut s,
        &vec![p1, p2],
        &vec![r1, r2],
        &vec![1000, 3000],
        &vec![0, 0],
        200,
        400,
        2000,
    )
    .unwrap();
    assert_eq!(total.farm_share, 1000);
    assert_eq!(total.farm_amount, 2000);
    // 100 + 99: the second pool's per-share index rounds down
    assert_eq!(total.governance_share, 199);
    assert_eq!(total.governance_amount, 398);
    assert_eq!(rewards[0].governance_share, 0);
    assert_eq!(pools[0].farm_share + pools[1].farm_share, s.total_farm_share);
    assert_eq!(s.total_farm_share, 0);
    assert_eq!(s.previous_governance_share, 1);
}

#[test]
fn withdraw_with_mismatched_totals_is_an_arithmetic_error() {
    let mut s = state();
    let mut p = PoolInfo::new(1, Decimal::zero());
    let r = bond(&mut s, &mut p, None, 0, 1000, Decimal::zero(), Decimal::zero(), 0).unwrap();
    p.farm_share = 0;
    let mut r2 = r;
    r2.farm_share = 5;
    let before = s;
    assert_eq!(
        withdraw(&mut s, &vec![p], &vec![r2], &vec![1000], &vec![0], 0, 0, 0),
        Err(FarmError::Arithmetic)
    );
    assert_eq!(s, before);
}

#[test]
fn view_values_a_record_without_touching_it() {
    let mut s = state();
    let mut p = PoolInfo::new(2, Decimal::zero());
    let r = bond(&mut s, &mut p, None, 0, 1000, Decimal::percent(50), Decimal::zero(), 0).unwrap();
    deposit_farm_share(&mut s, &mut p, 100, 0).unwrap();
    let v = reward_view(&s, &p, &r, 1200, 0, 300, 1, 1).unwrap();
    assert_eq!(v.stake_bond_amount, 500);
    assert_eq!(v.auto_bond_amount, 700);
    assert_eq!(v.bond_amount, 1200);
    assert_eq!(v.farm_share, 100);
    assert_eq!(v.pending_farm_reward, 300);
    assert_eq!(r.farm_share, 0);
    let settled = settled_record(&s, &p, &r, 1200).unwrap();
    assert_eq!(settled.farm_share, 100);
}
