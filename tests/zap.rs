use spectrum_core::error::FarmError;
use spectrum_core::math::Decimal;
use spectrum_core::zap::{
    apply_pool, belief_price, received_amount, simulate_lp_amount, validate_slippage,
    zap_swap_amount,
};

#[test]
fn zap_into_stable_pair_swaps_just_under_half() {
    assert_eq!(zap_swap_amount(19995, 1_000_000, 1_000_000, true), Some(10000));
    assert_eq!(zap_swap_amount(100, 1_000_000, 1_000_000, true), Some(50));
}

#[test]
fn zap_into_constant_product_pair_uses_optimal_swap() {
    assert_eq!(zap_swap_amount(100_000, 1_000_000, 1_000_000, false), Some(48884));
}

#[test]
fn pool_moves_by_the_swap() {
    assert_eq!(apply_pool(1000, 2000, 100, 180), Ok((1100, 1820)));
    assert_eq!(apply_pool(1000, 100, 100, 180), Err(FarmError::Arithmetic));
}

#[test]
fn belief_price_counts_the_commission() {
    let p = belief_price(100, 45, 5).unwrap();
    assert_eq!(p.atomics, 2_000_000_000_000_000_000);
    assert_eq!(belief_price(100, 0, 0), Err(FarmError::Arithmetic));
}

#[test]
fn lp_minted_is_the_smaller_side() {
    assert_eq!(simulate_lp_amount(100, 300, 1000, 2000, 500), Ok(50));
    assert_eq!(simulate_lp_amount(100, 100, 1000, 2000, 500), Ok(25));
    assert_eq!(simulate_lp_amount(100, 100, 0, 2000, 500), Err(FarmError::Arithmetic));
}

#[test]
fn slippage_is_bounded_by_one_half() {
    assert_eq!(validate_slippage(Decimal::percent(50)), Ok(()));
    assert_eq!(validate_slippage(Decimal::percent(51)), Err(FarmError::SlippageTooHigh));
}

#[test]
fn received_lp_is_the_balance_increase() {
    assert_eq!(received_amount(150, 100), Ok(50));
    assert_eq!(received_amount(50, 100), Err(FarmError::Arithmetic));
}
