use spectrum_core::error::FarmError;
use spectrum_core::math::Decimal;
use spectrum_core::swap::{
    compute_provide, compute_provide_after_swap, deduct_tax, get_swap_amount,
    get_swap_amount_for_fee, is_swap_emitted,
    optimal_swap, swap_action, swap_offer, SwapOffer,
};

/// Output of a constant-product pool that takes a 0.3% commission on what it returns.
fn simulate(offer_pool: u128, ask_pool: u128, offer: u128) -> u128 {
    let returned = ask_pool - offer_pool * ask_pool / (offer_pool + offer);
    returned - returned * 3 / 1000
}

#[test]
fn one_sided_swap_matches_pool_ratio() {
    let (pool_a, pool_b, amount_a) = (1_000_000u128, 1_000_000u128, 100_000u128);
    let swap = get_swap_amount(amount_a, 0, pool_a, pool_b).unwrap();
    assert_eq!(swap, 48884);
    let output = simulate(pool_a, pool_b, swap);
    assert_eq!(output, 46467);
    // both sides stand in the same integer ratio
    assert_eq!((pool_a + swap) / (pool_b - output), (amount_a - swap) / output);
    let pool_ratio = (pool_a + swap) as f64 / (pool_b - output) as f64;
    let provided_ratio = (amount_a - swap) as f64 / output as f64;
    assert!((pool_ratio - provided_ratio).abs() < 1e-4);
}

#[test]
fn optimal_swap_picks_the_side_in_excess() {
    assert_eq!(optimal_swap(100_000, 0, 1_000_000, 1_000_000), Ok((48884, 0)));
    assert_eq!(optimal_swap(0, 100_000, 1_000_000, 1_000_000), Ok((0, 48884)));
}

#[test]
fn balanced_contribution_needs_no_swap() {
    assert_eq!(optimal_swap(100, 200, 1000, 2000), Ok((0, 0)));
    assert_eq!(optimal_swap(0, 0, 1000, 2000), Ok((0, 0)));
}

#[test]
fn overflowing_swap_is_an_arithmetic_error() {
    assert_eq!(get_swap_amount(u128::MAX, u128::MAX, u128::MAX, u128::MAX), None);
    assert_eq!(optimal_swap(u128::MAX, 0, u128::MAX, u128::MAX), Err(FarmError::Arithmetic));
}

#[test]
fn empty_pool_has_no_swap_amount() {
    assert_eq!(get_swap_amount(100, 0, 0, 0), None);
}

#[test]
fn swap_is_emitted_only_with_amount_and_output() {
    assert!(is_swap_emitted(10, 9));
    assert!(!is_swap_emitted(0, 9));
    assert!(!is_swap_emitted(10, 0));
}

#[test]
fn provide_at_pool_price() {
    assert_eq!(compute_provide(100, 1000, 2000), Ok(200));
    assert_eq!(compute_provide(1, 0, 5), Err(FarmError::Arithmetic));
}

#[test]
fn provide_after_swap_uses_the_moved_pool() {
    assert_eq!(compute_provide_after_swap(1000, 1000, 100, 90, 90), Ok(108));
    assert_eq!(compute_provide_after_swap(1000, 80, 100, 90, 90), Err(FarmError::Arithmetic));
}

#[test]
fn tax_is_deducted_and_capped() {
    let rate = Decimal::permille(5);
    assert_eq!(deduct_tax(1000, rate, 1_000_000), Ok(995));
    assert_eq!(deduct_tax(1000, rate, 3), Ok(997));
    assert_eq!(deduct_tax(1000, Decimal::zero(), 10), Ok(1000));
    assert_eq!(deduct_tax(1000, Decimal::from_atomics(u128::MAX), 10), Err(FarmError::Arithmetic));
}

#[test]
fn swap_amount_follows_the_pool_fee() {
    assert_eq!(get_swap_amount_for_fee(100_000, 0, 1_000_000, 1_000_000, 3, 1000), Some(48884));
    assert_eq!(get_swap_amount_for_fee(100_000, 0, 1_000_000, 1_000_000, 25, 1000), Some(49456));
    assert_eq!(get_swap_amount_for_fee(100_000, 0, 1_000_000, 1_000_000, 1001, 1000), None);
    assert_eq!(get_swap_amount_for_fee(100_000, 0, 1_000_000, 1_000_000, 0, 0), None);
}

#[test]
fn tiny_contribution_swaps_nothing() {
    assert_eq!(get_swap_amount(1, 0, 5, 1), Some(0));
    assert_eq!(optimal_swap(1, 0, 5, 1), Ok((0, 0)));
}

#[test]
fn swap_action_needs_an_amount_and_a_return() {
    let rate = Decimal::permille(5);
    assert_eq!(swap_offer(1000, 0, rate, 1_000_000), Ok(Some(SwapOffer { offer_a: true, amount: 995 })));
    assert_eq!(swap_offer(0, 1000, rate, 3), Ok(Some(SwapOffer { offer_a: false, amount: 997 })));
    assert_eq!(swap_offer(0, 0, rate, 3), Ok(None));
    assert_eq!(swap_action(1000, 0, rate, 1_000_000, 900), Ok(Some(SwapOffer { offer_a: true, amount: 995 })));
    assert_eq!(swap_action(1000, 0, rate, 1_000_000, 0), Ok(None));
    assert_eq!(swap_action(0, 0, rate, 1_000_000, 900), Ok(None));
    assert_eq!(swap_action(1000, 0, Decimal::from_atomics(u128::MAX), 0, 900), Err(FarmError::Arithmetic));
}
