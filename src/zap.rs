//! Sizing of a single-asset zap into a pair: how much of the provided asset to
//! swap, the pool once the swap is applied, the price it was done at, and the LP
//! tokens that providing the result would mint.

use crate::error::FarmError;
use crate::ledger::ratio_opt;
use crate::math::{checked_multiply_ratio, ratio, ratio_atomics, ratio_fits, Decimal, DECIMAL_FRACTIONAL};
use crate::swap::{get_swap_amount, swap_amount};
use vstd::prelude::*;

verus! {

/// Part of `amount` to swap before providing: `floor(amount · 10000 / 19995)` on a
/// stable-swap pair, else the closed-form optimal one-sided swap.
pub open spec fn zap_swap_spec(amount: nat, offer_pool: nat, ask_pool: nat, stable: bool) -> Option<
    u128,
> {
    if stable {
        ratio_opt(amount as int, 10000, 19995)
    } else {
        swap_amount(amount, 0, offer_pool, ask_pool)
    }
}

pub fn zap_swap_amount(amount: u128, offer_pool: u128, ask_pool: u128, stable: bool) -> (r: Option<
    u128,
>)
    ensures
        r == zap_swap_spec(amount as nat, offer_pool as nat, ask_pool as nat, stable),
{
    if stable {
        checked_multiply_ratio(amount, 10000, 19995)
    } else {
        get_swap_amount(amount, 0, offer_pool, ask_pool)
    }
}

/// The pool's two depths after `offer` went in and `returned` came out.
pub fn apply_pool(offer_pool: u128, ask_pool: u128, offer: u128, returned: u128) -> (r: Result<
    (u128, u128),
    FarmError,
>)
    ensures
        r.is_ok() == (offer_pool + offer <= u128::MAX && ask_pool >= returned),
        r.is_ok() ==> r.unwrap() == ((offer_pool + offer) as u128, (ask_pool - returned) as u128),
{
    if offer_pool > u128::MAX - offer || ask_pool < returned {
        return Err(FarmError::Arithmetic);
    }
    Ok((offer_pool + offer, ask_pool - returned))
}

/// The price a swap was done at, commission included: `offer / (returned + commission)`.
pub fn belief_price(offer: u128, returned: u128, commission: u128) -> (r: Result<
    Decimal,
    FarmError,
>)
    ensures
        r.is_ok() == (returned + commission <= u128::MAX && ratio_fits(
            offer as int,
            DECIMAL_FRACTIONAL as int,
            returned + commission,
        )),
        r.is_ok() ==> r.unwrap().atomics == ratio_atomics(offer as int, returned + commission),
{
    if returned > u128::MAX - commission {
        return Err(FarmError::Arithmetic);
    }
    match Decimal::checked_from_ratio(offer, returned + commission) {
        Some(d) => Ok(d),
        None => Err(FarmError::Arithmetic),
    }
}

/// LP tokens minted for providing `amount_a` and `amount_b` to a pool of depths
/// `pool_a`, `pool_b` and `total_share` LP tokens: the smaller of the two sides'
/// proportional shares.
pub open spec fn lp_minted(amount_a: int, amount_b: int, pool_a: int, pool_b: int, total_share: int) -> int {
    let by_a = ratio(amount_a, total_share, pool_a);
    let by_b = ratio(amount_b, total_share, pool_b);
    if by_a <= by_b {
        by_a
    } else {
        by_b
    }
}

pub fn simulate_lp_amount(
    amount_a: u128,
    amount_b: u128,
    pool_a: u128,
    pool_b: u128,
    total_share: u128,
) -> (r: Result<u128, FarmError>)
    ensures
        r.is_ok() == (ratio_fits(amount_a as int, total_share as int, pool_a as int) && ratio_fits(
            amount_b as int,
            total_share as int,
            pool_b as int,
        )),
        r.is_ok() ==> r.unwrap() == lp_minted(
            amount_a as int,
            amount_b as int,
            pool_a as int,
            pool_b as int,
            total_share as int,
        ),
{
    let by_a = match checked_multiply_ratio(amount_a, total_share, pool_a) {
        Some(v) => v,
        None => return Err(FarmError::Arithmetic),
    };
    let by_b = match checked_multiply_ratio(amount_b, total_share, pool_b) {
        Some(v) => v,
        None => return Err(FarmError::Arithmetic),
    };
    Ok(
        if by_a <= by_b {
            by_a
        } else {
            by_b
        },
    )
}

/// A slippage tolerance may be at most one half.
pub fn validate_slippage(tolerance: Decimal) -> (r: Result<(), FarmError>)
    ensures
        r is Ok <==> tolerance.atomics <= 500_000_000_000_000_000,
        r is Err ==> r == Err::<(), FarmError>(FarmError::SlippageTooHigh),
{
    if tolerance.atomics > Decimal::percent(50).atomics {
        Err(FarmError::SlippageTooHigh)
    } else {
        Ok(())
    }
}

/// LP tokens received by providing liquidity: the balance now less the balance
/// before.
pub fn received_amount(current: u128, previous: u128) -> (r: Result<u128, FarmError>)
    ensures
        r is Ok <==> current >= previous,
        r is Ok ==> r == Ok::<u128, FarmError>((current - previous) as u128),
        r is Err ==> r == Err::<u128, FarmError>(FarmError::Arithmetic),
{
    if current < previous {
        Err(FarmError::Arithmetic)
    } else {
        Ok(current - previous)
    }
}

} // verus!
