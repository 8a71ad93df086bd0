//! Rebalancing swap calculator: how much of the asset in excess to swap so that
//! the contributed amounts match the constant-product pool's price, and how much
//! to provide afterwards.

use crate::error::FarmError;
use crate::math::{checked_multiply_ratio, ratio, ratio_fits, Decimal, DECIMAL_FRACTIONAL};
use crate::wide::{
    full_mul, isqrt, lemma_isqrt_is, narrow, wide_add, wide_bound, wide_div, wide_gt,
    wide_isqrt, wide_mul, wide_sub, widen,
};
use vstd::prelude::*;

verus! {

/// The numerator `k·area_ax + isqrt(area_ax)·isqrt(k²·area_ax + 4n(n−k)·area_bx)` of
/// the closed-form swap amount, for a pool fee of `k/n`.
pub open spec fn swap_numerator(
    amount_a: nat,
    amount_b: nat,
    pool_a: nat,
    pool_b: nat,
    fee_num: nat,
    fee_den: nat,
) -> nat {
    let area_ax = (amount_a + pool_a) * pool_b;
    let area_bx = (amount_b + pool_b) * pool_a;
    fee_num * area_ax + isqrt(area_ax) * isqrt(
        fee_num * fee_num * area_ax + 4 * fee_den * ((fee_den - fee_num) as nat) * area_bx,
    )
}

/// The quotient `numerator / 2n / (amount_b + pool_b)`, before `pool_a` is taken off.
pub open spec fn swap_quotient(
    amount_a: nat,
    amount_b: nat,
    pool_a: nat,
    pool_b: nat,
    fee_num: nat,
    fee_den: nat,
) -> nat {
    swap_numerator(amount_a, amount_b, pool_a, pool_b, fee_num, fee_den) / (2 * fee_den) / (
    amount_b + pool_b)
}

/// Whether the fee is a proper fraction, every intermediate of the closed form
/// stays below 2^256, the divisor is non-zero and the final amount fits in 128
/// bits.
pub open spec fn swap_in_range(
    amount_a: nat,
    amount_b: nat,
    pool_a: nat,
    pool_b: nat,
    fee_num: nat,
    fee_den: nat,
) -> bool {
    let area_ax = (amount_a + pool_a) * pool_b;
    let area_bx = (amount_b + pool_b) * pool_a;
    let q = swap_quotient(amount_a, amount_b, pool_a, pool_b, fee_num, fee_den);
    &&& 0 < fee_den
    &&& fee_num <= fee_den
    &&& area_ax < wide_bound()
    &&& area_bx < wide_bound()
    &&& fee_num * fee_num * area_ax + 4 * fee_den * ((fee_den - fee_num) as nat) * area_bx
        < wide_bound()
    &&& swap_numerator(amount_a, amount_b, pool_a, pool_b, fee_num, fee_den) < wide_bound()
    &&& amount_b + pool_b > 0
    &&& (q >= pool_a ==> q - pool_a <= u128::MAX)
}

/// The amount of asset A to swap into B so that the rest of `amount_a` and
/// `amount_b` plus the swap output stand in the pool's post-swap ratio, for a
/// pool that keeps `fee_num / fee_den` of each swap's output as its fee. Where
/// the floored closed form ends below `pool_a` (a contribution too small to move
/// the pool), the amount is zero and the contribution stays as dust.
pub open spec fn swap_amount_for_fee(
    amount_a: nat,
    amount_b: nat,
    pool_a: nat,
    pool_b: nat,
    fee_num: nat,
    fee_den: nat,
) -> Option<u128> {
    if swap_in_range(amount_a, amount_b, pool_a, pool_b, fee_num, fee_den) {
        let q = swap_quotient(amount_a, amount_b, pool_a, pool_b, fee_num, fee_den);
        if q >= pool_a {
            Some((q - pool_a) as u128)
        } else {
            Some(0u128)
        }
    } else {
        None
    }
}

/// The optimal swap amount for a pool fee of 0.3%.
pub open spec fn swap_amount(amount_a: nat, amount_b: nat, pool_a: nat, pool_b: nat) -> Option<u128> {
    swap_amount_for_fee(amount_a, amount_b, pool_a, pool_b, 3, 1000)
}

/// The closed-form optimal swap amount of asset A for a pool fee of
/// `fee_num / fee_den`; zero where the floored closed form ends below zero;
/// `None` for a fee above one, or where the 256-bit arithmetic would overflow or
/// divide by zero.
pub fn get_swap_amount_for_fee(
    amount_a: u128,
    amount_b: u128,
    pool_a: u128,
    pool_b: u128,
    fee_num: u64,
    fee_den: u64,
) -> (r: Option<u128>)
    ensures
        r == swap_amount_for_fee(
            amount_a as nat,
            amount_b as nat,
            pool_a as nat,
            pool_b as nat,
            fee_num as nat,
            fee_den as nat,
        ),
{
    let ghost (aa, ab, pa, pb) = (amount_a as nat, amount_b as nat, pool_a as nat, pool_b as nat);
    let ghost (k, n) = (fee_num as nat, fee_den as nat);
    if fee_den == 0 || fee_num > fee_den {
        return None;
    }
    let pool_ax = wide_add(widen(amount_a), widen(pool_a)).unwrap();
    let pool_bx = wide_add(widen(amount_b), widen(pool_b)).unwrap();
    let area_ax = match wide_mul(pool_ax, widen(pool_b)) {
        Some(v) => v,
        None => return None,
    };
    let area_bx = match wide_mul(pool_bx, widen(pool_a)) {
        Some(v) => v,
        None => return None,
    };
    let k_sq = full_mul(fee_num as u128, fee_num as u128);
    proof {
        assert(4 * n * ((n - k) as nat) < wide_bound()) by (nonlinear_arith)
            requires
                n <= u64::MAX,
                k <= n,
        ;
    }
    let four_n = full_mul(4, fee_den as u128);
    let coef = wide_mul(four_n, widen((fee_den - fee_num) as u128)).unwrap();
    let k_ax = match wide_mul(k_sq, area_ax) {
        Some(v) => v,
        None => return None,
    };
    let c_bx = match wide_mul(coef, area_bx) {
        Some(v) => v,
        None => return None,
    };
    let a = match wide_add(k_ax, c_bx) {
        Some(v) => v,
        None => return None,
    };
    let k_area = match wide_mul(widen(fee_num as u128), area_ax) {
        Some(v) => v,
        None => return None,
    };
    let root_ax = wide_isqrt(area_ax);
    let root_a = wide_isqrt(a);
    proof {
        lemma_isqrt_is(area_ax.value(), root_ax.value());
        lemma_isqrt_is(a.value(), root_a.value());
    }
    let roots = match wide_mul(root_ax, root_a) {
        Some(v) => v,
        None => return None,
    };
    let b = match wide_add(k_area, roots) {
        Some(v) => v,
        None => return None,
    };
    assert(b.value() == swap_numerator(aa, ab, pa, pb, k, n));
    let q1 = wide_div(b, full_mul(2, fee_den as u128)).unwrap();
    let q = match wide_div(q1, pool_bx) {
        Some(v) => v,
        None => return None,
    };
    assert(q.value() == swap_quotient(aa, ab, pa, pb, k, n));
    let d = match wide_sub(q, widen(pool_a)) {
        Some(v) => v,
        None => return Some(0),
    };
    narrow(d)
}

/// The closed-form optimal swap amount of asset A for a pool fee of 0.3%.
pub fn get_swap_amount(amount_a: u128, amount_b: u128, pool_a: u128, pool_b: u128) -> (r: Option<
    u128,
>)
    ensures
        r == swap_amount(amount_a as nat, amount_b as nat, pool_a as nat, pool_b as nat),
{
    get_swap_amount_for_fee(amount_a, amount_b, pool_a, pool_b, 3, 1000)
}

/// The swap of the rebalancing step: `(swap of A, swap of B)`, at most one of them
/// non-zero; `None` where the closed form fails.
pub open spec fn optimal_swap_spec(provide_a: nat, provide_b: nat, pool_a: nat, pool_b: nat) -> Option<
    (u128, u128),
> {
    let area_a = provide_a * pool_b;
    let area_b = provide_b * pool_a;
    if area_a > area_b {
        match swap_amount(provide_a, provide_b, pool_a, pool_b) {
            Some(x) => Some((x, 0u128)),
            None => None,
        }
    } else if area_a < area_b {
        match swap_amount(provide_b, provide_a, pool_b, pool_a) {
            Some(y) => Some((0u128, y)),
            None => None,
        }
    } else {
        Some((0u128, 0u128))
    }
}

/// Decides which contributed asset is in excess relative to the pool's price
/// (`provide_a · pool_b` against `provide_b · pool_a`) and how much of it to swap.
/// Equal areas need no swap.
pub fn optimal_swap(provide_a: u128, provide_b: u128, pool_a: u128, pool_b: u128) -> (r: Result<
    (u128, u128),
    FarmError,
>)
    ensures
        r.is_ok() == optimal_swap_spec(
            provide_a as nat,
            provide_b as nat,
            pool_a as nat,
            pool_b as nat,
        ).is_some(),
        r.is_ok() ==> r.unwrap() == optimal_swap_spec(
            provide_a as nat,
            provide_b as nat,
            pool_a as nat,
            pool_b as nat,
        ).unwrap(),
{
    let area_a = full_mul(provide_a, pool_b);
    let area_b = full_mul(provide_b, pool_a);
    if wide_gt(area_a, area_b) {
        match get_swap_amount(provide_a, provide_b, pool_a, pool_b) {
            Some(x) => Ok((x, 0)),
            None => Err(FarmError::Arithmetic),
        }
    } else if wide_gt(area_b, area_a) {
        match get_swap_amount(provide_b, provide_a, pool_b, pool_a) {
            Some(y) => Ok((0, y)),
            None => Err(FarmError::Arithmetic),
        }
    } else {
        Ok((0, 0))
    }
}

/// Whether a swap is emitted: neither its amount nor its simulated output is zero,
/// so that the pool's minimum-output check is never handed a no-op.
pub open spec fn swap_emitted(swap_amount: nat, return_amount: nat) -> bool {
    swap_amount != 0 && return_amount != 0
}

pub fn is_swap_emitted(swap_amount: u128, return_amount: u128) -> (r: bool)
    ensures
        r == swap_emitted(swap_amount as nat, return_amount as nat),
{
    swap_amount != 0 && return_amount != 0
}

/// The amount of the other asset that matches `amount` of the offered one at the
/// pool's price: `floor(amount · ask_pool / offer_pool)`.
pub fn compute_provide(amount: u128, offer_pool: u128, ask_pool: u128) -> (r: Result<
    u128,
    FarmError,
>)
    ensures
        r.is_ok() == ratio_fits(amount as int, ask_pool as int, offer_pool as int),
        r.is_ok() ==> r.unwrap() == ratio(amount as int, ask_pool as int, offer_pool as int),
{
    match checked_multiply_ratio(amount, ask_pool, offer_pool) {
        Some(v) => Ok(v),
        None => Err(FarmError::Arithmetic),
    }
}

/// Whether the provide-after-swap computation succeeds.
pub open spec fn provide_after_swap_ok(
    offer_pool: int,
    ask_pool: int,
    offer_amount: int,
    return_amount: int,
    ask_reinvest: int,
) -> bool {
    &&& offer_pool + offer_amount <= u128::MAX
    &&& ask_pool >= return_amount
    &&& ratio_fits(ask_reinvest, offer_pool + offer_amount, ask_pool - return_amount)
}

/// The amount of the offered asset to provide beside `ask_reinvest` of the asked
/// one, at the pool's price once `offer_amount` has been swapped in for
/// `return_amount`: `floor(ask_reinvest · (offer_pool + offer_amount) / (ask_pool − return_amount))`.
pub fn compute_provide_after_swap(
    offer_pool: u128,
    ask_pool: u128,
    offer_amount: u128,
    return_amount: u128,
    ask_reinvest: u128,
) -> (r: Result<u128, FarmError>)
    ensures
        r.is_ok() == provide_after_swap_ok(
            offer_pool as int,
            ask_pool as int,
            offer_amount as int,
            return_amount as int,
            ask_reinvest as int,
        ),
        r.is_ok() ==> r.unwrap() == ratio(
            ask_reinvest as int,
            offer_pool + offer_amount,
            ask_pool - return_amount,
        ),
{
    if offer_pool > u128::MAX - offer_amount || ask_pool < return_amount {
        return Err(FarmError::Arithmetic);
    }
    match checked_multiply_ratio(ask_reinvest, offer_pool + offer_amount, ask_pool - return_amount) {
        Some(v) => Ok(v),
        None => Err(FarmError::Arithmetic),
    }
}

/// The transfer tax on `amount` at `rate`, at most `cap`:
/// `min(amount − floor(amount / (1 + rate)), cap)`.
pub open spec fn tax_on(amount: int, rate: Decimal, cap: int) -> int {
    let kept = ratio(amount, DECIMAL_FRACTIONAL as int, DECIMAL_FRACTIONAL + rate.atomics);
    if amount - kept < cap {
        amount - kept
    } else {
        cap
    }
}

/// What is left of `amount` once the transfer tax at `rate`, capped at `cap`, is
/// taken; fails only where `1 + rate` does not fit the fixed-point range.
pub fn deduct_tax(amount: u128, rate: Decimal, cap: u128) -> (r: Result<u128, FarmError>)
    ensures
        r.is_ok() == (DECIMAL_FRACTIONAL + rate.atomics <= u128::MAX),
        r.is_ok() ==> r.unwrap() == amount - tax_on(amount as int, rate, cap as int),
{
    if rate.atomics > u128::MAX - DECIMAL_FRACTIONAL {
        return Err(FarmError::Arithmetic);
    }
    let den = DECIMAL_FRACTIONAL + rate.atomics;
    proof {
        assert(ratio(amount as int, DECIMAL_FRACTIONAL as int, den as int) <= amount) by (
        nonlinear_arith)
            requires
                den >= DECIMAL_FRACTIONAL,
                DECIMAL_FRACTIONAL > 0,
        ;
    }
    let kept = checked_multiply_ratio(amount, DECIMAL_FRACTIONAL, den).unwrap();
    let tax = if amount - kept < cap {
        amount - kept
    } else {
        cap
    };
    Ok(amount - tax)
}

/// The swap of a rebalancing step as presented to the pool: which asset is
/// offered (`offer_a`) and how much of it once the transfer tax is taken.
#[derive(Clone, Copy, Debug, PartialEq, Eq, Structural)]
pub struct SwapOffer {
    pub offer_a: bool,
    pub amount: u128,
}

/// The offer for the swaps `(swap_a, swap_b)` that `optimal_swap` decided: none
/// when both are zero; otherwise the non-zero side, taxed.
pub open spec fn swap_offer_spec(swap_a: u128, swap_b: u128, rate: Decimal, cap: u128) -> Option<
    Option<SwapOffer>,
> {
    let (offer_a, amount) = if swap_a != 0 {
        (true, swap_a)
    } else {
        (false, swap_b)
    };
    if amount == 0 {
        Some(None)
    } else if DECIMAL_FRACTIONAL + rate.atomics <= u128::MAX {
        Some(
            Some(
                SwapOffer {
                    offer_a,
                    amount: (amount - tax_on(amount as int, rate, cap as int)) as u128,
                },
            ),
        )
    } else {
        None
    }
}

/// The taxed offer to simulate; fails only where the tax rate leaves the
/// fixed-point range.
pub fn swap_offer(swap_a: u128, swap_b: u128, rate: Decimal, cap: u128) -> (r: Result<
    Option<SwapOffer>,
    FarmError,
>)
    ensures
        match swap_offer_spec(swap_a, swap_b, rate, cap) {
            Some(o) => r == Ok::<Option<SwapOffer>, FarmError>(o),
            None => r == Err::<Option<SwapOffer>, FarmError>(FarmError::Arithmetic),
        },
{
    let (offer_a, amount) = if swap_a != 0 {
        (true, swap_a)
    } else {
        (false, swap_b)
    };
    if amount == 0 {
        return Ok(None);
    }
    match deduct_tax(amount, rate, cap) {
        Ok(v) => Ok(Some(SwapOffer { offer_a, amount: v })),
        Err(_) => Err(FarmError::Arithmetic),
    }
}

/// The swap action of a rebalancing step, given what simulating the taxed offer
/// returned: the offer, unless there is none or its simulated return is zero.
pub open spec fn swap_action_spec(
    swap_a: u128,
    swap_b: u128,
    rate: Decimal,
    cap: u128,
    returned: u128,
) -> Option<Option<SwapOffer>> {
    match swap_offer_spec(swap_a, swap_b, rate, cap) {
        Some(Some(o)) => Some(
            if returned != 0 {
                Some(o)
            } else {
                None
            },
        ),
        Some(None) => Some(None),
        None => None,
    }
}

/// Decides whether the rebalancing swap is emitted and with what amount.
pub fn swap_action(swap_a: u128, swap_b: u128, rate: Decimal, cap: u128, returned: u128) -> (r:
    Result<Option<SwapOffer>, FarmError>)
    ensures
        match swap_action_spec(swap_a, swap_b, rate, cap, returned) {
            Some(o) => r == Ok::<Option<SwapOffer>, FarmError>(o),
            None => r == Err::<Option<SwapOffer>, FarmError>(FarmError::Arithmetic),
        },
        r matches Ok(Some(o)) ==> returned != 0 && (swap_a != 0 || swap_b != 0),
{
    match swap_offer(swap_a, swap_b, rate, cap) {
        Ok(Some(o)) => Ok(
            if returned != 0 {
                Some(o)
            } else {
                None
            },
        ),
        Ok(None) => Ok(None),
        Err(e) => Err(e),
    }
}

} // verus!
