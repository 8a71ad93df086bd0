//! Unsigned 256-bit integers for the swap calculator's cross products, held as
//! 32 big-endian bytes; the arithmetic itself is `cosmwasm_std::Uint256`'s.

use cosmwasm_std::{Isqrt, Uint128, Uint256};
use vstd::prelude::*;

verus! {

/// 2^256: every `Wide` value lies below it.
pub open spec fn wide_bound() -> nat {
    115792089237316195423570985008687907853269984665640564039457584007913129639936nat
}

/// The number that a big-endian byte string spells.
pub open spec fn be_value(b: Seq<u8>) -> nat
    decreases b.len(),
{
    if b.len() == 0 {
        0
    } else {
        be_value(b.drop_last()) * 256 + b.last() as nat
    }
}

/// `r` is the integer square root of `x`: the largest number whose square is at most `x`.
pub open spec fn is_isqrt(x: nat, r: nat) -> bool {
    r * r <= x && x < (r + 1) * (r + 1)
}

/// The integer square root of `x`.
pub open spec fn isqrt(x: nat) -> nat {
    choose|r: nat| is_isqrt(x, r)
}

/// Only one number is the integer square root of `x`.
pub proof fn lemma_isqrt_unique(x: nat, r1: nat, r2: nat)
    requires
        is_isqrt(x, r1),
        is_isqrt(x, r2),
    ensures
        r1 == r2,
{
    if r1 < r2 {
        assert((r1 + 1) * (r1 + 1) <= r2 * r2) by (nonlinear_arith)
            requires
                r1 + 1 <= r2,
        ;
    } else if r2 < r1 {
        assert((r2 + 1) * (r2 + 1) <= r1 * r1) by (nonlinear_arith)
            requires
                r2 + 1 <= r1,
        ;
    }
}

/// Any witness of the integer square root is the value of `isqrt`.
pub proof fn lemma_isqrt_is(x: nat, r: nat)
    requires
        is_isqrt(x, r),
    ensures
        isqrt(x) == r,
{
    assert(exists|s: nat| is_isqrt(x, s));
    lemma_isqrt_unique(x, isqrt(x), r);
}

/// An unsigned 256-bit integer as 32 big-endian bytes.
#[derive(Clone, Copy, Debug)]
pub struct Wide {
    pub be: [u8; 32],
}

impl Wide {
    pub open spec fn value(self) -> nat {
        be_value(self.be@)
    }
}

/// Relies on cosmwasm_std::Uint256::from(u128) and Uint256::to_be_bytes: the
/// same number, as 32 big-endian bytes.
#[verifier::external_body]
pub(crate) fn widen(x: u128) -> (r: Wide)
    ensures
        r.value() == x,
{
    Wide { be: Uint256::from(x).to_be_bytes() }
}

/// Relies on cosmwasm_std's `TryFrom<Uint256> for Uint128`: it succeeds exactly
/// when the number fits in 128 bits, and keeps it.
#[verifier::external_body]
pub(crate) fn narrow(w: Wide) -> (r: Option<u128>)
    ensures
        r.is_some() == (w.value() <= u128::MAX),
        r.is_some() ==> r.unwrap() == w.value(),
{
    Uint128::try_from(Uint256::from_be_bytes(w.be)).ok().map(|v| v.u128())
}

/// Relies on cosmwasm_std::Uint256::checked_add: the sum, unless it reaches 2^256.
#[verifier::external_body]
pub(crate) fn wide_add(a: Wide, b: Wide) -> (r: Option<Wide>)
    ensures
        r.is_some() == (a.value() + b.value() < wide_bound()),
        r.is_some() ==> r.unwrap().value() == a.value() + b.value(),
{
    let (x, y) = (Uint256::from_be_bytes(a.be), Uint256::from_be_bytes(b.be));
    x.checked_add(y).ok().map(|v| Wide { be: v.to_be_bytes() })
}

/// Relies on cosmwasm_std::Uint256::checked_sub: the difference, unless it is negative.
#[verifier::external_body]
pub(crate) fn wide_sub(a: Wide, b: Wide) -> (r: Option<Wide>)
    ensures
        r.is_some() == (a.value() >= b.value()),
        r.is_some() ==> r.unwrap().value() == a.value() - b.value(),
{
    let (x, y) = (Uint256::from_be_bytes(a.be), Uint256::from_be_bytes(b.be));
    x.checked_sub(y).ok().map(|v| Wide { be: v.to_be_bytes() })
}

/// Relies on cosmwasm_std::Uint256::checked_mul: the product, unless it reaches 2^256.
#[verifier::external_body]
pub(crate) fn wide_mul(a: Wide, b: Wide) -> (r: Option<Wide>)
    ensures
        r.is_some() == (a.value() * b.value() < wide_bound()),
        r.is_some() ==> r.unwrap().value() == a.value() * b.value(),
{
    let (x, y) = (Uint256::from_be_bytes(a.be), Uint256::from_be_bytes(b.be));
    x.checked_mul(y).ok().map(|v| Wide { be: v.to_be_bytes() })
}

/// Relies on cosmwasm_std::Uint256::checked_div: the quotient rounded down,
/// unless the divisor is zero.
#[verifier::external_body]
pub(crate) fn wide_div(a: Wide, b: Wide) -> (r: Option<Wide>)
    ensures
        r.is_some() == (b.value() != 0),
        r.is_some() ==> r.unwrap().value() == a.value() / b.value(),
{
    let (x, y) = (Uint256::from_be_bytes(a.be), Uint256::from_be_bytes(b.be));
    x.checked_div(y).ok().map(|v| Wide { be: v.to_be_bytes() })
}

/// Relies on cosmwasm_std::Isqrt for Uint256: the integer square root.
#[verifier::external_body]
pub(crate) fn wide_isqrt(a: Wide) -> (r: Wide)
    ensures
        is_isqrt(a.value(), r.value()),
{
    Wide { be: Uint256::from_be_bytes(a.be).isqrt().to_be_bytes() }
}

/// Relies on cosmwasm_std::Uint256's `PartialOrd`: numeric order.
#[verifier::external_body]
pub(crate) fn wide_gt(a: Wide, b: Wide) -> (r: bool)
    ensures
        r == (a.value() > b.value()),
{
    Uint256::from_be_bytes(a.be) > Uint256::from_be_bytes(b.be)
}

/// The product of two 128-bit numbers, which always fits in 256 bits.
pub fn full_mul(a: u128, b: u128) -> (r: Wide)
    ensures
        r.value() == a * b,
{
    let x = widen(a);
    let y = widen(b);
    proof {
        assert(a * b < wide_bound()) by (nonlinear_arith)
            requires
                a <= u128::MAX,
                b <= u128::MAX,
        ;
    }
    wide_mul(x, y).unwrap()
}

} // verus!
