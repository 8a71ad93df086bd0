//! Fixed-point and wide-integer helpers shared by the ledger and the swap calculator.

use cosmwasm_std::Uint128;
use vstd::prelude::*;

verus! {

/// Number of atomic units in one whole unit of a `Decimal` (18 decimal places).
pub const DECIMAL_FRACTIONAL: u128 = 1_000_000_000_000_000_000;

/// `floor(a * num / den)`, the result of a ratio multiplication.
pub open spec fn ratio(a: int, num: int, den: int) -> int {
    a * num / den
}

/// Whether a ratio multiplication succeeds: a non-zero denominator and a quotient
/// that fits in 128 bits.
pub open spec fn ratio_fits(a: int, num: int, den: int) -> bool {
    den != 0 && ratio(a, num, den) <= u128::MAX
}

/// Relies on cosmwasm_std::Uint128::checked_multiply_ratio: it returns
/// `floor(self * numerator / denominator)`, computed through a 256-bit product,
/// and fails exactly when the denominator is zero or the quotient leaves 128 bits.
#[verifier::external_body]
pub(crate) fn checked_multiply_ratio(a: u128, num: u128, den: u128) -> (r: Option<u128>)
    ensures
        r.is_some() == ratio_fits(a as int, num as int, den as int),
        r.is_some() ==> r.unwrap() == ratio(a as int, num as int, den as int),
{
    Uint128::new(a).checked_multiply_ratio(num, den).ok().map(|v| v.u128())
}

/// A non-negative fixed-point number with 18 decimal places, held as its count of
/// atomic units (`value = atomics / 10^18`).
#[derive(Clone, Copy, Debug, PartialEq, Eq, Structural)]
pub struct Decimal {
    pub atomics: u128,
}

/// `floor(amount * d)`: an integer amount scaled by a decimal, rounded down.
pub open spec fn scale(amount: int, d: Decimal) -> int {
    ratio(amount, d.atomics as int, DECIMAL_FRACTIONAL as int)
}

/// The decimal `floor(num * 10^18 / den) / 10^18`, counted in atomics.
pub open spec fn ratio_atomics(num: int, den: int) -> int {
    ratio(num, DECIMAL_FRACTIONAL as int, den)
}

impl Decimal {
    pub fn zero() -> (r: Decimal)
        ensures
            r.atomics == 0,
    {
        Decimal { atomics: 0 }
    }

    pub fn one() -> (r: Decimal)
        ensures
            r.atomics == DECIMAL_FRACTIONAL,
    {
        Decimal { atomics: DECIMAL_FRACTIONAL }
    }

    /// The decimal `x / 10^18`.
    pub fn from_atomics(x: u128) -> (r: Decimal)
        ensures
            r.atomics == x,
    {
        Decimal { atomics: x }
    }

    /// The decimal `p / 100`.
    pub fn percent(p: u64) -> (r: Decimal)
        ensures
            r.atomics == p * 10_000_000_000_000_000,
    {
        Decimal { atomics: (p as u128) * 10_000_000_000_000_000 }
    }

    /// The decimal `p / 1000`.
    pub fn permille(p: u64) -> (r: Decimal)
        ensures
            r.atomics == p * 1_000_000_000_000_000,
    {
        Decimal { atomics: (p as u128) * 1_000_000_000_000_000 }
    }

    pub fn is_zero(&self) -> (r: bool)
        ensures
            r == (self.atomics == 0),
    {
        self.atomics == 0
    }

    /// `num / den` rounded down to 18 places; `None` when `den` is zero or the
    /// result does not fit.
    pub fn checked_from_ratio(num: u128, den: u128) -> (r: Option<Decimal>)
        ensures
            r.is_some() == ratio_fits(num as int, DECIMAL_FRACTIONAL as int, den as int),
            r.is_some() ==> r.unwrap().atomics == ratio_atomics(num as int, den as int),
    {
        match checked_multiply_ratio(num, DECIMAL_FRACTIONAL, den) {
            Some(a) => Some(Decimal { atomics: a }),
            None => None,
        }
    }

    pub fn checked_add(self, other: Decimal) -> (r: Option<Decimal>)
        ensures
            r.is_some() == (self.atomics + other.atomics <= u128::MAX),
            r.is_some() ==> r.unwrap().atomics == self.atomics + other.atomics,
    {
        if self.atomics <= u128::MAX - other.atomics {
            Some(Decimal { atomics: self.atomics + other.atomics })
        } else {
            None
        }
    }

    pub fn checked_sub(self, other: Decimal) -> (r: Option<Decimal>)
        ensures
            r.is_some() == (self.atomics >= other.atomics),
            r.is_some() ==> r.unwrap().atomics == self.atomics - other.atomics,
    {
        if self.atomics >= other.atomics {
            Some(Decimal { atomics: self.atomics - other.atomics })
        } else {
            None
        }
    }

    /// `floor(amount * self)`; `None` when the product does not fit in 128 bits.
    pub fn checked_mul_amount(self, amount: u128) -> (r: Option<u128>)
        ensures
            r.is_some() == (scale(amount as int, self) <= u128::MAX),
            r.is_some() ==> r.unwrap() == scale(amount as int, self),
    {
        checked_multiply_ratio(amount, self.atomics, DECIMAL_FRACTIONAL)
    }
}

} // verus!
