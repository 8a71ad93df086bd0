//! The ways in which a ledger, swap or compound computation refuses its inputs.

use vstd::prelude::*;

verus! {

#[derive(Clone, Copy, Debug, PartialEq, Eq, Structural)]
pub enum FarmError {
    /// The caller is not the configured controller or owner.
    Unauthorized,
    /// An underflow, overflow or division by zero in share or balance arithmetic.
    Arithmetic,
    /// A withdrawal larger than the depositor's entitlement.
    ExceedsBond,
    /// An unregistered pool, or a depositor without a position.
    NotFound,
    /// A slippage tolerance above one half.
    SlippageTooHigh,
}

} // verus!
