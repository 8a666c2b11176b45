use vstd::prelude::*;

verus! {

/// The error kinds surfaced by the settlement core.
///
/// Every failure of the core is reported as exactly one of these; none is
/// retried internally, and a failing operation commits no state change.
#[derive(Clone, Copy, Debug, PartialEq, Eq, Structural)]
pub enum ErrorCode {
    /// The precision argument of a deviation calculation is zero or not a
    /// multiple of one hundred.
    InvalidPrecision,
    /// An arithmetic divisor is zero-valued, including the deviation
    /// formula's case where observed value and target sum to zero.
    DivisionByZero,
    /// A staker's balance is below the requested stake amount.
    InsufficientFunds,
    /// A supplied vault, account or mint does not belong to the supplied
    /// agreement and side; a caller-side programming error.
    VaultMismatch,
}

} // verus!
