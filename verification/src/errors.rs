use vstd::prelude::*;

verus! {

/// Why an operation was rejected.
///
/// A rejected operation leaves every ledger record exactly as it found it:
/// there is no partial application.
#[derive(Clone, Copy, Debug, PartialEq, Eq, Structural)]
pub enum StakingError {
    /// The caller asked to stake or withdraw a zero amount.
    AmountIsZero,
    /// The caller asked to withdraw more than they have staked.
    InsufficientStakedAmount,
    /// Fixed-point accrual arithmetic would overflow the 64-bit range.
    MathError,
    /// There is no unclaimed reward balance to pay out.
    NoRewards,
}

} // verus!
