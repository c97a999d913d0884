use vstd::prelude::*;

verus! {

/// Every failure an operation can return. All failures are synchronous and
/// leave the vault unchanged; the caller decides whether to retry.
#[derive(Clone, Copy, Debug, PartialEq, Eq, Structural)]
pub enum ErrorCode {
    /// Fee rate above 10000 basis points.
    InvalidFeeRate,
    /// Burn percentage above 10000 basis points.
    InvalidBurnPercentage,
    /// Delay outside the allowed range.
    InvalidDelay,
    /// A counter update would overflow.
    ArithmeticOverflow,
    /// A counter update would underflow.
    ArithmeticUnderflow,
    /// Outbound amount exceeds the accrued balance.
    InsufficientBalance,
    /// Amount below the dust-protection threshold (or zero).
    AmountTooSmall,
    /// A proposal that names no parameter at all.
    NoChangeProposed,
    /// The timelock on the pending proposal has not yet expired.
    TimelockNotExpired,
    /// Execute or cancel with no pending proposal.
    NoPendingUpdate,
    /// Caller is not the recorded authority.
    Unauthorized,
}

} // verus!
