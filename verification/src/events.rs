use vstd::prelude::*;
use crate::vault::AccountId;

verus! {

/// Emitted after a successful contribution: who paid, the gross amount, the
/// burned and net split, and the balance after accrual.
#[derive(Clone, Copy, Debug, PartialEq, Eq)]
pub struct FeeAccrued {
    pub payer: AccountId,
    pub gross: u64,
    pub burned: u64,
    pub net: u64,
    pub total_accrued: u64,
}

/// Emitted after a successful manual burn.
#[derive(Clone, Copy, Debug, PartialEq, Eq)]
pub struct SolBurned {
    pub amount: u64,
    pub remaining: u64,
}

/// Emitted after a successful distribution to a recipient.
#[derive(Clone, Copy, Debug, PartialEq, Eq)]
pub struct RewardsDistributed {
    pub recipient: AccountId,
    pub amount: u64,
    pub remaining: u64,
}

/// Emitted after a successful proposal: the values proposed in this call
/// (possibly only one set) and the release time computed for the whole
/// pending set.
#[derive(Clone, Copy, Debug, PartialEq, Eq)]
pub struct ParameterUpdateProposed {
    pub proposed_burn_bps: Option<u16>,
    pub proposed_delay_secs: Option<i64>,
    pub release_at: i64,
}

/// Emitted after a pending proposal is applied.
#[derive(Clone, Copy, Debug, PartialEq, Eq)]
pub struct ParameterUpdateExecuted {}

/// Emitted after a pending proposal is discarded.
#[derive(Clone, Copy, Debug, PartialEq, Eq)]
pub struct ParameterUpdateCanceled {}

} // verus!
