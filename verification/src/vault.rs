use vstd::prelude::*;
use crate::errors::ErrorCode;

verus! {

/// Delay applied to governance proposals when none is chosen at
/// initialization: 24 hours.
pub const DEFAULT_DELAY_SECONDS: i64 = 86_400;

/// Smallest allowed governance delay: 1 hour.
pub const MIN_DELAY_SECONDS: i64 = 3_600;

/// Largest allowed governance delay: 7 days.
pub const MAX_DELAY_SECONDS: i64 = 604_800;

/// Dust-protection floor on manual burns and distributions.
pub const MIN_BURN_AMOUNT_LAMPORTS: u64 = 100_000;

/// Rates are expressed in basis points; 10000 bps is 100%.
pub const MAX_BPS: u16 = 10_000;

/// Identity handle for an account taking part in vault operations. The host
/// environment authenticates callers; the vault only compares handles.
#[derive(Clone, Copy, Debug, PartialEq, Eq, Structural)]
pub struct AccountId(pub u64);

/// The singleton treasury record: the accrued balance, the live parameters,
/// and the single pending-governance-change slot.
#[derive(Clone, Copy, Debug, PartialEq, Eq)]
pub struct Vault {
    /// Sole account permitted to burn, distribute or govern.
    pub authority: AccountId,
    /// Net balance currently owed, in the smallest value unit.
    pub total_accrued: u64,
    /// Reserved fee rate, informational in this core.
    pub fee_basis_points: u16,
    /// Fraction of each inbound contribution destroyed immediately.
    pub burn_percentage_bps: u16,
    /// Timelock window applied to future governance proposals.
    pub delay_seconds: i64,
    /// Proposed new burn rate; unset when not proposed.
    pub pending_burn_percentage_bps: Option<u16>,
    /// Proposed new delay; unset when not proposed.
    pub pending_delay_seconds: Option<i64>,
    /// Earliest time the pending proposal may be executed; 0 when none.
    pub pending_release_time: i64,
}

impl Vault {
    /// A proposal is pending exactly when at least one pending field is set.
    pub open spec fn has_pending(self) -> bool {
        self.pending_burn_percentage_bps is Some || self.pending_delay_seconds is Some
    }

    /// The record's invariant: rates within 10000 bps, delays within the
    /// allowed window, and a release time of 0 whenever nothing is pending.
    pub open spec fn wf(self) -> bool {
        &&& self.fee_basis_points <= MAX_BPS
        &&& self.burn_percentage_bps <= MAX_BPS
        &&& MIN_DELAY_SECONDS <= self.delay_seconds <= MAX_DELAY_SECONDS
        &&& (self.pending_burn_percentage_bps matches Some(b) ==> b <= MAX_BPS)
        &&& (self.pending_delay_seconds matches Some(d)
                ==> MIN_DELAY_SECONDS <= d <= MAX_DELAY_SECONDS)
        &&& (!self.has_pending() ==> self.pending_release_time == 0)
    }
}

/// The delay a vault is created with: the supplied one, or the default.
pub open spec fn chosen_delay(delay_seconds: Option<i64>) -> i64 {
    match delay_seconds {
        Some(d) => d,
        None => DEFAULT_DELAY_SECONDS,
    }
}

/// Shared authorization guard: every authority-gated operation consults this
/// one comparison, so the `Unauthorized` contract is uniform.
pub fn require_authority(vault: &Vault, caller: AccountId) -> (r: Result<(), ErrorCode>)
    ensures
        r is Ok <==> caller == vault.authority,
        r is Err ==> r == Err::<(), ErrorCode>(ErrorCode::Unauthorized),
{
    if caller == vault.authority {
        Ok(())
    } else {
        Err(ErrorCode::Unauthorized)
    }
}

/// Create the vault: validate the parameters, start with a zero balance and
/// no pending proposal. Rejects a fee or burn rate above 10000 bps and a
/// delay outside the allowed window; an omitted delay means the default.
pub fn initialize_vault(
    authority: AccountId,
    fee_bps: u16,
    burn_bps: u16,
    delay_seconds: Option<i64>,
) -> (r: Result<Vault, ErrorCode>)
    ensures
        ({
            let delay = chosen_delay(delay_seconds);
            &&& (fee_bps > MAX_BPS ==> r == Err::<Vault, ErrorCode>(ErrorCode::InvalidFeeRate))
            &&& (fee_bps <= MAX_BPS && burn_bps > MAX_BPS
                    ==> r == Err::<Vault, ErrorCode>(ErrorCode::InvalidBurnPercentage))
            &&& (fee_bps <= MAX_BPS && burn_bps <= MAX_BPS
                    && !(MIN_DELAY_SECONDS <= delay <= MAX_DELAY_SECONDS)
                    ==> r == Err::<Vault, ErrorCode>(ErrorCode::InvalidDelay))
            &&& (fee_bps <= MAX_BPS && burn_bps <= MAX_BPS
                    && MIN_DELAY_SECONDS <= delay <= MAX_DELAY_SECONDS
                    ==> r == Ok::<Vault, ErrorCode>((Vault {
                            authority,
                            total_accrued: 0,
                            fee_basis_points: fee_bps,
                            burn_percentage_bps: burn_bps,
                            delay_seconds: delay,
                            pending_burn_percentage_bps: None,
                            pending_delay_seconds: None,
                            pending_release_time: 0,
                        })))
            &&& (r matches Ok(v) ==> v.wf() && !v.has_pending())
        }),
{
    if fee_bps > MAX_BPS {
        return Err(ErrorCode::InvalidFeeRate);
    }
    if burn_bps > MAX_BPS {
        return Err(ErrorCode::InvalidBurnPercentage);
    }
    let delay: i64 = match delay_seconds {
        Some(d) => d,
        None => DEFAULT_DELAY_SECONDS,
    };
    if delay < MIN_DELAY_SECONDS || delay > MAX_DELAY_SECONDS {
        return Err(ErrorCode::InvalidDelay);
    }
    Ok(Vault {
        authority,
        total_accrued: 0,
        fee_basis_points: fee_bps,
        burn_percentage_bps: burn_bps,
        delay_seconds: delay,
        pending_burn_percentage_bps: None,
        pending_delay_seconds: None,
        pending_release_time: 0,
    })
}

} // verus!
