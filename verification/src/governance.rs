use vstd::prelude::*;
use crate::errors::ErrorCode;
use crate::events::{ParameterUpdateCanceled, ParameterUpdateExecuted, ParameterUpdateProposed};
use crate::vault::{
    require_authority, AccountId, Vault, MAX_BPS, MAX_DELAY_SECONDS, MIN_DELAY_SECONDS,
};

verus! {

/// A proposed burn rate is acceptable when absent or within 10000 bps.
pub open spec fn valid_proposed_burn(new_burn_bps: Option<u16>) -> bool {
    new_burn_bps matches Some(b) ==> b <= MAX_BPS
}

/// A proposed delay is acceptable when absent or within the allowed window.
pub open spec fn valid_proposed_delay(new_delay_secs: Option<i64>) -> bool {
    new_delay_secs matches Some(d) ==> MIN_DELAY_SECONDS <= d <= MAX_DELAY_SECONDS
}

/// The vault after a successful proposal: each supplied field lands in its
/// pending slot, an omitted field leaves any earlier pending value in place,
/// and the release time is recomputed from the currently live delay.
pub open spec fn propose_outcome(
    v: Vault,
    new_burn_bps: Option<u16>,
    new_delay_secs: Option<i64>,
    now: i64,
) -> Vault {
    Vault {
        pending_burn_percentage_bps: if new_burn_bps is Some {
            new_burn_bps
        } else {
            v.pending_burn_percentage_bps
        },
        pending_delay_seconds: if new_delay_secs is Some {
            new_delay_secs
        } else {
            v.pending_delay_seconds
        },
        pending_release_time: (now + v.delay_seconds) as i64,
        ..v
    }
}

/// The vault after a successful execution: each set pending field becomes
/// live, both pending slots are cleared, and the release time returns to 0.
pub open spec fn execute_outcome(v: Vault) -> Vault {
    Vault {
        burn_percentage_bps: match v.pending_burn_percentage_bps {
            Some(b) => b,
            None => v.burn_percentage_bps,
        },
        delay_seconds: match v.pending_delay_seconds {
            Some(d) => d,
            None => v.delay_seconds,
        },
        pending_burn_percentage_bps: None,
        pending_delay_seconds: None,
        pending_release_time: 0,
        ..v
    }
}

/// The vault after a cancellation: pending slots cleared, release time 0,
/// live parameters untouched.
pub open spec fn cancel_outcome(v: Vault) -> Vault {
    Vault {
        pending_burn_percentage_bps: None,
        pending_delay_seconds: None,
        pending_release_time: 0,
        ..v
    }
}

/// Schedule a change to the burn rate and/or the delay. Authority only; at
/// least one value must be supplied and each supplied value is validated
/// against the same bounds as at initialization. Supplied fields overwrite
/// the pending slots, omitted fields keep any earlier pending value, and
/// the wait restarts for the whole pending set: the release time becomes
/// `now` plus the currently live delay (not a proposed one).
pub fn propose_parameter_update(
    vault: &mut Vault,
    caller: AccountId,
    new_burn_bps: Option<u16>,
    new_delay_secs: Option<i64>,
    now: i64,
) -> (r: Result<ParameterUpdateProposed, ErrorCode>)
    requires
        old(vault).wf(),
        now + old(vault).delay_seconds <= i64::MAX,
    ensures
        final(vault).wf(),
        r is Err ==> *final(vault) == *old(vault),
        ({
            let v0 = *old(vault);
            &&& (caller != v0.authority ==> r == Err::<ParameterUpdateProposed, ErrorCode>(
                ErrorCode::Unauthorized,
            ))
            &&& (caller == v0.authority && new_burn_bps is None && new_delay_secs is None ==> r
                == Err::<ParameterUpdateProposed, ErrorCode>(ErrorCode::NoChangeProposed))
            &&& (caller == v0.authority && (new_burn_bps is Some || new_delay_secs is Some)
                && !valid_proposed_burn(new_burn_bps) ==> r == Err::<
                ParameterUpdateProposed,
                ErrorCode,
            >(ErrorCode::InvalidBurnPercentage))
            &&& (caller == v0.authority && (new_burn_bps is Some || new_delay_secs is Some)
                && valid_proposed_burn(new_burn_bps) && !valid_proposed_delay(new_delay_secs)
                ==> r == Err::<ParameterUpdateProposed, ErrorCode>(ErrorCode::InvalidDelay))
            &&& (caller == v0.authority && (new_burn_bps is Some || new_delay_secs is Some)
                && valid_proposed_burn(new_burn_bps) && valid_proposed_delay(new_delay_secs)
                ==> {
                &&& r == Ok::<ParameterUpdateProposed, ErrorCode>((ParameterUpdateProposed {
                    proposed_burn_bps: new_burn_bps,
                    proposed_delay_secs: new_delay_secs,
                    release_at: (now + v0.delay_seconds) as i64,
                }))
                &&& *final(vault) == propose_outcome(v0, new_burn_bps, new_delay_secs, now)
                &&& final(vault).has_pending()
            })
        }),
{
    if let Err(e) = require_authority(vault, caller) {
        return Err(e);
    }
    if new_burn_bps.is_none() && new_delay_secs.is_none() {
        return Err(ErrorCode::NoChangeProposed);
    }
    if let Some(bps) = new_burn_bps {
        if bps > MAX_BPS {
            return Err(ErrorCode::InvalidBurnPercentage);
        }
    }
    if let Some(secs) = new_delay_secs {
        if secs < MIN_DELAY_SECONDS || secs > MAX_DELAY_SECONDS {
            return Err(ErrorCode::InvalidDelay);
        }
    }
    if let Some(bps) = new_burn_bps {
        vault.pending_burn_percentage_bps = Some(bps);
    }
    if let Some(secs) = new_delay_secs {
        vault.pending_delay_seconds = Some(secs);
    }
    vault.pending_release_time = now + vault.delay_seconds;
    Ok(ParameterUpdateProposed {
        proposed_burn_bps: new_burn_bps,
        proposed_delay_secs: new_delay_secs,
        release_at: vault.pending_release_time,
    })
}

/// Apply the pending proposal. Authority only; fails when nothing is
/// pending, and while `now` is still before the release time. Succeeds
/// exactly at or after the release time: each set pending field becomes
/// live and the pending slot is cleared.
pub fn execute_parameter_update(vault: &mut Vault, caller: AccountId, now: i64) -> (r: Result<
    ParameterUpdateExecuted,
    ErrorCode,
>)
    requires
        old(vault).wf(),
    ensures
        final(vault).wf(),
        r is Err ==> *final(vault) == *old(vault),
        ({
            let v0 = *old(vault);
            &&& (caller != v0.authority ==> r == Err::<ParameterUpdateExecuted, ErrorCode>(
                ErrorCode::Unauthorized,
            ))
            &&& (caller == v0.authority && !v0.has_pending() ==> r == Err::<
                ParameterUpdateExecuted,
                ErrorCode,
            >(ErrorCode::NoPendingUpdate))
            &&& (caller == v0.authority && v0.has_pending() && now < v0.pending_release_time
                ==> r == Err::<ParameterUpdateExecuted, ErrorCode>(ErrorCode::TimelockNotExpired))
            &&& (caller == v0.authority && v0.has_pending() && now >= v0.pending_release_time
                ==> {
                &&& r == Ok::<ParameterUpdateExecuted, ErrorCode>((ParameterUpdateExecuted {}))
                &&& *final(vault) == execute_outcome(v0)
                &&& !final(vault).has_pending()
            })
        }),
{
    if let Err(e) = require_authority(vault, caller) {
        return Err(e);
    }
    if vault.pending_burn_percentage_bps.is_none() && vault.pending_delay_seconds.is_none() {
        return Err(ErrorCode::NoPendingUpdate);
    }
    if now < vault.pending_release_time {
        return Err(ErrorCode::TimelockNotExpired);
    }
    if let Some(bps) = vault.pending_burn_percentage_bps {
        vault.burn_percentage_bps = bps;
    }
    if let Some(secs) = vault.pending_delay_seconds {
        vault.delay_seconds = secs;
    }
    vault.pending_burn_percentage_bps = None;
    vault.pending_delay_seconds = None;
    vault.pending_release_time = 0;
    Ok(ParameterUpdateExecuted {})
}

/// Discard the pending proposal without applying it. Authority only; fails
/// when nothing is pending. Live parameters are untouched.
pub fn cancel_parameter_proposal(vault: &mut Vault, caller: AccountId) -> (r: Result<
    ParameterUpdateCanceled,
    ErrorCode,
>)
    requires
        old(vault).wf(),
    ensures
        final(vault).wf(),
        r is Err ==> *final(vault) == *old(vault),
        ({
            let v0 = *old(vault);
            &&& (caller != v0.authority ==> r == Err::<ParameterUpdateCanceled, ErrorCode>(
                ErrorCode::Unauthorized,
            ))
            &&& (caller == v0.authority && !v0.has_pending() ==> r == Err::<
                ParameterUpdateCanceled,
                ErrorCode,
            >(ErrorCode::NoPendingUpdate))
            &&& (caller == v0.authority && v0.has_pending() ==> {
                &&& r == Ok::<ParameterUpdateCanceled, ErrorCode>((ParameterUpdateCanceled {}))
                &&& *final(vault) == cancel_outcome(v0)
                &&& !final(vault).has_pending()
            })
        }),
{
    if let Err(e) = require_authority(vault, caller) {
        return Err(e);
    }
    if vault.pending_burn_percentage_bps.is_none() && vault.pending_delay_seconds.is_none() {
        return Err(ErrorCode::NoPendingUpdate);
    }
    vault.pending_burn_percentage_bps = None;
    vault.pending_delay_seconds = None;
    vault.pending_release_time = 0;
    Ok(ParameterUpdateCanceled {})
}

/// Proposing and then executing applies exactly the proposed values: a field
/// supplied to the proposal becomes live; a field never proposed (neither in
/// this proposal nor pending from an earlier one) keeps its live value.
/// Afterwards nothing is pending, the release time is 0, and the authority,
/// balance and fee rate are untouched.
pub proof fn lemma_propose_execute_round_trip(
    v: Vault,
    new_burn_bps: Option<u16>,
    new_delay_secs: Option<i64>,
    now: i64,
)
    requires
        new_burn_bps is Some || new_delay_secs is Some,
    ensures
        ({
            let v2 = execute_outcome(propose_outcome(v, new_burn_bps, new_delay_secs, now));
            &&& (new_burn_bps matches Some(b) ==> v2.burn_percentage_bps == b)
            &&& (new_burn_bps is None && v.pending_burn_percentage_bps is None
                ==> v2.burn_percentage_bps == v.burn_percentage_bps)
            &&& (new_delay_secs matches Some(d) ==> v2.delay_seconds == d)
            &&& (new_delay_secs is None && v.pending_delay_seconds is None
                ==> v2.delay_seconds == v.delay_seconds)
            &&& v2.pending_burn_percentage_bps is None
            &&& v2.pending_delay_seconds is None
            &&& v2.pending_release_time == 0
            &&& v2.authority == v.authority
            &&& v2.total_accrued == v.total_accrued
            &&& v2.fee_basis_points == v.fee_basis_points
        }),
{
}

/// Proposing and then canceling leaves every live parameter exactly as it
/// was and clears the pending state entirely.
pub proof fn lemma_propose_cancel_round_trip(
    v: Vault,
    new_burn_bps: Option<u16>,
    new_delay_secs: Option<i64>,
    now: i64,
)
    ensures
        ({
            let v2 = cancel_outcome(propose_outcome(v, new_burn_bps, new_delay_secs, now));
            &&& v2.burn_percentage_bps == v.burn_percentage_bps
            &&& v2.delay_seconds == v.delay_seconds
            &&& v2.fee_basis_points == v.fee_basis_points
            &&& v2.authority == v.authority
            &&& v2.total_accrued == v.total_accrued
            &&& v2.pending_burn_percentage_bps is None
            &&& v2.pending_delay_seconds is None
            &&& v2.pending_release_time == 0
        }),
{
}

} // verus!
