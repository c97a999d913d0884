use vstd::prelude::*;
use crate::errors::ErrorCode;
use crate::events::{FeeAccrued, RewardsDistributed, SolBurned};
use crate::vault::{require_authority, AccountId, Vault, MAX_BPS, MIN_BURN_AMOUNT_LAMPORTS};

verus! {

/// The fraction of a contribution destroyed on the way in:
/// floor(amount * bps / 10000).
pub open spec fn burn_amount_of(amount: u64, bps: u16) -> int {
    amount * bps / 10_000
}

/// For a rate of at most 10000 bps the burned part never exceeds the
/// contribution, so the net part is never negative.
pub proof fn lemma_burn_le_amount(amount: u64, bps: u16)
    requires
        bps <= MAX_BPS,
    ensures
        0 <= burn_amount_of(amount, bps) <= amount,
{
    assert(0 <= amount * bps / 10_000 <= amount) by (nonlinear_arith)
        requires
            bps <= 10_000,
            0 <= amount,
    {}
}

/// Split a contribution into its burned and net parts. The burned part is
/// exactly floor(amount * bps / 10000), computed with a wide intermediate so
/// no rate and amount in range can overflow; the parts always sum back to
/// the contribution.
pub fn burn_split(amount: u64, bps: u16) -> (r: (u64, u64))
    requires
        bps <= MAX_BPS,
    ensures
        r.0 == burn_amount_of(amount, bps),
        r.1 == amount - burn_amount_of(amount, bps),
        r.0 + r.1 == amount,
{
    proof {
        lemma_burn_le_amount(amount, bps);
        assert(amount * bps <= u64::MAX * 10_000) by (nonlinear_arith)
            requires
                amount <= u64::MAX,
                bps <= 10_000,
        {}
    }
    let wide: u128 = (amount as u128) * (bps as u128);
    let burned: u64 = (wide / 10_000) as u64;
    (burned, amount - burned)
}

/// Contribute `amount_lamports` to the vault. The host has already moved the
/// gross amount into vault custody and, for a positive burned part, moves it
/// on to the destruction sink; here the split is computed and the net part
/// accrued. Rejects a zero amount, and fails rather than wrap when the
/// accrued balance cannot take the net part.
pub fn accrue_fee(vault: &mut Vault, payer: AccountId, amount_lamports: u64) -> (r: Result<
    FeeAccrued,
    ErrorCode,
>)
    requires
        old(vault).wf(),
    ensures
        final(vault).wf(),
        r is Err ==> *final(vault) == *old(vault),
        ({
            let v0 = *old(vault);
            let burned = burn_amount_of(amount_lamports, v0.burn_percentage_bps);
            let net = amount_lamports - burned;
            &&& (amount_lamports == 0 ==> r == Err::<FeeAccrued, ErrorCode>(
                ErrorCode::AmountTooSmall,
            ))
            &&& (amount_lamports > 0 && v0.total_accrued + net > u64::MAX ==> r == Err::<
                FeeAccrued,
                ErrorCode,
            >(ErrorCode::ArithmeticOverflow))
            &&& (amount_lamports > 0 && v0.total_accrued + net <= u64::MAX ==> {
                &&& r == Ok::<FeeAccrued, ErrorCode>((FeeAccrued {
                    payer,
                    gross: amount_lamports,
                    burned: burned as u64,
                    net: net as u64,
                    total_accrued: (v0.total_accrued + net) as u64,
                }))
                &&& *final(vault) == (Vault {
                    total_accrued: (v0.total_accrued + net) as u64,
                    ..v0
                })
            })
        }),
{
    if amount_lamports == 0 {
        return Err(ErrorCode::AmountTooSmall);
    }
    let split: (u64, u64) = burn_split(amount_lamports, vault.burn_percentage_bps);
    let net: u64 = split.1;
    if vault.total_accrued > u64::MAX - net {
        return Err(ErrorCode::ArithmeticOverflow);
    }
    vault.total_accrued = vault.total_accrued + net;
    Ok(FeeAccrued {
        payer,
        gross: amount_lamports,
        burned: split.0,
        net,
        total_accrued: vault.total_accrued,
    })
}

/// Burn `amount_lamports` of the accrued balance: the host moves that amount
/// from vault custody to the destruction sink. Authority only; rejects
/// amounts under the dust floor and amounts beyond the accrued balance.
pub fn burn_sol(vault: &mut Vault, caller: AccountId, amount_lamports: u64) -> (r: Result<
    SolBurned,
    ErrorCode,
>)
    requires
        old(vault).wf(),
    ensures
        final(vault).wf(),
        r is Err ==> *final(vault) == *old(vault),
        ({
            let v0 = *old(vault);
            &&& (caller != v0.authority ==> r == Err::<SolBurned, ErrorCode>(
                ErrorCode::Unauthorized,
            ))
            &&& (caller == v0.authority && amount_lamports < MIN_BURN_AMOUNT_LAMPORTS ==> r
                == Err::<SolBurned, ErrorCode>(ErrorCode::AmountTooSmall))
            &&& (caller == v0.authority && amount_lamports >= MIN_BURN_AMOUNT_LAMPORTS
                && amount_lamports > v0.total_accrued ==> r == Err::<SolBurned, ErrorCode>(
                ErrorCode::InsufficientBalance,
            ))
            &&& (caller == v0.authority && amount_lamports >= MIN_BURN_AMOUNT_LAMPORTS
                && amount_lamports <= v0.total_accrued ==> {
                &&& r == Ok::<SolBurned, ErrorCode>((SolBurned {
                    amount: amount_lamports,
                    remaining: (v0.total_accrued - amount_lamports) as u64,
                }))
                &&& *final(vault) == (Vault {
                    total_accrued: (v0.total_accrued - amount_lamports) as u64,
                    ..v0
                })
            })
        }),
{
    if let Err(e) = require_authority(vault, caller) {
        return Err(e);
    }
    if amount_lamports < MIN_BURN_AMOUNT_LAMPORTS {
        return Err(ErrorCode::AmountTooSmall);
    }
    if amount_lamports > vault.total_accrued {
        return Err(ErrorCode::InsufficientBalance);
    }
    vault.total_accrued = vault.total_accrued - amount_lamports;
    Ok(SolBurned { amount: amount_lamports, remaining: vault.total_accrued })
}

/// Send `amount_lamports` of the accrued balance to a recipient of the
/// authority's choosing: the host moves that amount from vault custody to
/// the recipient. Same guards and arithmetic as a manual burn.
pub fn distribute_rewards(
    vault: &mut Vault,
    caller: AccountId,
    recipient: AccountId,
    amount_lamports: u64,
) -> (r: Result<RewardsDistributed, ErrorCode>)
    requires
        old(vault).wf(),
    ensures
        final(vault).wf(),
        r is Err ==> *final(vault) == *old(vault),
        ({
            let v0 = *old(vault);
            &&& (caller != v0.authority ==> r == Err::<RewardsDistributed, ErrorCode>(
                ErrorCode::Unauthorized,
            ))
            &&& (caller == v0.authority && amount_lamports < MIN_BURN_AMOUNT_LAMPORTS ==> r
                == Err::<RewardsDistributed, ErrorCode>(ErrorCode::AmountTooSmall))
            &&& (caller == v0.authority && amount_lamports >= MIN_BURN_AMOUNT_LAMPORTS
                && amount_lamports > v0.total_accrued ==> r == Err::<
                RewardsDistributed,
                ErrorCode,
            >(ErrorCode::InsufficientBalance))
            &&& (caller == v0.authority && amount_lamports >= MIN_BURN_AMOUNT_LAMPORTS
                && amount_lamports <= v0.total_accrued ==> {
                &&& r == Ok::<RewardsDistributed, ErrorCode>((RewardsDistributed {
                    recipient,
                    amount: amount_lamports,
                    remaining: (v0.total_accrued - amount_lamports) as u64,
                }))
                &&& *final(vault) == (Vault {
                    total_accrued: (v0.total_accrued - amount_lamports) as u64,
                    ..v0
                })
            })
        }),
{
    if let Err(e) = require_authority(vault, caller) {
        return Err(e);
    }
    if amount_lamports < MIN_BURN_AMOUNT_LAMPORTS {
        return Err(ErrorCode::AmountTooSmall);
    }
    if amount_lamports > vault.total_accrued {
        return Err(ErrorCode::InsufficientBalance);
    }
    vault.total_accrued = vault.total_accrued - amount_lamports;
    Ok(RewardsDistributed {
        recipient,
        amount: amount_lamports,
        remaining: vault.total_accrued,
    })
}

} // verus!
