use sol_forge::accounting::{accrue_fee, burn_sol, distribute_rewards};
use sol_forge::errors::ErrorCode;
use sol_forge::events::ParameterUpdateProposed;
use sol_forge::governance::{
    cancel_parameter_proposal, execute_parameter_update, propose_parameter_update,
};
use sol_forge::vault::{initialize_vault, AccountId, Vault};

const AUTH: AccountId = AccountId(7);

fn fresh_vault() -> Vault {
    initialize_vault(AUTH, 0, 1000, Some(3600)).unwrap()
}

#[test]
fn propose_requires_the_authority() {
    let mut v = fresh_vault();
    let before = v;
    assert_eq!(
        propose_parameter_update(&mut v, AccountId(8), Some(500), None, 0),
        Err(ErrorCode::Unauthorized)
    );
    assert_eq!(v, before);
}

#[test]
fn propose_rejects_an_empty_proposal() {
    let mut v = fresh_vault();
    let before = v;
    assert_eq!(
        propose_parameter_update(&mut v, AUTH, None, None, 0),
        Err(ErrorCode::NoChangeProposed)
    );
    assert_eq!(v, before);
}

#[test]
fn propose_validates_each_supplied_value() {
    let mut v = fresh_vault();
    let before = v;
    assert_eq!(
        propose_parameter_update(&mut v, AUTH, Some(10_001), None, 0),
        Err(ErrorCode::InvalidBurnPercentage)
    );
    assert_eq!(
        propose_parameter_update(&mut v, AUTH, None, Some(3_599), 0),
        Err(ErrorCode::InvalidDelay)
    );
    assert_eq!(
        propose_parameter_update(&mut v, AUTH, None, Some(604_801), 0),
        Err(ErrorCode::InvalidDelay)
    );
    assert_eq!(v, before);
}

#[test]
fn propose_records_pending_values_and_release_time() {
    let mut v = fresh_vault();
    let ev = propose_parameter_update(&mut v, AUTH, Some(500), Some(7200), 1_000).unwrap();
    assert_eq!(
        ev,
        ParameterUpdateProposed {
            proposed_burn_bps: Some(500),
            proposed_delay_secs: Some(7200),
            release_at: 4_600,
        }
    );
    assert_eq!(v.pending_burn_percentage_bps, Some(500));
    assert_eq!(v.pending_delay_seconds, Some(7200));
    assert_eq!(v.pending_release_time, 4_600);
    // Live parameters do not move until execution.
    assert_eq!(v.burn_percentage_bps, 1000);
    assert_eq!(v.delay_seconds, 3600);
}

#[test]
fn proposals_accumulate_field_by_field() {
    let mut v = fresh_vault();
    propose_parameter_update(&mut v, AUTH, Some(500), None, 0).unwrap();
    assert_eq!(v.pending_release_time, 3_600);
    // A later delay-only proposal keeps the earlier burn change pending and
    // restarts the wait for the whole set.
    propose_parameter_update(&mut v, AUTH, None, Some(7200), 1_000).unwrap();
    assert_eq!(v.pending_burn_percentage_bps, Some(500));
    assert_eq!(v.pending_delay_seconds, Some(7200));
    assert_eq!(v.pending_release_time, 4_600);
}

#[test]
fn execute_requires_a_pending_proposal() {
    let mut v = fresh_vault();
    assert_eq!(
        execute_parameter_update(&mut v, AUTH, 1_000_000),
        Err(ErrorCode::NoPendingUpdate)
    );
}

#[test]
fn execute_respects_the_timelock_boundary() {
    let mut v = fresh_vault();
    propose_parameter_update(&mut v, AUTH, Some(500), None, 0).unwrap();
    let before = v;
    assert_eq!(
        execute_parameter_update(&mut v, AUTH, 3_599),
        Err(ErrorCode::TimelockNotExpired)
    );
    assert_eq!(v, before);
    // Exactly at the release time the update goes through.
    execute_parameter_update(&mut v, AUTH, 3_600).unwrap();
    assert_eq!(v.burn_percentage_bps, 500);
}

#[test]
fn execute_applies_only_the_proposed_fields() {
    let mut v = fresh_vault();
    propose_parameter_update(&mut v, AUTH, None, Some(7200), 0).unwrap();
    execute_parameter_update(&mut v, AUTH, 10_000).unwrap();
    assert_eq!(v.burn_percentage_bps, 1000);
    assert_eq!(v.delay_seconds, 7200);
    assert_eq!(v.pending_burn_percentage_bps, None);
    assert_eq!(v.pending_delay_seconds, None);
    assert_eq!(v.pending_release_time, 0);
}

#[test]
fn execute_applies_both_fields_of_a_full_proposal() {
    let mut v = fresh_vault();
    propose_parameter_update(&mut v, AUTH, Some(0), Some(604_800), 0).unwrap();
    execute_parameter_update(&mut v, AUTH, 3_600).unwrap();
    assert_eq!(v.burn_percentage_bps, 0);
    assert_eq!(v.delay_seconds, 604_800);
}

#[test]
fn execute_requires_the_authority() {
    let mut v = fresh_vault();
    propose_parameter_update(&mut v, AUTH, Some(500), None, 0).unwrap();
    let before = v;
    assert_eq!(
        execute_parameter_update(&mut v, AccountId(8), 1_000_000),
        Err(ErrorCode::Unauthorized)
    );
    assert_eq!(v, before);
}

#[test]
fn cancel_clears_pending_without_touching_live_parameters() {
    let mut v = fresh_vault();
    propose_parameter_update(&mut v, AUTH, Some(500), Some(7200), 0).unwrap();
    cancel_parameter_proposal(&mut v, AUTH).unwrap();
    assert_eq!(v.burn_percentage_bps, 1000);
    assert_eq!(v.delay_seconds, 3600);
    assert_eq!(v.pending_burn_percentage_bps, None);
    assert_eq!(v.pending_delay_seconds, None);
    assert_eq!(v.pending_release_time, 0);
    // A canceled proposal can no longer be executed.
    assert_eq!(
        execute_parameter_update(&mut v, AUTH, 1_000_000),
        Err(ErrorCode::NoPendingUpdate)
    );
}

#[test]
fn cancel_requires_a_pending_proposal_and_the_authority() {
    let mut v = fresh_vault();
    assert_eq!(cancel_parameter_proposal(&mut v, AUTH), Err(ErrorCode::NoPendingUpdate));
    propose_parameter_update(&mut v, AUTH, Some(500), None, 0).unwrap();
    assert_eq!(
        cancel_parameter_proposal(&mut v, AccountId(8)),
        Err(ErrorCode::Unauthorized)
    );
    assert_eq!(v.pending_burn_percentage_bps, Some(500));
}

#[test]
fn full_lifecycle_scenario() {
    let mut v = initialize_vault(AUTH, 0, 1000, Some(3600)).unwrap();

    let ev = accrue_fee(&mut v, AccountId(9), 1_000_000).unwrap();
    assert_eq!(ev.burned, 100_000);
    assert_eq!(ev.net, 900_000);
    assert_eq!(v.total_accrued, 900_000);

    let burn = burn_sol(&mut v, AUTH, 500_000).unwrap();
    assert_eq!(burn.amount, 500_000);
    assert_eq!(v.total_accrued, 400_000);

    distribute_rewards(&mut v, AUTH, AccountId(11), 400_000).unwrap();
    assert_eq!(v.total_accrued, 0);

    let prop = propose_parameter_update(&mut v, AUTH, Some(500), None, 0).unwrap();
    assert_eq!(prop.release_at, 3_600);
    assert_eq!(
        execute_parameter_update(&mut v, AUTH, 3_599),
        Err(ErrorCode::TimelockNotExpired)
    );
    execute_parameter_update(&mut v, AUTH, 3_600).unwrap();
    assert_eq!(v.burn_percentage_bps, 500);
}
