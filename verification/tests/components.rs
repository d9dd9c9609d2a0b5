use safety_vault::actions::SafetyAction;
use safety_vault::errors::SafetyVaultError;
use safety_vault::oracle::{get_user_position, get_user_position_ltv, HEALTH_FACTOR_UNBOUNDED};
use safety_vault::state::{Backstop, VaultState, AMOUNT_LIMIT};
use safety_vault::vault::{SafetyVaultContract, DEFAULT_RISK_THRESHOLD_BPS};

const USER: u64 = 7;
const POOL: u64 = 1;
const ASSET: u64 = 2;

fn state_with(collateral: i128, debt: i128, balance: i128) -> VaultState {
    VaultState {
        position_id: String::from("XLM-123"),
        collateral,
        debt,
        balance,
        pools: vec![POOL],
        backstops: vec![Backstop { pool: POOL, reserve: 300 }],
        repay_assets: vec![ASSET],
    }
}

#[test]
fn oracle_reports_ratio_in_basis_points() {
    assert_eq!(get_user_position_ltv(&state_with(10000, 8000, 0)), 8000);
    assert_eq!(get_user_position_ltv(&state_with(10000, 0, 0)), 0);
    // A position with debt but no collateral is fully risky.
    assert_eq!(get_user_position_ltv(&state_with(0, 5, 0)), u32::MAX);
    // A position with neither collateral nor debt carries no risk.
    assert_eq!(get_user_position_ltv(&state_with(0, 0, 0)), 0);
    // Rounding is toward zero: 8500 * 10000 / 11000 = 7727.27...
    assert_eq!(get_user_position_ltv(&state_with(11000, 8500, 0)), 7727);
}

#[test]
fn oracle_snapshot_derives_all_fields() {
    let position = get_user_position(&state_with(11000, 8500, 0));
    assert_eq!(position.id, "XLM-123");
    assert_eq!(position.collateral, 11000);
    assert_eq!(position.debt, 8500);
    assert_eq!(position.ltv, 7727);
    // 11000 * 10000 / 8500 = 12941.17...
    assert_eq!(position.health_factor, 12941);
}

#[test]
fn debt_free_position_has_unbounded_health_factor() {
    let position = get_user_position(&state_with(10000, 0, 0));
    assert_eq!(position.health_factor, HEALTH_FACTOR_UNBOUNDED);
    assert_eq!(position.ltv, 0);
}

#[test]
fn unknown_pool_fails_top_up() {
    let vault = SafetyVaultContract::new();
    let mut state = state_with(10000, 8000, 2000);
    let actions = vec![SafetyAction::TopUpCollateral(99, 100)];
    let err = vault
        .execute_actions(USER, USER, &mut state, &actions)
        .unwrap_err();
    assert_eq!(err, SafetyVaultError::PoolNotFound);
    assert_eq!(state.collateral, 10000);
}

#[test]
fn pool_without_backstop_fails_claim() {
    let vault = SafetyVaultContract::new();
    let mut state = state_with(10000, 8000, 2000);
    let actions = vec![SafetyAction::ClaimInsurance(99)];
    let err = vault
        .execute_actions(USER, USER, &mut state, &actions)
        .unwrap_err();
    assert_eq!(err, SafetyVaultError::PoolNotFound);
    assert_eq!(state.balance, 2000);
}

#[test]
fn unknown_debt_asset_fails_repay() {
    let vault = SafetyVaultContract::new();
    let mut state = state_with(10000, 8000, 2000);
    let actions = vec![SafetyAction::PartialRepay(99, 100)];
    let err = vault
        .execute_actions(USER, USER, &mut state, &actions)
        .unwrap_err();
    assert_eq!(err, SafetyVaultError::PoolNotFound);
    assert_eq!(state.debt, 8000);
}

#[test]
fn short_balance_fails_top_up() {
    let vault = SafetyVaultContract::new();
    let mut state = state_with(10000, 8000, 2000);
    let actions = vec![SafetyAction::TopUpCollateral(POOL, 5000)];
    let err = vault
        .execute_actions(USER, USER, &mut state, &actions)
        .unwrap_err();
    assert_eq!(err, SafetyVaultError::InsufficientBalance);
    assert_eq!(state.balance, 2000);
}

#[test]
fn empty_reserve_declines_claim() {
    let vault = SafetyVaultContract::new();
    let mut state = state_with(10000, 8000, 2000);
    state.backstops = vec![Backstop { pool: POOL, reserve: 0 }];
    let actions = vec![SafetyAction::ClaimInsurance(POOL)];
    let err = vault
        .execute_actions(USER, USER, &mut state, &actions)
        .unwrap_err();
    assert_eq!(err, SafetyVaultError::InsuranceClaimFailed);
    assert_eq!(state.balance, 2000);
}

#[test]
fn payout_past_the_ledger_limit_fails_claim() {
    let vault = SafetyVaultContract::new();
    let mut state = state_with(10000, 8000, AMOUNT_LIMIT);
    let actions = vec![SafetyAction::ClaimInsurance(POOL)];
    let err = vault
        .execute_actions(USER, USER, &mut state, &actions)
        .unwrap_err();
    assert_eq!(err, SafetyVaultError::InsuranceClaimFailed);
    assert_eq!(state.balance, AMOUNT_LIMIT);
    assert_eq!(state.backstops, vec![Backstop { pool: POOL, reserve: 300 }]);
}

#[test]
fn repaying_more_than_owed_fails() {
    let vault = SafetyVaultContract::new();
    // Debt 800 against collateral 1000: at risk, but a repayment of 1900
    // exceeds the outstanding debt.
    let mut state = state_with(1000, 800, 2000);
    let actions = vec![SafetyAction::PartialRepay(ASSET, 1900)];
    let err = vault
        .execute_actions(USER, USER, &mut state, &actions)
        .unwrap_err();
    assert_eq!(err, SafetyVaultError::ActionExecutionFailed);
    assert_eq!(state.debt, 800);
    assert_eq!(state.balance, 2000);
}

#[test]
fn non_positive_repay_amount_is_invalid() {
    let vault = SafetyVaultContract::new();
    for amount in [0, -500] {
        let mut state = state_with(10000, 8000, 2000);
        let actions = vec![SafetyAction::PartialRepay(ASSET, amount)];
        let err = vault
            .execute_actions(USER, USER, &mut state, &actions)
            .unwrap_err();
        assert_eq!(err, SafetyVaultError::InvalidAction);
        assert_eq!(state.debt, 8000);
    }
}

#[test]
fn default_threshold_is_seven_thousand_basis_points() {
    assert_eq!(DEFAULT_RISK_THRESHOLD_BPS, 7000);
    let vault = SafetyVaultContract::new();
    assert_eq!(vault.risk_threshold_bps, 7000);
}

#[test]
fn get_info_describes_the_vault() {
    let vault = SafetyVaultContract::new();
    assert_eq!(vault.get_info(), "SafetyVault v1.0 - BlendGuard Hackathon");
}
