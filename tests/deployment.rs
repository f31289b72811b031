use mock_bridge_integration::error::DeployError;
use mock_bridge_integration::metadata::bridge_token_metadata;
use mock_bridge_integration::naming::{decimal_string, sub_account, token_name};
use mock_bridge_integration::portal::{
    funding_amount, settle_deploy, DeployContext, PortalTest, Step, BRIDGE_TOKEN_INIT_BALANCE,
    BRIDGE_TOKEN_NEW_GAS,
};
use mock_bridge_integration::saga::{Saga, Stage, TokenAccount};

fn context(height: u64, account: &str, byte_cost: u128) -> DeployContext {
    DeployContext {
        current_account: account.to_string(),
        block_height: height,
        storage_byte_cost: byte_cost,
    }
}

fn run(saga: &mut Saga, flags: &[bool]) {
    for f in flags {
        saga.settle(*f);
    }
}

#[test]
fn decimal_string_writes_digits() {
    assert_eq!(decimal_string(0), "0");
    assert_eq!(decimal_string(7), "7");
    assert_eq!(decimal_string(10), "10");
    assert_eq!(decimal_string(1234567890), "1234567890");
    assert_eq!(decimal_string(u64::MAX), "18446744073709551615");
}

#[test]
fn token_name_is_b_and_height() {
    assert_eq!(token_name(100), "b100");
    assert_eq!(token_name(0), "b0");
}

#[test]
fn sub_account_joins_with_dot() {
    assert_eq!(sub_account("b100", "portal.testnet"), "b100.portal.testnet");
    assert_eq!(sub_account("", ""), ".");
}

#[test]
fn bridge_token_metadata_fields() {
    let m = bridge_token_metadata(&"b7".to_string());
    assert_eq!(m.spec, "ft-1.0.0");
    assert_eq!(m.name, "b7");
    assert_eq!(m.symbol, "b7");
    assert_eq!(m.icon, Some(String::new()));
    assert_eq!(m.reference, None);
    assert_eq!(m.reference_hash, None);
    assert_eq!(m.decimals, 15);
}

#[test]
fn funding_amount_adds_storage_cost() {
    assert_eq!(funding_amount(0, 5), Some(BRIDGE_TOKEN_INIT_BALANCE));
    assert_eq!(
        funding_amount(1000, 10_000_000_000_000_000_000),
        Some(15_860_000_000_000_000_000_000)
    );
    assert_eq!(funding_amount(2, u128::MAX), None);
    assert_eq!(funding_amount(1, u128::MAX - BRIDGE_TOKEN_INIT_BALANCE), Some(u128::MAX));
    assert_eq!(funding_amount(1, u128::MAX - BRIDGE_TOKEN_INIT_BALANCE + 1), None);
}

#[test]
fn deploy_ft_plans_the_chain_at_height_100() {
    let mut portal = PortalTest::default();
    let code = vec![0u8; 300];
    let plan = portal
        .deploy_ft(&context(100, "portal.testnet", 10_000_000_000_000_000_000), &code)
        .unwrap();
    assert_eq!(plan.account, "b100.portal.testnet");
    assert_eq!(plan.callback_account, "portal.testnet");
    assert_eq!(plan.steps.len(), 6);
    assert_eq!(plan.steps[0], Step::CreateAccount);
    assert_eq!(plan.steps[1], Step::Fund { amount: 8_860_000_000_000_000_000_000 });
    assert_eq!(plan.steps[2], Step::GrantFullAccess);
    assert_eq!(plan.steps[3], Step::InstallCode);
    match &plan.steps[4] {
        Step::Initialize { metadata, asset_meta, seq_number, gas, deposit } => {
            assert_eq!(metadata.name, "b100");
            assert_eq!(metadata.symbol, "b100");
            assert_eq!(metadata.decimals, 15);
            assert_eq!(metadata.spec, "ft-1.0.0");
            assert!(asset_meta.is_empty());
            assert_eq!(*seq_number, 100);
            assert_eq!(*gas, BRIDGE_TOKEN_NEW_GAS);
            assert_eq!(*deposit, 0);
        }
        other => panic!("unexpected step {:?}", other),
    }
    assert_eq!(plan.steps[5], Step::Finish { ret: "b100.portal.testnet".to_string() });
    assert_eq!(portal, PortalTest::default());
}

#[test]
fn deploy_ft_is_deterministic_per_height_and_caller() {
    let mut portal = PortalTest::default();
    let code = vec![1u8, 2, 3];
    let a = portal.deploy_ft(&context(42, "alice.near", 1), &code).unwrap();
    let b = portal.deploy_ft(&context(42, "alice.near", 1), &code).unwrap();
    let c = portal.deploy_ft(&context(43, "alice.near", 1), &code).unwrap();
    let d = portal.deploy_ft(&context(42, "bob.near", 1), &code).unwrap();
    assert_eq!(a, b);
    assert_eq!(a.account, "b42.alice.near");
    assert_ne!(a.account, c.account);
    assert_ne!(a.account, d.account);
    let creations = a.steps.iter().filter(|s| **s == Step::CreateAccount).count();
    assert_eq!(creations, 1);
}

#[test]
fn deploy_ft_rejects_overflowing_funding() {
    let mut portal = PortalTest::default();
    let code = vec![0u8; 2];
    let r = portal.deploy_ft(&context(1, "p.near", u128::MAX), &code);
    assert_eq!(r, Err(DeployError::FundingOverflow));
}

#[test]
fn finish_deploy_returns_name_on_success() {
    let mut portal = PortalTest::default();
    let me = "portal.testnet".to_string();
    let r = portal.finish_deploy(&me, &me, true, "b100.portal.testnet".to_string());
    assert_eq!(r, Ok("b100.portal.testnet".to_string()));
}

#[test]
fn finish_deploy_aborts_on_failure() {
    let mut portal = PortalTest::default();
    let me = "portal.testnet".to_string();
    let r = portal.finish_deploy(&me, &me, false, "b100.portal.testnet".to_string());
    assert_eq!(r, Err(DeployError::BadDeploy));
    assert_eq!(DeployError::BadDeploy.message(), "bad deploy");
}

#[test]
fn finish_deploy_rejects_other_callers() {
    let mut portal = PortalTest::default();
    let me = "portal.testnet".to_string();
    for other in ["b100.portal.testnet", "alice.near", ""] {
        for ok in [true, false] {
            let r = portal.finish_deploy(&other.to_string(), &me, ok, "x".to_string());
            assert_eq!(r, Err(DeployError::Unauthorized));
        }
    }
    assert_eq!(DeployError::Unauthorized.message(), "Method finish_deploy is private");
}

#[test]
fn settle_deploy_passes_value_through() {
    assert_eq!(settle_deploy(true, "n".to_string()), Ok("n".to_string()));
    assert_eq!(settle_deploy(false, "n".to_string()), Err(DeployError::BadDeploy));
}

#[test]
fn scenario_full_success() {
    let mut portal = PortalTest::default();
    let code = vec![0u8; 100];
    let plan = portal.deploy_ft(&context(100, "caller.near", 1), &code).unwrap();
    let funding = BRIDGE_TOKEN_INIT_BALANCE + 100;
    let mut saga = Saga::new(plan.account.clone(), funding);
    run(&mut saga, &[true, true, true, true, true]);
    assert_eq!(saga.stage, Stage::Initialized);
    assert_eq!(
        saga.account,
        TokenAccount {
            exists: true,
            balance: funding,
            full_access: true,
            code_installed: true,
            initialized: true,
        }
    );
    assert_eq!(saga.complete(), Ok("b100.caller.near".to_string()));
    assert_eq!(saga.stage, Stage::Completed);
}

#[test]
fn scenario_funding_fails() {
    let mut saga = Saga::new("b100.caller.near".to_string(), 10);
    run(&mut saga, &[true, false, true, true, true]);
    assert_eq!(saga.stage, Stage::Failed);
    assert!(saga.account.exists);
    assert_eq!(saga.account.balance, 0);
    assert!(!saga.account.code_installed);
    assert!(!saga.account.initialized);
    let r = saga.complete();
    assert_eq!(r, Err(DeployError::BadDeploy));
    assert_eq!(r.unwrap_err().message(), "bad deploy");
}

#[test]
fn scenario_initializer_runs_out_of_gas() {
    let mut saga = Saga::new("b100.caller.near".to_string(), 10);
    run(&mut saga, &[true, true, true, true, false]);
    assert_eq!(saga.stage, Stage::Failed);
    assert_eq!(
        saga.account,
        TokenAccount {
            exists: true,
            balance: 10,
            full_access: true,
            code_installed: true,
            initialized: false,
        }
    );
    assert_eq!(saga.complete(), Err(DeployError::BadDeploy));
    assert!(saga.account.code_installed);
}

#[test]
fn failure_at_any_step_gives_the_same_abort() {
    for k in 0..5 {
        let mut saga = Saga::new("n".to_string(), 3);
        let flags: Vec<bool> = (0..5).map(|i| i != k).collect();
        run(&mut saga, &flags);
        assert_eq!(saga.complete(), Err(DeployError::BadDeploy));
        assert_eq!(saga.account.exists, k >= 1);
        assert!(!saga.account.initialized);
    }
}

#[test]
fn same_name_race_second_creation_fails() {
    let mut first = Saga::new("b5.p.near".to_string(), 3);
    let mut second = Saga::new("b5.p.near".to_string(), 3);
    first.settle(true);
    second.settle(false);
    run(&mut second, &[true, true, true, true]);
    assert!(first.account.exists);
    assert_eq!(second.stage, Stage::Failed);
    assert!(!second.account.exists);
    assert_eq!(second.account.balance, 0);
    assert_eq!(second.complete(), Err(DeployError::BadDeploy));
}

#[test]
fn complete_on_unfinished_chain_aborts() {
    let mut saga = Saga::new("n".to_string(), 3);
    run(&mut saga, &[true, true]);
    assert_eq!(saga.stage, Stage::Funded);
    assert_eq!(saga.complete(), Err(DeployError::BadDeploy));
    assert_eq!(saga.stage, Stage::Failed);
}
