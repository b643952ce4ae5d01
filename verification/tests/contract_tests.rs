//! Unit tests of the contract's operations, driven through the
//! verified library with the host context supplied as plain values,
//! plus the end-to-end scenarios.
use owner_vault::model::{HostContext, Participant, VaultError};
use owner_vault::Contract;

fn default_context(caller: &str) -> HostContext {
    HostContext {
        caller: caller.to_string(),
        balance: 10u128.pow(26),
        storage_reserve: 1024 * 300,
        prepaid_gas: 1_000_000_000_000_000,
    }
}

#[test]
fn test_check_owner() {
    let contract = Contract::new("bob".to_string());
    assert_eq!(contract.owner(), "bob".to_string());
}

#[test]
fn test_transfer_ownership() {
    let mut contract = Contract::new("bob".to_string());
    let caller = "bob".to_string();
    let r = contract.transfer_ownership(&caller, "charlie".to_string());
    assert!(r.is_ok());
    assert_eq!(contract.owner(), "charlie".to_string());
}

#[test]
fn test_distribute_airdrop() {
    let mut contract = Contract::new("bob".to_string());
    let caller = "bob".to_string();
    let one_near: u128 = 10u128.pow(24);
    let accounts = ["a.testnet", "b.testnet", "c.testnet"];
    let participants: Vec<Participant> = accounts
        .iter()
        .map(|a| Participant { account: a.to_string(), amount: one_near })
        .collect();
    let r = contract.airdrop(&caller, participants);
    assert!(r.is_ok());
}

#[test]
fn test_withdraw() {
    let mut contract = Contract::new("bob".to_string());
    let ctx = default_context("bob");
    let withdraw_amount = 10 * 10u128.pow(24);
    let req = contract
        .withdraw(&ctx, withdraw_amount, "charlie".to_string())
        .unwrap();
    assert_eq!(req.amount, withdraw_amount);
    assert_eq!(req.beneficiary, "charlie".to_string());
}

#[test]
fn test_withdraw_all() {
    let mut contract = Contract::new("bob".to_string());
    let ctx = default_context("bob");
    let req = contract.withdraw_all(&ctx, "charlie".to_string()).unwrap();
    assert_eq!(req.amount, ctx.balance - ctx.storage_reserve);
    assert_eq!(req.beneficiary, "charlie".to_string());
}

#[test]
fn scenario_withdraw_all_then_callback() {
    let mut contract = Contract::new("alice".to_string());
    let ctx = default_context("alice");
    let req = contract.withdraw_all(&ctx, "bob".to_string()).unwrap();
    let expected_amount = ctx.balance - ctx.storage_reserve;
    assert_eq!(req.amount, expected_amount);

    let (ok, event) = Contract::on_withdraw(true, req.amount, req.beneficiary);
    assert!(ok);
    let ev = event.unwrap();
    assert_eq!(ev.standard, "nep333".to_string());
    assert_eq!(ev.version, "0.1.0".to_string());
    assert_eq!(ev.event, "balance_withdrawn".to_string());
    let data = ev.data.unwrap();
    assert_eq!(data.len(), 2);
    assert_eq!(data[0].0, "amount".to_string());
    assert_eq!(data[0].1, expected_amount.to_string());
    assert_eq!(data[1].0, "beneficiary".to_string());
    assert_eq!(data[1].1, "bob".to_string());

    assert_eq!(contract.owner(), "alice".to_string());
}

#[test]
fn scenario_transfer_then_non_owner_airdrop() {
    let mut contract = Contract::new("alice".to_string());
    let alice = "alice".to_string();
    let r = contract.transfer_ownership(&alice, "carol".to_string());
    assert!(r.is_ok());

    let bob = "bob".to_string();
    let participants = vec![
        Participant { account: "a.testnet".to_string(), amount: 1 },
        Participant { account: "b.testnet".to_string(), amount: 2 },
    ];
    let r = contract.airdrop(&bob, participants);
    assert_eq!(r.unwrap_err(), VaultError::NotOwner);
    assert_eq!(contract.owner(), "carol".to_string());
}

#[test]
fn airdrop_issues_one_request_per_participant() {
    let mut contract = Contract::new("alice".to_string());
    let caller = "alice".to_string();
    let participants = vec![
        Participant { account: "p1.testnet".to_string(), amount: 5 },
        Participant { account: "p2.testnet".to_string(), amount: 7 },
        Participant { account: "p3.testnet".to_string(), amount: 11 },
    ];
    let reqs = contract.airdrop(&caller, participants).unwrap();
    assert_eq!(reqs.len(), 3);
    assert_eq!(reqs[0].account, "p1.testnet".to_string());
    assert_eq!(reqs[0].amount, 5);
    assert_eq!(reqs[1].account, "p2.testnet".to_string());
    assert_eq!(reqs[1].amount, 7);
    assert_eq!(reqs[2].account, "p3.testnet".to_string());
    assert_eq!(reqs[2].amount, 11);
}

#[test]
fn transfer_ownership_reports_event() {
    let mut contract = Contract::new("alice".to_string());
    let caller = "alice".to_string();
    let ev = contract
        .transfer_ownership(&caller, "bob".to_string())
        .unwrap();
    assert_eq!(ev.standard, "nep333".to_string());
    assert_eq!(ev.version, "0.1.0".to_string());
    assert_eq!(ev.event, "ownership_transferred".to_string());
    let data = ev.data.unwrap();
    assert_eq!(data.len(), 2);
    assert_eq!(data[0].0, "old_owner".to_string());
    assert_eq!(data[0].1, "alice".to_string());
    assert_eq!(data[1].0, "new_owner".to_string());
    assert_eq!(data[1].1, "bob".to_string());
}

#[test]
fn on_withdraw_failure_reports_no_event() {
    let (ok, event) = Contract::on_withdraw(false, 42, "bob".to_string());
    assert!(!ok);
    assert!(event.is_none());
}

#[test]
fn on_withdraw_success_amount_rendering() {
    let (ok, event) = Contract::on_withdraw(true, 0, "bob".to_string());
    assert!(ok);
    let data = event.unwrap().data.unwrap();
    assert_eq!(data[0].1, "0".to_string());
}
