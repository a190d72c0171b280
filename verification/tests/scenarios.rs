//! End-to-end scenarios over the contract boundary.

use fungible_token::errors::FtError;
use fungible_token::events::FtEvent;
use fungible_token::token::{Contract, NotificationOutcome, TransferResolution};
use fungible_token::AccountId;

/// Storage cost unit: 80 bytes (64-byte worst-case key + 16-byte balance)
/// at 10^19 native units per byte.
const COST: u128 = 800_000_000_000_000_000_000;

fn acct(s: &str) -> AccountId {
    AccountId::new(s.as_bytes().to_vec()).unwrap()
}

#[test]
fn test_initialize_supply_and_balance() {
    let owner = acct("owner");
    let (contract, event) = Contract::new_default_meta(owner.duplicate(), 1000);
    assert_eq!(contract.ft_balance_of(&owner), 1000);
    assert_eq!(contract.ft_total_supply(), 1000);
    match event {
        FtEvent::Mint { owner_id, amount, memo } => {
            assert!(owner_id.eq_id(&owner));
            assert_eq!(amount, 1000);
            assert_eq!(memo.as_deref(), Some("Initial token supply is minted"));
        }
        _ => panic!("expected a mint event"),
    }
}

#[test]
fn test_register_then_transfer() {
    let owner = acct("owner");
    let recv = acct("receiver");
    let (mut contract, _) = Contract::new_default_meta(owner.duplicate(), 1000);
    let refund = contract.register_account(&recv, COST).unwrap();
    assert_eq!(refund, 0);
    let event = contract
        .ft_transfer(&owner, &recv, 100, Some("gift".to_string()), 1)
        .unwrap();
    assert_eq!(contract.ft_balance_of(&owner), 900);
    assert_eq!(contract.ft_balance_of(&recv), 100);
    match event {
        FtEvent::Transfer { sender_id, receiver_id, amount, memo } => {
            assert!(sender_id.eq_id(&owner));
            assert!(receiver_id.eq_id(&recv));
            assert_eq!(amount, 100);
            assert_eq!(memo.as_deref(), Some("gift"));
        }
        _ => panic!("expected a transfer event"),
    }
}

#[test]
fn test_transfer_without_fee_fails() {
    let owner = acct("owner");
    let recv = acct("receiver");
    let (mut contract, _) = Contract::new_default_meta(owner.duplicate(), 1000);
    contract.register_account(&recv, COST).unwrap();
    let r = contract.ft_transfer(&owner, &recv, 50, None, 0);
    assert_eq!(r.unwrap_err(), FtError::MissingAttachedFee);
    assert_eq!(contract.ft_balance_of(&owner), 1000);
    assert_eq!(contract.ft_balance_of(&recv), 0);
}

#[test]
fn test_transfer_to_unregistered_receiver_fails() {
    let owner = acct("owner");
    let x = acct("stranger");
    let (mut contract, _) = Contract::new_default_meta(owner.duplicate(), 1000);
    let r = contract.ft_transfer(&owner, &x, 10, None, 1);
    assert_eq!(r.unwrap_err(), FtError::UnregisteredReceiver);
    assert_eq!(contract.ft_balance_of(&owner), 1000);
    assert_eq!(contract.ft_balance_of(&x), 0);
}

#[test]
fn test_transfer_zero_amount_fails() {
    let owner = acct("owner");
    let recv = acct("receiver");
    let (mut contract, _) = Contract::new_default_meta(owner.duplicate(), 1000);
    contract.register_account(&recv, COST).unwrap();
    let r = contract.ft_transfer(&owner, &recv, 0, None, 1);
    assert_eq!(r.unwrap_err(), FtError::ZeroAmount);
    // zero is rejected ahead of every other precondition
    let unregistered = acct("stranger");
    let r2 = contract.ft_transfer(&owner, &unregistered, 0, None, 1);
    assert_eq!(r2.unwrap_err(), FtError::ZeroAmount);
    let r3 = contract.ft_transfer(&owner, &owner, 0, None, 1);
    assert_eq!(r3.unwrap_err(), FtError::ZeroAmount);
    // even ahead of the attached-fee gate
    let r4 = contract.ft_transfer(&owner, &recv, 0, None, 0);
    assert_eq!(r4.unwrap_err(), FtError::ZeroAmount);
    let r5 = contract.ft_transfer_call(&owner, &recv, 0, None, String::new(), 0);
    assert!(matches!(r5, Err(FtError::ZeroAmount)));
    assert_eq!(contract.ft_balance_of(&owner), 1000);
}

#[test]
fn test_self_transfer_fails() {
    let owner = acct("owner");
    let (mut contract, _) = Contract::new_default_meta(owner.duplicate(), 1000);
    let r = contract.ft_transfer(&owner, &owner, 10, None, 1);
    assert_eq!(r.unwrap_err(), FtError::SelfTransfer);
    assert_eq!(contract.ft_balance_of(&owner), 1000);
}

#[test]
fn test_transfer_insufficient_balance_fails() {
    let owner = acct("owner");
    let recv = acct("receiver");
    let (mut contract, _) = Contract::new_default_meta(owner.duplicate(), 1000);
    contract.register_account(&recv, COST).unwrap();
    let r = contract.ft_transfer(&owner, &recv, 1001, None, 1);
    assert_eq!(r.unwrap_err(), FtError::InsufficientBalance);
    assert_eq!(contract.ft_balance_of(&owner), 1000);
}

#[test]
fn test_transfer_call_partial_refund() {
    let owner = acct("owner");
    let recv = acct("receiver");
    let (mut contract, _) = Contract::new_default_meta(owner.duplicate(), 1000);
    contract.register_account(&recv, COST).unwrap();
    let (pending, forward) = contract
        .ft_transfer_call(&owner, &recv, 100, None, "payload".to_string(), 1)
        .unwrap();
    // eager credit visible before resolution
    assert_eq!(contract.ft_balance_of(&owner), 900);
    assert_eq!(contract.ft_balance_of(&recv), 100);
    assert!(matches!(forward, FtEvent::Transfer { .. }));
    assert_eq!(pending.amount, 100);
    assert_eq!(pending.payload, "payload");
    match contract.ft_resolve_transfer(pending, NotificationOutcome::Unused(40)) {
        TransferResolution::Reverted { kept_amount, refunded, event } => {
            assert_eq!(kept_amount, 60);
            assert_eq!(refunded, 40);
            match event {
                FtEvent::Transfer { sender_id, receiver_id, amount, memo } => {
                    assert!(sender_id.eq_id(&recv));
                    assert!(receiver_id.eq_id(&owner));
                    assert_eq!(amount, 40);
                    assert_eq!(memo, None);
                }
                _ => panic!("expected a transfer event for the reversal leg"),
            }
        }
        _ => panic!("expected a reverted resolution"),
    }
    assert_eq!(contract.ft_balance_of(&owner), 940);
    assert_eq!(contract.ft_balance_of(&recv), 60);
    assert_eq!(contract.ft_total_supply(), 1000);
}

#[test]
fn test_transfer_call_nothing_unused() {
    let owner = acct("owner");
    let recv = acct("receiver");
    let (mut contract, _) = Contract::new_default_meta(owner.duplicate(), 1000);
    contract.register_account(&recv, COST).unwrap();
    let (pending, _) = contract
        .ft_transfer_call(&owner, &recv, 100, None, String::new(), 1)
        .unwrap();
    match contract.ft_resolve_transfer(pending, NotificationOutcome::Unused(0)) {
        TransferResolution::Resolved { kept_amount } => assert_eq!(kept_amount, 100),
        _ => panic!("expected a resolved resolution"),
    }
    assert_eq!(contract.ft_balance_of(&owner), 900);
    assert_eq!(contract.ft_balance_of(&recv), 100);
}

#[test]
fn test_transfer_call_failed_notification_refunds_all() {
    let owner = acct("owner");
    let recv = acct("receiver");
    let (mut contract, _) = Contract::new_default_meta(owner.duplicate(), 1000);
    contract.register_account(&recv, COST).unwrap();
    let (pending, _) = contract
        .ft_transfer_call(&owner, &recv, 100, None, String::new(), 1)
        .unwrap();
    match contract.ft_resolve_transfer(pending, NotificationOutcome::Failed) {
        TransferResolution::Reverted { kept_amount, refunded, .. } => {
            assert_eq!(kept_amount, 0);
            assert_eq!(refunded, 100);
        }
        _ => panic!("expected a reverted resolution"),
    }
    assert_eq!(contract.ft_balance_of(&owner), 1000);
    assert_eq!(contract.ft_balance_of(&recv), 0);
}

#[test]
fn test_transfer_call_unused_clamped_to_amount() {
    let owner = acct("owner");
    let recv = acct("receiver");
    let (mut contract, _) = Contract::new_default_meta(owner.duplicate(), 1000);
    contract.register_account(&recv, COST).unwrap();
    let (pending, _) = contract
        .ft_transfer_call(&owner, &recv, 100, None, String::new(), 1)
        .unwrap();
    match contract.ft_resolve_transfer(pending, NotificationOutcome::Unused(u128::MAX)) {
        TransferResolution::Reverted { kept_amount, refunded, .. } => {
            assert_eq!(kept_amount, 0);
            assert_eq!(refunded, 100);
        }
        _ => panic!("expected a reverted resolution"),
    }
}

#[test]
fn test_transfer_call_refund_shortfall_absorbed() {
    let owner = acct("owner");
    let recv = acct("receiver");
    let (mut contract, _) = Contract::new_default_meta(owner.duplicate(), 1000);
    contract.register_account(&recv, COST).unwrap();
    let (pending, _) = contract
        .ft_transfer_call(&owner, &recv, 100, None, String::new(), 1)
        .unwrap();
    // the receiver forwards 80 during the notification window
    contract.ft_transfer(&recv, &owner, 80, None, 1).unwrap();
    // it declines everything, but only 20 are left to give back
    match contract.ft_resolve_transfer(pending, NotificationOutcome::Unused(100)) {
        TransferResolution::Reverted { kept_amount, refunded, .. } => {
            assert_eq!(refunded, 20);
            assert_eq!(kept_amount, 80);
        }
        _ => panic!("expected a reverted resolution"),
    }
    assert_eq!(contract.ft_balance_of(&owner), 1000);
    assert_eq!(contract.ft_balance_of(&recv), 0);
    assert_eq!(contract.ft_total_supply(), 1000);
}

#[test]
fn test_transfer_call_sender_gone_keeps_all() {
    let owner = acct("owner");
    let sender = acct("sender");
    let recv = acct("receiver");
    let (mut contract, _) = Contract::new_default_meta(owner.duplicate(), 1000);
    contract.register_account(&sender, COST).unwrap();
    contract.register_account(&recv, COST).unwrap();
    contract.ft_transfer(&owner, &sender, 200, None, 1).unwrap();
    let (pending, _) = contract
        .ft_transfer_call(&sender, &recv, 100, None, String::new(), 1)
        .unwrap();
    // the sender unregisters during the window, burning its remainder
    contract.unregister_account(&sender, true).unwrap();
    assert_eq!(contract.ft_total_supply(), 900);
    match contract.ft_resolve_transfer(pending, NotificationOutcome::Unused(100)) {
        TransferResolution::Resolved { kept_amount } => assert_eq!(kept_amount, 100),
        _ => panic!("expected a resolved resolution"),
    }
    assert_eq!(contract.ft_balance_of(&recv), 100);
    assert_eq!(contract.ft_total_supply(), 900);
}
