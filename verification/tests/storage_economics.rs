//! Registration, unregistration and the storage-balance model.

use fungible_token::errors::FtError;
use fungible_token::events::FtEvent;
use fungible_token::token::Contract;
use fungible_token::AccountId;

const COST: u128 = 800_000_000_000_000_000_000;

fn aid(s: &str) -> AccountId {
    AccountId::new(s.as_bytes().to_vec()).unwrap()
}

#[test]
fn test_storage_balance_bounds() {
    let owner = aid("owner");
    let (contract, _) = Contract::new_default_meta(owner, 1000);
    let bounds = contract.storage_balance_bounds();
    assert_eq!(bounds.min, COST);
    assert_eq!(bounds.max, Some(COST));
}

#[test]
fn test_register_refunds_exact_change() {
    let owner = aid("owner");
    let r = aid("renter");
    let (mut contract, _) = Contract::new_default_meta(owner, 1000);
    let refund = contract.storage_deposit(&r, COST + 37).unwrap();
    assert_eq!(refund, 37);
}

#[test]
fn test_register_insufficient_deposit_fails() {
    let owner = aid("owner");
    let r = aid("renter");
    let (mut contract, _) = Contract::new_default_meta(owner, 1000);
    let e = contract.storage_deposit(&r, COST - 1).unwrap_err();
    assert_eq!(e, FtError::InsufficientStorageDeposit);
    assert_eq!(contract.ft_balance_of(&r), 0);
}

#[test]
fn test_register_twice_fails() {
    let owner = aid("owner");
    let r = aid("renter");
    let (mut contract, _) = Contract::new_default_meta(owner, 1000);
    contract.storage_deposit(&r, COST).unwrap();
    let e = contract.storage_deposit(&r, COST).unwrap_err();
    assert_eq!(e, FtError::AlreadyRegistered);
}

#[test]
fn test_register_unregister_round_trip() {
    let owner = aid("owner");
    let r = aid("renter");
    let attached: u128 = COST + 5;
    let (mut contract, _) = Contract::new_default_meta(owner, 1000);
    let refund_in = contract.register_account(&r, attached).unwrap();
    assert_eq!(refund_in, attached - COST);
    let (refund_out, burn) = contract.unregister_account(&r, false).unwrap();
    assert_eq!(refund_out, COST);
    assert!(burn.is_none());
    // the two refunds together return the attached deposit exactly
    assert_eq!(refund_in + refund_out, attached);
    // and the ledger is back where it started
    assert_eq!(contract.ft_balance_of(&r), 0);
    assert_eq!(contract.ft_total_supply(), 1000);
    // a fresh registration is possible again, at the same, never-recomputed cost
    assert_eq!(contract.storage_balance_bounds().min, COST);
    assert!(contract.register_account(&r, COST).is_ok());
}

#[test]
fn test_unregister_not_registered_fails() {
    let owner = aid("owner");
    let r = aid("renter");
    let (mut contract, _) = Contract::new_default_meta(owner, 1000);
    let e = contract.storage_unregister(&r, false).unwrap_err();
    assert_eq!(e, FtError::NotRegistered);
}

#[test]
fn test_unregister_nonzero_balance_fails_without_force() {
    let owner = aid("owner");
    let r = aid("renter");
    let (mut contract, _) = Contract::new_default_meta(owner.duplicate(), 1000);
    contract.register_account(&r, COST).unwrap();
    contract.ft_transfer(&owner, &r, 10, None, 1).unwrap();
    let e = contract.unregister_account(&r, false).unwrap_err();
    assert_eq!(e, FtError::NonZeroBalance);
    assert_eq!(contract.ft_balance_of(&r), 10);
}

#[test]
fn test_unregister_force_burns_balance() {
    let owner = aid("owner");
    let r = aid("renter");
    let (mut contract, _) = Contract::new_default_meta(owner.duplicate(), 1000);
    contract.register_account(&r, COST).unwrap();
    contract.ft_transfer(&owner, &r, 10, None, 1).unwrap();
    let (refund, burn) = contract.unregister_account(&r, true).unwrap();
    assert_eq!(refund, COST);
    match burn {
        Some(FtEvent::Burn { owner_id, amount, memo }) => {
            assert!(owner_id.eq_id(&r));
            assert_eq!(amount, 10);
            assert_eq!(memo, None);
        }
        _ => panic!("expected a burn event"),
    }
    // the burn is the only path that changes the total supply
    assert_eq!(contract.ft_total_supply(), 990);
    assert_eq!(contract.ft_balance_of(&owner), 990);
    assert_eq!(contract.ft_balance_of(&r), 0);
}

#[test]
fn test_storage_withdraw_no_surplus() {
    let owner = aid("owner");
    let r = aid("renter");
    let (mut contract, _) = Contract::new_default_meta(owner, 1000);
    contract.register_account(&r, COST).unwrap();
    assert_eq!(contract.storage_withdraw(&r, None).unwrap(), 0);
    assert_eq!(contract.storage_withdraw(&r, Some(0)).unwrap(), 0);
    let e = contract.storage_withdraw(&r, Some(1)).unwrap_err();
    assert_eq!(e, FtError::InsufficientBalance);
}

#[test]
fn test_storage_withdraw_not_registered_fails() {
    let owner = aid("owner");
    let r = aid("renter");
    let (mut contract, _) = Contract::new_default_meta(owner, 1000);
    let e = contract.storage_withdraw(&r, None).unwrap_err();
    assert_eq!(e, FtError::NotRegistered);
}
