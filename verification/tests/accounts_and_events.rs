//! The account-identifier grammar, event tagging, metadata and error reasons.

use fungible_token::account::{MAX_ACCOUNT_ID_LENGTH, MIN_ACCOUNT_ID_LENGTH};
use fungible_token::errors::FtError;
use fungible_token::events::FtEvent;
use fungible_token::metadata::{default_metadata, FT_METADATA_SPEC};
use fungible_token::token::{Contract, StorageKey};
use fungible_token::AccountId;

fn parse(s: &str) -> Option<AccountId> {
    AccountId::new(s.as_bytes().to_vec())
}

#[test]
fn test_account_id_grammar_accepts() {
    assert!(parse("ab").is_some());
    assert!(parse("alice").is_some());
    assert!(parse("a-b.c_d").is_some());
    assert!(parse("sub.account-1_x").is_some());
    assert!(parse("0123456789").is_some());
    assert!(parse(&"a".repeat(64)).is_some());
}

#[test]
fn test_account_id_grammar_rejects() {
    assert!(parse("").is_none());
    assert!(parse("a").is_none()); // too short
    assert!(parse(&"a".repeat(65)).is_none()); // too long
    assert!(parse("Alice").is_none()); // upper case
    assert!(parse("a b").is_none()); // space
    assert!(parse("-ab").is_none()); // leading separator
    assert!(parse("ab-").is_none()); // trailing separator
    assert!(parse("a--b").is_none()); // adjacent separators
    assert!(parse("a._b").is_none()); // adjacent separators, mixed
    assert!(parse("ación").is_none()); // outside the alphabet
}

#[test]
fn test_account_id_length_bounds() {
    assert_eq!(MIN_ACCOUNT_ID_LENGTH, 2);
    assert_eq!(MAX_ACCOUNT_ID_LENGTH, 64);
    let a = parse("alice").unwrap();
    assert_eq!(a.len(), 5);
    assert_eq!(a.as_bytes().as_slice(), b"alice");
}

#[test]
fn test_account_id_equality_and_duplicate() {
    let a = parse("alice").unwrap();
    let b = parse("alice").unwrap();
    let c = parse("bob").unwrap();
    assert!(a.eq_id(&b));
    assert!(!a.eq_id(&c));
    let d = a.duplicate();
    assert!(d.eq_id(&a));
}

#[test]
fn test_event_tags() {
    let owner = parse("owner").unwrap();
    let (_, mint) = Contract::new_default_meta(owner, 7);
    assert_eq!(mint.standard(), "nep141");
    assert_eq!(mint.version(), "1.0.0");
    assert_eq!(mint.event_name(), "ft_mint");
    let transfer = FtEvent::Transfer {
        sender_id: parse("one").unwrap(),
        receiver_id: parse("two").unwrap(),
        amount: 1,
        memo: None,
    };
    assert_eq!(transfer.event_name(), "ft_transfer");
    let burn = FtEvent::Burn { owner_id: parse("one").unwrap(), amount: 1, memo: None };
    assert_eq!(burn.event_name(), "ft_burn");
}

#[test]
fn test_default_metadata_fields() {
    let m = default_metadata();
    assert_eq!(m.spec_version, FT_METADATA_SPEC);
    assert_eq!(m.spec_version, "ft-1.0.0");
    assert_eq!(m.name, "Team Token FT Tutorial");
    assert_eq!(m.symbol, "gtNEAR");
    assert!(m.icon.unwrap().starts_with("data:image/svg+xml;base64,"));
    assert!(m.reference.is_none());
    assert!(m.reference_hash.is_none());
    assert_eq!(m.decimals, 24);
}

#[test]
fn test_metadata_is_stored_untouched() {
    let owner = parse("owner").unwrap();
    let mut m = default_metadata();
    m.name = "Another Token".to_string();
    let (contract, _) = Contract::new(owner, 5, m);
    assert_eq!(contract.ft_metadata().name, "Another Token");
    assert_eq!(contract.ft_metadata().decimals, 24);
}

#[test]
fn test_error_reasons_are_distinct() {
    let errors = [
        FtError::AlreadyInitialized,
        FtError::AlreadyRegistered,
        FtError::NotRegistered,
        FtError::InsufficientStorageDeposit,
        FtError::NonZeroBalance,
        FtError::UnregisteredAccount,
        FtError::UnregisteredReceiver,
        FtError::InsufficientBalance,
        FtError::SelfTransfer,
        FtError::ZeroAmount,
        FtError::BalanceOverflow,
        FtError::MissingAttachedFee,
        FtError::ExecutionAborted,
    ];
    for (i, a) in errors.iter().enumerate() {
        assert!(!a.reason().is_empty());
        for b in errors.iter().skip(i + 1) {
            assert_ne!(a.reason(), b.reason());
        }
    }
}

#[test]
fn test_storage_keys_name_the_two_tables() {
    assert_ne!(StorageKey::Accounts, StorageKey::Metadata);
}
