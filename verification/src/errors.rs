//! The error taxonomy of the core.
//!
//! Every precondition violation aborts the whole call with no partial state
//! mutation; callers receive the error kind and can obtain a human-readable
//! reason from [`FtError::reason`].

use vstd::prelude::*;

verus! {

/// Why a call was rejected. Each operation's contract states exactly which
/// variant comes back on which inputs.
#[derive(Clone, Copy, Debug, PartialEq, Eq, Structural)]
pub enum FtError {
    /// The one-time initialization was attempted a second time (guarded by the
    /// host shell that persists the contract instance).
    AlreadyInitialized,
    /// Registration of an account that already has a ledger entry; the
    /// attached deposit is returned in full, since registration is pay-once.
    AlreadyRegistered,
    /// A storage operation on an account with no ledger entry.
    NotRegistered,
    /// The attached deposit does not cover the storage cost of one record.
    InsufficientStorageDeposit,
    /// Unregistration without `force` while the balance is nonzero.
    NonZeroBalance,
    /// A ledger primitive touched an account with no entry; the ledger never
    /// creates accounts implicitly.
    UnregisteredAccount,
    /// A transfer names a receiver with no ledger entry; transfers never
    /// auto-register.
    UnregisteredReceiver,
    /// A withdrawal larger than the current balance; no overdraft exists.
    InsufficientBalance,
    /// A transfer from an account to itself.
    SelfTransfer,
    /// A transfer of zero tokens.
    ZeroAmount,
    /// A deposit that would push a balance past the largest representable
    /// amount (defensive; unreachable while the supply invariant holds).
    BalanceOverflow,
    /// A transfer call without the fixed one-unit attached fee.
    MissingAttachedFee,
    /// The host aborted execution; opaque to the core.
    ExecutionAborted,
}

impl FtError {
    /// A human-readable reason for the rejection.
    pub fn reason(&self) -> String {
        match self {
            FtError::AlreadyInitialized => "the contract is already initialized".to_owned(),
            FtError::AlreadyRegistered => "the account is already registered".to_owned(),
            FtError::NotRegistered => "the account is not registered".to_owned(),
            FtError::InsufficientStorageDeposit => {
                "the attached deposit is less than the storage cost of one record".to_owned()
            },
            FtError::NonZeroBalance => {
                "the account holds a balance; unregister with force to burn it".to_owned()
            },
            FtError::UnregisteredAccount => "the account has no ledger entry".to_owned(),
            FtError::UnregisteredReceiver => "the receiver has no ledger entry".to_owned(),
            FtError::InsufficientBalance => "the balance is smaller than the amount".to_owned(),
            FtError::SelfTransfer => "sender and receiver are the same account".to_owned(),
            FtError::ZeroAmount => "the amount must be positive".to_owned(),
            FtError::BalanceOverflow => "the balance would overflow".to_owned(),
            FtError::MissingAttachedFee => {
                "exactly one smallest unit of native currency must be attached".to_owned()
            },
            FtError::ExecutionAborted => "the host aborted execution".to_owned(),
        }
    }
}

} // verus!
