//! Accounting core of a fungible-token ledger.
//!
//! The crate tracks per-account balances under a fixed total supply and
//! enforces the storage economics of holding a balance record: an account must
//! pre-pay the measured storage cost of one record before it may appear in the
//! ledger. Two invariants are maintained and proved: the sum of all balances
//! equals the total supply, and only registered accounts hold a balance.
//!
//! All host-environment inputs (the caller, attached native currency, the
//! receiver contract's reply to a transfer notification) enter as explicit
//! parameters, and all outward effects (native-currency refunds, event
//! records for the logging collaborator) leave as plain return values, so the
//! whole state machine is a library over owned values.

pub mod account;
pub mod errors;
pub mod events;
pub mod internal;
pub mod metadata;
pub mod token;

pub use account::AccountId;
pub use errors::FtError;
pub use events::FtEvent;
pub use internal::Ledger;
pub use metadata::FungibleTokenMetadata;
pub use token::Contract;
pub use token::StorageKey;
