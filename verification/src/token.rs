//! The contract: ledger, storage economics and the transfer protocol.
//!
//! The aggregate owns the balance ledger, the immutable total supply and the
//! storage cost unit measured once at initialization. Every host-environment
//! input (the authenticated caller, attached native currency, the receiver
//! contract's reply to a transfer notification) is an explicit parameter, and
//! every outward effect (native-currency refunds, event records) is a plain
//! return value; the host shell performs them.

use vstd::prelude::*;

use crate::account::AccountId;
use crate::account::MAX_ACCOUNT_ID_LENGTH;
use crate::errors::FtError;
use crate::events::FtEvent;
use crate::events::is_burn_event;
use crate::events::is_genesis_mint_event;
use crate::events::is_transfer_event;
use crate::internal::BALANCE_RECORD_BYTES;
use crate::internal::Ledger;
use crate::internal::balance_or_zero;
use crate::internal::balances_after_transfer;
use crate::internal::transfer_admissible;
use crate::internal::transfer_error;
use crate::metadata::FungibleTokenMetadata;
use crate::metadata::default_metadata;
use crate::metadata::is_default_metadata;

verus! {

/// Native-currency price of one storage byte, in the smallest native unit.
pub const STORAGE_PRICE_PER_BYTE: u128 = 10_000_000_000_000_000_000;

/// The fixed anti-spam fee a transfer call must attach: exactly one smallest
/// native unit, an access-control convention rather than an economic cost.
pub const ATTACHED_TRANSFER_FEE: u128 = 1;

/// Names of the two logical tables the host persists for the core: the
/// balance ledger and the metadata/storage-config record.
#[derive(Clone, Copy, Debug, PartialEq, Eq, Structural)]
pub enum StorageKey {
    /// The balance ledger.
    Accounts,
    /// The metadata/storage-config record.
    Metadata,
}

/// Bounds on the storage balance an account may pledge: the minimum is the
/// storage cost unit, and no surplus above it ever accrues.
pub struct StorageBalanceBounds {
    /// Least native currency a registration must escrow.
    pub min: u128,
    /// Most native currency a registration may escrow.
    pub max: Option<u128>,
}

/// The intent of a transfer-and-notify call between its eager credit and its
/// reconciliation; it exists only for the duration of that call.
pub struct PendingTransfer {
    /// The account debited by the eager step.
    pub sender_id: AccountId,
    /// The account credited by the eager step, whose contract is notified.
    pub receiver_id: AccountId,
    /// The amount moved by the eager step.
    pub amount: u128,
    /// Opaque payload handed to the receiver's notification entry point.
    pub payload: String,
}

/// How the receiver's notification call resolved.
pub enum NotificationOutcome {
    /// The receiver answered, declining to keep this much of the transfer.
    Unused(u128),
    /// The receiver's call failed outright; the whole amount counts as unused.
    Failed,
}

/// The reconciliation that closed a pending transfer.
pub enum TransferResolution {
    /// No refund leg was applied; the receiver keeps the whole amount.
    Resolved {
        /// The amount the receiver kept.
        kept_amount: u128,
    },
    /// A refund leg moved part of the amount back to the sender.
    Reverted {
        /// The amount the receiver kept.
        kept_amount: u128,
        /// The amount moved back to the sender.
        refunded: u128,
        /// The transfer record of the reversal leg.
        event: FtEvent,
    },
}

/// The unused portion the reconciliation works from: what the receiver
/// reported, clamped to the transferred amount; a failed call counts in full.
pub open spec fn spec_unused_amount(outcome: NotificationOutcome, amount: u128) -> u128 {
    match outcome {
        NotificationOutcome::Unused(u) => if u <= amount {
            u
        } else {
            amount
        },
        NotificationOutcome::Failed => amount,
    }
}

/// The refund a reconciliation applies: the unused portion, capped by what the
/// receiver still holds, and nothing at all when the sender no longer has a
/// ledger entry to credit.
pub open spec fn spec_resolve_refund(
    m: Map<Seq<u8>, u128>,
    sender: Seq<u8>,
    receiver: Seq<u8>,
    unused: u128,
) -> u128 {
    let avail = balance_or_zero(m, receiver);
    let capped = if unused <= avail {
        unused
    } else {
        avail
    };
    if m.dom().contains(sender) {
        capped
    } else {
        0
    }
}

/// The accounting core: the balance ledger, the immutable total supply, the
/// measured storage cost of one record, and the stored metadata descriptor.
pub struct Contract {
    accounts: Ledger,
    total_supply: u128,
    bytes_for_longest_account_id: u64,
    metadata: FungibleTokenMetadata,
}

impl Contract {
    /// Well-formed: the ledger has one record per account, the balances sum
    /// to the total supply, and the storage measurement is the one taken at
    /// initialization.
    pub closed spec fn wf(&self) -> bool {
        &&& self.accounts.wf()
        &&& self.accounts.sum() == self.total_supply as int
        &&& self.bytes_for_longest_account_id == MAX_ACCOUNT_ID_LENGTH + BALANCE_RECORD_BYTES
    }

    /// The map from account identifier bytes to balance.
    pub closed spec fn balances(&self) -> Map<Seq<u8>, u128> {
        self.accounts@
    }

    /// The fixed total supply.
    pub closed spec fn spec_total_supply(&self) -> u128 {
        self.total_supply
    }

    /// Sum of all balances in the ledger.
    pub closed spec fn spec_sum_of_balances(&self) -> int {
        self.accounts.sum()
    }

    /// The account has a ledger entry; even a zero balance counts.
    pub open spec fn spec_registered(&self, k: Seq<u8>) -> bool {
        self.balances().dom().contains(k)
    }

    /// The account's balance, zero when it has no entry.
    pub open spec fn spec_balance_of(&self, k: Seq<u8>) -> u128 {
        balance_or_zero(self.balances(), k)
    }

    /// The storage cost unit: the measured bytes of one worst-case record
    /// times the per-byte price.
    pub closed spec fn spec_storage_cost(&self) -> int {
        self.bytes_for_longest_account_id * STORAGE_PRICE_PER_BYTE
    }

    /// The stored metadata descriptor.
    pub closed spec fn spec_metadata(&self) -> FungibleTokenMetadata {
        self.metadata
    }

    /// Measures the storage cost of holding one balance record: writes a
    /// synthetic record under the longest-permitted identifier, reads the
    /// storage-usage delta that single insertion caused, removes the record
    /// and keeps the delta. Runs before any real account is registered, so
    /// the delta reflects exactly one record's footprint.
    fn measure_bytes_for_longest_account_id(&mut self)
        requires
            old(self).accounts.wf(),
            old(self).accounts@ == Map::<Seq<u8>, u128>::empty(),
            old(self).accounts.sum() == 0,
            old(self).accounts.spec_storage_bytes() == 0,
        ensures
            final(self).accounts.wf(),
            final(self).accounts@ == Map::<Seq<u8>, u128>::empty(),
            final(self).accounts.sum() == 0,
            final(self).accounts.spec_storage_bytes() == 0,
            final(self).bytes_for_longest_account_id == MAX_ACCOUNT_ID_LENGTH
                + BALANCE_RECORD_BYTES,
            final(self).total_supply == old(self).total_supply,
            final(self).metadata == old(self).metadata,
    {
        let initial_storage_usage = self.accounts.storage_usage();
        let tmp_account_id = AccountId::longest();
        self.accounts.internal_register_account(&tmp_account_id);
        let after_storage_usage = self.accounts.storage_usage();
        self.bytes_for_longest_account_id = after_storage_usage - initial_storage_usage;
        let _ = self.accounts.internal_unregister_account(&tmp_account_id);
        proof {
            assert(self.accounts@ =~= Map::<Seq<u8>, u128>::empty());
        }
    }

    /// Initializes the core: measures the storage cost unit, registers the
    /// owner, deposits the whole supply to it, stores the descriptor, and
    /// returns the aggregate with the one mint record of the genesis supply.
    /// The host shell that persists the instance guards against running this
    /// twice (`FtError::AlreadyInitialized`).
    pub fn new(owner_id: AccountId, total_supply: u128, metadata: FungibleTokenMetadata) -> (r: (
        Contract,
        FtEvent,
    ))
        ensures
            r.0.wf(),
            r.0.spec_total_supply() == total_supply,
            r.0.balances() == Map::<Seq<u8>, u128>::empty().insert(owner_id@, total_supply),
            r.0.spec_metadata() == metadata,
            r.0.spec_storage_cost() == (MAX_ACCOUNT_ID_LENGTH + BALANCE_RECORD_BYTES)
                * STORAGE_PRICE_PER_BYTE,
            is_genesis_mint_event(r.1, owner_id@, total_supply),
    {
        let mut this = Contract {
            accounts: Ledger::new(),
            total_supply,
            bytes_for_longest_account_id: 0,
            metadata,
        };
        this.measure_bytes_for_longest_account_id();
        this.accounts.internal_register_account(&owner_id);
        match this.accounts.internal_deposit(&owner_id, total_supply) {
            Ok(()) => {},
            Err(_) => {
                proof {
                    assert(false);
                }
            },
        }
        proof {
            assert(this.accounts@ =~= Map::<Seq<u8>, u128>::empty().insert(
                owner_id@,
                total_supply,
            ));
        }
        let event = FtEvent::Mint {
            owner_id,
            amount: total_supply,
            memo: Some("Initial token supply is minted".to_owned()),
        };
        (this, event)
    }

    /// Initializes the core with the default metadata descriptor.
    pub fn new_default_meta(owner_id: AccountId, total_supply: u128) -> (r: (Contract, FtEvent))
        ensures
            r.0.wf(),
            r.0.spec_total_supply() == total_supply,
            r.0.balances() == Map::<Seq<u8>, u128>::empty().insert(owner_id@, total_supply),
            is_default_metadata(r.0.spec_metadata()),
            r.0.spec_storage_cost() == (MAX_ACCOUNT_ID_LENGTH + BALANCE_RECORD_BYTES)
                * STORAGE_PRICE_PER_BYTE,
            is_genesis_mint_event(r.1, owner_id@, total_supply),
    {
        Contract::new(owner_id, total_supply, default_metadata())
    }

    /// The fixed total supply; constant after initialization.
    pub fn ft_total_supply(&self) -> (r: u128)
        ensures
            r == self.spec_total_supply(),
    {
        self.total_supply
    }

    /// The account's balance; zero for an unregistered account, which is not
    /// itself an error for this query. Read-only by its shared borrow: no
    /// state can change.
    pub fn ft_balance_of(&self, account_id: &AccountId) -> (r: u128)
        requires
            self.wf(),
        ensures
            r == self.spec_balance_of(account_id@),
    {
        self.accounts.balance_of(account_id)
    }

    /// The stored metadata descriptor, untouched.
    pub fn ft_metadata(&self) -> (r: &FungibleTokenMetadata)
        ensures
            *r == self.spec_metadata(),
    {
        &self.metadata
    }

    /// The storage cost unit as native currency.
    fn storage_cost(&self) -> (r: u128)
        requires
            self.wf(),
        ensures
            r == self.spec_storage_cost(),
    {
        (self.bytes_for_longest_account_id as u128) * STORAGE_PRICE_PER_BYTE
    }

    /// The bounds of the storage-balance model: the minimum is the storage
    /// cost unit and, since no surplus above it ever accrues, so is the
    /// maximum.
    pub fn storage_balance_bounds(&self) -> (r: StorageBalanceBounds)
        requires
            self.wf(),
        ensures
            r.min == self.spec_storage_cost(),
            r.max == Some(r.min),
    {
        let cost = self.storage_cost();
        StorageBalanceBounds { min: cost, max: Some(cost) }
    }

    /// Registers an account against an attached native-currency deposit and
    /// returns the exact-change refund `attached_deposit` minus the storage
    /// cost unit, never silently retained. Fails on an account that already
    /// has an entry (registration is pay-once; the caller refunds the whole
    /// deposit) and on a deposit below the storage cost unit; a failure
    /// mutates nothing, and the caller returns the deposit in full.
    pub fn register_account(&mut self, account_id: &AccountId, attached_deposit: u128) -> (r:
        Result<u128, FtError>)
        requires
            old(self).wf(),
        ensures
            final(self).wf(),
            final(self).spec_total_supply() == old(self).spec_total_supply(),
            final(self).spec_storage_cost() == old(self).spec_storage_cost(),
            final(self).spec_metadata() == old(self).spec_metadata(),
            r is Ok <==> !old(self).spec_registered(account_id@) && attached_deposit >= old(
                self,
            ).spec_storage_cost(),
            r matches Ok(refund) ==> refund == attached_deposit - old(self).spec_storage_cost()
                && final(self).balances() == old(self).balances().insert(account_id@, 0u128),
            r is Err ==> *final(self) == *old(self),
            old(self).spec_registered(account_id@) ==> r == Err::<u128, FtError>(
                FtError::AlreadyRegistered,
            ),
            !old(self).spec_registered(account_id@) && attached_deposit < old(
                self,
            ).spec_storage_cost() ==> r == Err::<u128, FtError>(FtError::InsufficientStorageDeposit),
    {
        if self.accounts.is_registered(account_id) {
            return Err(FtError::AlreadyRegistered);
        }
        let cost = self.storage_cost();
        if attached_deposit < cost {
            return Err(FtError::InsufficientStorageDeposit);
        }
        self.accounts.internal_register_account(account_id);
        Ok(attached_deposit - cost)
    }

    /// Removes an account's entry and returns the storage cost unit to refund
    /// together with the burn record when `force` destroyed a balance. Fails
    /// on an account with no entry, and on a nonzero balance without `force`;
    /// with `force`, the remaining balance is debited from the total supply —
    /// the only burn path — before the entry goes.
    pub fn unregister_account(&mut self, account_id: &AccountId, force: bool) -> (r: Result<
        (u128, Option<FtEvent>),
        FtError,
    >)
        requires
            old(self).wf(),
        ensures
            final(self).wf(),
            final(self).spec_storage_cost() == old(self).spec_storage_cost(),
            final(self).spec_metadata() == old(self).spec_metadata(),
            r is Ok <==> old(self).spec_registered(account_id@) && (force || old(
                self,
            ).spec_balance_of(account_id@) == 0),
            r matches Ok((refund, burn)) ==> ({
                let burned = old(self).spec_balance_of(account_id@);
                &&& refund == old(self).spec_storage_cost()
                &&& final(self).balances() == old(self).balances().remove(account_id@)
                &&& final(self).spec_total_supply() == old(self).spec_total_supply() - burned
                &&& (burned > 0 ==> (burn matches Some(e) && is_burn_event(
                    e,
                    account_id@,
                    burned,
                    None::<String>,
                )))
                &&& (burned == 0 ==> burn is None)
            }),
            r is Err ==> *final(self) == *old(self),
            !old(self).spec_registered(account_id@) ==> r == Err::<
                (u128, Option<FtEvent>),
                FtError,
            >(FtError::NotRegistered),
            old(self).spec_registered(account_id@) && !force && old(self).spec_balance_of(
                account_id@,
            ) != 0 ==> r == Err::<(u128, Option<FtEvent>), FtError>(FtError::NonZeroBalance),
    {
        if !self.accounts.is_registered(account_id) {
            return Err(FtError::NotRegistered);
        }
        let bal = self.accounts.balance_of(account_id);
        if bal != 0 && !force {
            return Err(FtError::NonZeroBalance);
        }
        let refund = self.storage_cost();
        proof {
            self.accounts.lemma_registered_balance_le_sum(account_id@);
        }
        let removed = self.accounts.internal_unregister_account(account_id);
        self.total_supply = self.total_supply - removed;
        let burn = if removed > 0 {
            Some(
                FtEvent::Burn { owner_id: account_id.duplicate(), amount: removed, memo: None },
            )
        } else {
            None
        };
        Ok((refund, burn))
    }

    /// Registers `account_id` using the attached currency; the boundary name
    /// for [`Contract::register_account`], with the same contract.
    pub fn storage_deposit(&mut self, account_id: &AccountId, attached_deposit: u128) -> (r:
        Result<u128, FtError>)
        requires
            old(self).wf(),
        ensures
            final(self).wf(),
            final(self).spec_total_supply() == old(self).spec_total_supply(),
            final(self).spec_storage_cost() == old(self).spec_storage_cost(),
            final(self).spec_metadata() == old(self).spec_metadata(),
            r is Ok <==> !old(self).spec_registered(account_id@) && attached_deposit >= old(
                self,
            ).spec_storage_cost(),
            r matches Ok(refund) ==> refund == attached_deposit - old(self).spec_storage_cost()
                && final(self).balances() == old(self).balances().insert(account_id@, 0u128),
            r is Err ==> *final(self) == *old(self),
            old(self).spec_registered(account_id@) ==> r == Err::<u128, FtError>(
                FtError::AlreadyRegistered,
            ),
            !old(self).spec_registered(account_id@) && attached_deposit < old(
                self,
            ).spec_storage_cost() ==> r == Err::<u128, FtError>(FtError::InsufficientStorageDeposit),
    {
        self.register_account(account_id, attached_deposit)
    }

    /// Withdraws unlocked storage balance above the required minimum. No
    /// surplus ever accrues in this model — registration refunds the excess at
    /// once — so the call succeeds only as a no-op: with no amount, or a zero
    /// one, it returns zero; a positive amount exceeds the available surplus.
    pub fn storage_withdraw(&mut self, account_id: &AccountId, amount: Option<u128>) -> (r: Result<
        u128,
        FtError,
    >)
        requires
            old(self).wf(),
        ensures
            final(self).wf(),
            *final(self) == *old(self),
            r is Ok <==> old(self).spec_registered(account_id@) && (amount is None || amount
                == Some(0u128)),
            r matches Ok(w) ==> w == 0,
            !old(self).spec_registered(account_id@) ==> r == Err::<u128, FtError>(
                FtError::NotRegistered,
            ),
            (amount matches Some(x) && x > 0 && old(self).spec_registered(account_id@)) ==> r
                == Err::<u128, FtError>(FtError::InsufficientBalance),
    {
        if !self.accounts.is_registered(account_id) {
            return Err(FtError::NotRegistered);
        }
        match amount {
            None => Ok(0),
            Some(x) => {
                if x > 0 {
                    Err(FtError::InsufficientBalance)
                } else {
                    Ok(0)
                }
            },
        }
    }

    /// Unregisters `account_id`; the boundary name for
    /// [`Contract::unregister_account`], with the same contract.
    pub fn storage_unregister(&mut self, account_id: &AccountId, force: bool) -> (r: Result<
        (u128, Option<FtEvent>),
        FtError,
    >)
        requires
            old(self).wf(),
        ensures
            final(self).wf(),
            final(self).spec_storage_cost() == old(self).spec_storage_cost(),
            final(self).spec_metadata() == old(self).spec_metadata(),
            r is Ok <==> old(self).spec_registered(account_id@) && (force || old(
                self,
            ).spec_balance_of(account_id@) == 0),
            r matches Ok((refund, burn)) ==> ({
                let burned = old(self).spec_balance_of(account_id@);
                &&& refund == old(self).spec_storage_cost()
                &&& final(self).balances() == old(self).balances().remove(account_id@)
                &&& final(self).spec_total_supply() == old(self).spec_total_supply() - burned
                &&& (burned > 0 ==> (burn matches Some(e) && is_burn_event(
                    e,
                    account_id@,
                    burned,
                    None::<String>,
                )))
                &&& (burned == 0 ==> burn is None)
            }),
            r is Err ==> *final(self) == *old(self),
            !old(self).spec_registered(account_id@) ==> r == Err::<
                (u128, Option<FtEvent>),
                FtError,
            >(FtError::NotRegistered),
            old(self).spec_registered(account_id@) && !force && old(self).spec_balance_of(
                account_id@,
            ) != 0 ==> r == Err::<(u128, Option<FtEvent>), FtError>(FtError::NonZeroBalance),
    {
        self.unregister_account(account_id, force)
    }

    /// Synchronous transfer from the caller to a registered receiver. The
    /// caller must attach exactly [`ATTACHED_TRANSFER_FEE`] as a fixed,
    /// non-refundable token of intent, and is the sender. Any failure aborts
    /// the whole call with no state change; zero amounts are rejected ahead
    /// of every other check, the fee gate included. On success the transfer
    /// record is returned for the logging collaborator.
    pub fn ft_transfer(
        &mut self,
        sender_id: &AccountId,
        receiver_id: &AccountId,
        amount: u128,
        memo: Option<String>,
        attached_fee: u128,
    ) -> (r: Result<FtEvent, FtError>)
        requires
            old(self).wf(),
        ensures
            final(self).wf(),
            final(self).spec_total_supply() == old(self).spec_total_supply(),
            final(self).spec_storage_cost() == old(self).spec_storage_cost(),
            final(self).spec_metadata() == old(self).spec_metadata(),
            r is Ok <==> attached_fee == ATTACHED_TRANSFER_FEE && transfer_admissible(
                old(self).balances(),
                sender_id@,
                receiver_id@,
                amount,
            ),
            r matches Ok(ev) ==> final(self).balances() == balances_after_transfer(
                old(self).balances(),
                sender_id@,
                receiver_id@,
                amount,
            ) && is_transfer_event(ev, sender_id@, receiver_id@, amount, memo),
            r is Ok ==> old(self).spec_balance_of(receiver_id@) + amount <= u128::MAX,
            r is Err ==> *final(self) == *old(self),
            amount == 0 ==> r == Err::<FtEvent, FtError>(FtError::ZeroAmount),
            amount != 0 && attached_fee != ATTACHED_TRANSFER_FEE ==> r == Err::<FtEvent, FtError>(
                FtError::MissingAttachedFee,
            ),
            attached_fee == ATTACHED_TRANSFER_FEE && !transfer_admissible(
                old(self).balances(),
                sender_id@,
                receiver_id@,
                amount,
            ) ==> r == Err::<FtEvent, FtError>(
                transfer_error(old(self).balances(), sender_id@, receiver_id@, amount),
            ),
    {
        if amount == 0 {
            return Err(FtError::ZeroAmount);
        }
        if attached_fee != ATTACHED_TRANSFER_FEE {
            return Err(FtError::MissingAttachedFee);
        }
        self.accounts.internal_transfer(sender_id, receiver_id, amount, memo)
    }

    /// First phase of transfer-and-notify: the same checks and fee as
    /// [`Contract::ft_transfer`], with the receiver credited eagerly before
    /// its contract is notified. Returns the pending intent the host resolves
    /// through [`Contract::ft_resolve_transfer`] once the notification call
    /// settles, together with the record of the eager leg. Until resolution
    /// the ledger shows the post-transfer state; the standard accepts that
    /// window.
    pub fn ft_transfer_call(
        &mut self,
        sender_id: &AccountId,
        receiver_id: &AccountId,
        amount: u128,
        memo: Option<String>,
        payload: String,
        attached_fee: u128,
    ) -> (r: Result<(PendingTransfer, FtEvent), FtError>)
        requires
            old(self).wf(),
        ensures
            final(self).wf(),
            final(self).spec_total_supply() == old(self).spec_total_supply(),
            final(self).spec_storage_cost() == old(self).spec_storage_cost(),
            final(self).spec_metadata() == old(self).spec_metadata(),
            r is Ok <==> attached_fee == ATTACHED_TRANSFER_FEE && transfer_admissible(
                old(self).balances(),
                sender_id@,
                receiver_id@,
                amount,
            ),
            r matches Ok((pending, ev)) ==> final(self).balances() == balances_after_transfer(
                old(self).balances(),
                sender_id@,
                receiver_id@,
                amount,
            ) && is_transfer_event(ev, sender_id@, receiver_id@, amount, memo)
                && pending.sender_id@ == sender_id@ && pending.receiver_id@ == receiver_id@
                && pending.amount == amount && pending.payload == payload,
            r is Ok ==> old(self).spec_balance_of(receiver_id@) + amount <= u128::MAX,
            r is Err ==> *final(self) == *old(self),
            amount == 0 ==> r == Err::<(PendingTransfer, FtEvent), FtError>(FtError::ZeroAmount),
            amount != 0 && attached_fee != ATTACHED_TRANSFER_FEE ==> r == Err::<
                (PendingTransfer, FtEvent),
                FtError,
            >(FtError::MissingAttachedFee),
            attached_fee == ATTACHED_TRANSFER_FEE && !transfer_admissible(
                old(self).balances(),
                sender_id@,
                receiver_id@,
                amount,
            ) ==> r == Err::<(PendingTransfer, FtEvent), FtError>(
                transfer_error(old(self).balances(), sender_id@, receiver_id@, amount),
            ),
    {
        if amount == 0 {
            return Err(FtError::ZeroAmount);
        }
        if attached_fee != ATTACHED_TRANSFER_FEE {
            return Err(FtError::MissingAttachedFee);
        }
        match self.accounts.internal_transfer(sender_id, receiver_id, amount, memo) {
            Err(e) => Err(e),
            Ok(ev) => {
                let pending = PendingTransfer {
                    sender_id: sender_id.duplicate(),
                    receiver_id: receiver_id.duplicate(),
                    amount,
                    payload,
                };
                Ok((pending, ev))
            },
        }
    }

    /// Second phase of transfer-and-notify: reconciles the eager credit with
    /// the receiver's reported unused amount (clamped to the transferred
    /// amount; a failed call counts in full). The refund re-debits the
    /// receiver and re-credits the sender, capped by what the receiver still
    /// holds — a shortfall is absorbed by the sender and surfaces only as a
    /// larger kept amount, never as a failure. A sender that unregistered
    /// during the window cannot be credited, so nothing moves. Returns the
    /// resolution with the amount the receiver kept and, when a refund
    /// applied, the record of the reversal leg.
    pub fn ft_resolve_transfer(&mut self, pending: PendingTransfer, outcome: NotificationOutcome) -> (r:
        TransferResolution)
        requires
            old(self).wf(),
        ensures
            final(self).wf(),
            final(self).spec_total_supply() == old(self).spec_total_supply(),
            final(self).spec_storage_cost() == old(self).spec_storage_cost(),
            final(self).spec_metadata() == old(self).spec_metadata(),
            ({
                let refund = spec_resolve_refund(
                    old(self).balances(),
                    pending.sender_id@,
                    pending.receiver_id@,
                    spec_unused_amount(outcome, pending.amount),
                );
                &&& (refund == 0 ==> (r matches TransferResolution::Resolved { kept_amount }
                    && kept_amount == pending.amount && *final(self) == *old(self)))
                &&& (refund > 0 ==> (r matches TransferResolution::Reverted {
                    kept_amount,
                    refunded,
                    event,
                } && kept_amount == pending.amount - refund && refunded == refund
                    && (pending.sender_id@ != pending.receiver_id@ ==> old(self).spec_balance_of(
                    pending.sender_id@,
                ) + refund <= u128::MAX) && is_transfer_event(
                    event,
                    pending.receiver_id@,
                    pending.sender_id@,
                    refund,
                    None::<String>,
                ) && final(self).balances() == balances_after_transfer(
                    old(self).balances(),
                    pending.receiver_id@,
                    pending.sender_id@,
                    refund,
                )))
            }),
    {
        let amount = pending.amount;
        let unused = match outcome {
            NotificationOutcome::Unused(u) => if u <= amount {
                u
            } else {
                amount
            },
            NotificationOutcome::Failed => amount,
        };
        let avail = self.accounts.balance_of(&pending.receiver_id);
        let refund = if unused <= avail {
            unused
        } else {
            avail
        };
        if refund > 0 && self.accounts.is_registered(&pending.sender_id) {
            match self.accounts.internal_withdraw(&pending.receiver_id, refund) {
                Ok(()) => {},
                Err(_) => {
                    proof {
                        assert(false);
                    }
                },
            }
            proof {
                self.accounts.lemma_registered_balance_le_sum(pending.sender_id@);
            }
            match self.accounts.internal_deposit(&pending.sender_id, refund) {
                Ok(()) => {},
                Err(_) => {
                    proof {
                        assert(false);
                    }
                },
            }
            let PendingTransfer { sender_id, receiver_id, amount: _, payload: _ } = pending;
            let event = FtEvent::Transfer {
                sender_id: receiver_id,
                receiver_id: sender_id,
                amount: refund,
                memo: None,
            };
            TransferResolution::Reverted { kept_amount: amount - refund, refunded: refund, event }
        } else {
            TransferResolution::Resolved { kept_amount: amount }
        }
    }
}

/// The storage cost unit is never recomputed after initialization: every
/// well-formed state prices a registration at exactly the measured worst-case
/// record bytes times the per-byte price, and every operation both preserves
/// well-formedness and carries the cost unchanged in its contract.
pub proof fn lemma_storage_cost_fixed(c: Contract)
    requires
        c.wf(),
    ensures
        c.spec_storage_cost() == (MAX_ACCOUNT_ID_LENGTH + BALANCE_RECORD_BYTES)
            * STORAGE_PRICE_PER_BYTE,
{
}

/// Conservation of supply: in every well-formed state the balances sum to the
/// total supply. Initialization establishes well-formedness and every
/// operation preserves it, so the equality holds of all reachable states.
pub proof fn lemma_supply_conservation(c: Contract)
    requires
        c.wf(),
    ensures
        c.spec_sum_of_balances() == c.spec_total_supply() as int,
{
}

/// A nonzero balance implies registration: every account outside the ledger's
/// domain reads as zero.
pub proof fn lemma_nonzero_balance_implies_registered(c: Contract, k: Seq<u8>)
    ensures
        c.spec_balance_of(k) != 0 ==> c.spec_registered(k),
{
}

/// Round trip: registering an account and immediately unregistering it on a
/// zero balance restores the ledger exactly, and the two refunds together
/// return the attached deposit in full — the cost unit held back by
/// [`Contract::register_account`] is precisely what
/// [`Contract::unregister_account`] refunds.
pub proof fn lemma_register_unregister_round_trip(
    m: Map<Seq<u8>, u128>,
    k: Seq<u8>,
    attached_deposit: u128,
    storage_cost: u128,
)
    requires
        !m.dom().contains(k),
        storage_cost <= attached_deposit,
    ensures
        m.insert(k, 0u128).remove(k) == m,
        (attached_deposit - storage_cost) + storage_cost == attached_deposit,
{
    assert(m.insert(k, 0u128).remove(k) =~= m);
}

} // verus!
