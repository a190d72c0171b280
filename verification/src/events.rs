//! Event records handed to the external logging collaborator.
//!
//! The core only decides when an event is due and with what fields; the wire
//! format belongs to the collaborator that serializes the records. An event is
//! constructed only after the mutation it reports has been applied, never on a
//! path that aborts.

use vstd::prelude::*;

use crate::account::AccountId;

verus! {

/// A mint, transfer or burn record, tagged through [`FtEvent::standard`] and
/// [`FtEvent::version`] with the standard it follows.
#[derive(Debug)]
pub enum FtEvent {
    /// Tokens entered circulation; emitted once, for the genesis supply.
    Mint {
        /// The account credited with the minted amount.
        owner_id: AccountId,
        /// The minted amount, in the token's smallest unit.
        amount: u128,
        /// Free-form note carried with the record.
        memo: Option<String>,
    },
    /// Tokens moved between two registered accounts.
    Transfer {
        /// The account debited.
        sender_id: AccountId,
        /// The account credited.
        receiver_id: AccountId,
        /// The amount moved, in the token's smallest unit.
        amount: u128,
        /// Free-form note carried with the record.
        memo: Option<String>,
    },
    /// Tokens left circulation; emitted only by forced unregistration.
    Burn {
        /// The account whose balance was burned.
        owner_id: AccountId,
        /// The burned amount, in the token's smallest unit.
        amount: u128,
        /// Free-form note carried with the record.
        memo: Option<String>,
    },
}

/// The event is a mint of `amount` to `owner` carrying `memo`.
pub open spec fn is_mint_event(e: FtEvent, owner: Seq<u8>, amount: u128, memo: Option<String>) -> bool {
    e matches FtEvent::Mint { owner_id, amount: a, memo: m }
        && owner_id@ == owner && a == amount && m == memo
}

/// The event is the genesis mint: `amount` to `owner`, with the fixed memo.
pub open spec fn is_genesis_mint_event(e: FtEvent, owner: Seq<u8>, amount: u128) -> bool {
    &&& e matches FtEvent::Mint { owner_id, amount: a, memo }
        && owner_id@ == owner && a == amount
        && (memo matches Some(s) && s@ == "Initial token supply is minted"@)
}

/// The event is a transfer of `amount` from `sender` to `receiver` carrying
/// `memo`.
pub open spec fn is_transfer_event(
    e: FtEvent,
    sender: Seq<u8>,
    receiver: Seq<u8>,
    amount: u128,
    memo: Option<String>,
) -> bool {
    e matches FtEvent::Transfer { sender_id, receiver_id, amount: a, memo: m }
        && sender_id@ == sender && receiver_id@ == receiver && a == amount && m == memo
}

/// The event is a burn of `amount` from `owner` carrying `memo`.
pub open spec fn is_burn_event(e: FtEvent, owner: Seq<u8>, amount: u128, memo: Option<String>) -> bool {
    e matches FtEvent::Burn { owner_id, amount: a, memo: m }
        && owner_id@ == owner && a == amount && m == memo
}

impl FtEvent {
    /// Identifier of the event standard the records follow.
    pub fn standard(&self) -> (r: String)
        ensures
            r@ == "nep141"@,
    {
        "nep141".to_owned()
    }

    /// Version of the event standard the records follow.
    pub fn version(&self) -> (r: String)
        ensures
            r@ == "1.0.0"@,
    {
        "1.0.0".to_owned()
    }

    /// Name of the record shape, one per variant.
    pub fn event_name(&self) -> (r: String)
        ensures
            self matches FtEvent::Mint { .. } ==> r@ == "ft_mint"@,
            self matches FtEvent::Transfer { .. } ==> r@ == "ft_transfer"@,
            self matches FtEvent::Burn { .. } ==> r@ == "ft_burn"@,
    {
        match self {
            FtEvent::Mint { .. } => "ft_mint".to_owned(),
            FtEvent::Transfer { .. } => "ft_transfer".to_owned(),
            FtEvent::Burn { .. } => "ft_burn".to_owned(),
        }
    }
}

} // verus!
