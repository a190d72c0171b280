//! The balance ledger: the authoritative mapping of account to balance.
//!
//! The ledger is a vector of records with pairwise-distinct account
//! identifiers; its specification view is the map from identifier bytes to
//! balance. Deposit and withdraw are atomic primitives that never produce a
//! negative or overflowing balance and never touch an unregistered account;
//! transfer composes them so that either both halves apply or neither does.

use vstd::prelude::*;

use crate::account::AccountId;
use crate::errors::FtError;
use crate::events::FtEvent;
use crate::events::is_transfer_event;

verus! {

/// Storage bytes a balance amount occupies inside one record.
pub const BALANCE_RECORD_BYTES: u64 = 16;

/// One ledger record: a registered account and its balance.
pub struct Entry {
    /// The registered account.
    pub account: AccountId,
    /// Its balance, in the token's smallest unit.
    pub balance: u128,
}

/// Sum of the balances of a record sequence.
pub open spec fn sum_of_balances(s: Seq<Entry>) -> int
    decreases s.len(),
{
    if s.len() == 0 {
        0
    } else {
        sum_of_balances(s.drop_last()) + s.last().balance
    }
}

/// Storage bytes one record occupies: its key plus its balance.
pub open spec fn record_storage_bytes(e: Entry) -> int {
    e.account@.len() + BALANCE_RECORD_BYTES
}

/// Storage bytes a record sequence occupies.
pub open spec fn storage_bytes_of(s: Seq<Entry>) -> int
    decreases s.len(),
{
    if s.len() == 0 {
        0
    } else {
        storage_bytes_of(s.drop_last()) + record_storage_bytes(s.last())
    }
}

/// No two records name the same account.
pub open spec fn unique_accounts(s: Seq<Entry>) -> bool {
    forall|i: int, j: int|
        0 <= i < j < s.len() ==> (#[trigger] s[i]).account@ != (#[trigger] s[j]).account@
}

/// Some record names the account.
pub open spec fn has_account(s: Seq<Entry>, k: Seq<u8>) -> bool {
    exists|i: int| 0 <= i < s.len() && (#[trigger] s[i]).account@ == k
}

/// The index of the record naming the account (unique when the accounts are).
pub open spec fn account_index(s: Seq<Entry>, k: Seq<u8>) -> int {
    choose|i: int| 0 <= i < s.len() && (#[trigger] s[i]).account@ == k
}

/// The map from account identifier bytes to balance that a record sequence
/// represents.
pub open spec fn view_of(s: Seq<Entry>) -> Map<Seq<u8>, u128> {
    Map::new(|k: Seq<u8>| has_account(s, k), |k: Seq<u8>| s[account_index(s, k)].balance)
}

/// The balance a map gives an account, zero for an absent one.
pub open spec fn balance_or_zero(m: Map<Seq<u8>, u128>, k: Seq<u8>) -> u128 {
    if m.dom().contains(k) {
        m[k]
    } else {
        0
    }
}

/// With pairwise-distinct accounts, a record's index is the account's index.
pub proof fn lemma_unique_index(s: Seq<Entry>, k: Seq<u8>, i: int)
    requires
        unique_accounts(s),
        0 <= i < s.len(),
        s[i].account@ == k,
    ensures
        has_account(s, k),
        account_index(s, k) == i,
{
    assert(has_account(s, k));
    let j = account_index(s, k);
    if j < i {
        assert(s[j].account@ != s[i].account@);
    } else if i < j {
        assert(s[i].account@ != s[j].account@);
    }
}

/// Appending a record adds its balance to the sum.
pub proof fn lemma_sum_push(s: Seq<Entry>, e: Entry)
    ensures
        sum_of_balances(s.push(e)) == sum_of_balances(s) + e.balance,
{
    assert(s.push(e).drop_last() =~= s);
}

/// Replacing a record adjusts the sum by the balance difference.
pub proof fn lemma_sum_update(s: Seq<Entry>, i: int, e: Entry)
    requires
        0 <= i < s.len(),
    ensures
        sum_of_balances(s.update(i, e)) == sum_of_balances(s) - s[i].balance + e.balance,
    decreases s.len(),
{
    let t = s.update(i, e);
    if i == s.len() - 1 {
        assert(t.drop_last() =~= s.drop_last());
    } else {
        assert(t.drop_last() =~= s.drop_last().update(i, e));
        lemma_sum_update(s.drop_last(), i, e);
        assert(t.last() == s.last());
    }
}

/// Removing a record subtracts its balance from the sum.
pub proof fn lemma_sum_remove(s: Seq<Entry>, i: int)
    requires
        0 <= i < s.len(),
    ensures
        sum_of_balances(s.remove(i)) == sum_of_balances(s) - s[i].balance,
    decreases s.len(),
{
    let t = s.remove(i);
    if i == s.len() - 1 {
        assert(t =~= s.drop_last());
    } else {
        assert(t.drop_last() =~= s.drop_last().remove(i));
        lemma_sum_remove(s.drop_last(), i);
        assert(t.last() == s.last());
    }
}

/// The sum of balances is never negative.
pub proof fn lemma_sum_nonneg(s: Seq<Entry>)
    ensures
        sum_of_balances(s) >= 0,
    decreases s.len(),
{
    if s.len() > 0 {
        lemma_sum_nonneg(s.drop_last());
    }
}

/// Every single balance is bounded by the sum of all of them.
pub proof fn lemma_balance_le_sum(s: Seq<Entry>, i: int)
    requires
        0 <= i < s.len(),
    ensures
        s[i].balance <= sum_of_balances(s),
    decreases s.len(),
{
    if i == s.len() - 1 {
        lemma_sum_nonneg(s.drop_last());
    } else {
        lemma_balance_le_sum(s.drop_last(), i);
        assert(s.drop_last()[i] == s[i]);
    }
}

/// Appending a record adds its footprint to the storage bytes.
pub proof fn lemma_storage_push(s: Seq<Entry>, e: Entry)
    ensures
        storage_bytes_of(s.push(e)) == storage_bytes_of(s) + record_storage_bytes(e),
{
    assert(s.push(e).drop_last() =~= s);
}

/// Replacing a record with one of the same account keeps the storage bytes.
pub proof fn lemma_storage_update(s: Seq<Entry>, i: int, e: Entry)
    requires
        0 <= i < s.len(),
        e.account@ == s[i].account@,
    ensures
        storage_bytes_of(s.update(i, e)) == storage_bytes_of(s),
    decreases s.len(),
{
    let t = s.update(i, e);
    if i == s.len() - 1 {
        assert(t.drop_last() =~= s.drop_last());
    } else {
        assert(t.drop_last() =~= s.drop_last().update(i, e));
        lemma_storage_update(s.drop_last(), i, e);
        assert(t.last() == s.last());
    }
}

/// Removing a record subtracts its footprint from the storage bytes.
pub proof fn lemma_storage_remove(s: Seq<Entry>, i: int)
    requires
        0 <= i < s.len(),
    ensures
        storage_bytes_of(s.remove(i)) == storage_bytes_of(s) - record_storage_bytes(s[i]),
    decreases s.len(),
{
    let t = s.remove(i);
    if i == s.len() - 1 {
        assert(t =~= s.drop_last());
    } else {
        assert(t.drop_last() =~= s.drop_last().remove(i));
        lemma_storage_remove(s.drop_last(), i);
        assert(t.last() == s.last());
    }
}

/// A prefix never occupies more storage bytes than the whole sequence.
proof fn lemma_storage_prefix_le(s: Seq<Entry>, i: int)
    requires
        0 <= i <= s.len(),
    ensures
        storage_bytes_of(s.subrange(0, i)) <= storage_bytes_of(s),
    decreases s.len() - i,
{
    if i == s.len() {
        assert(s.subrange(0, i) =~= s);
    } else {
        lemma_storage_prefix_le(s, i + 1);
        assert(s.subrange(0, i + 1).drop_last() =~= s.subrange(0, i));
    }
}

/// Appending a record for a fresh account extends the view by that account.
pub proof fn lemma_view_push(s: Seq<Entry>, e: Entry)
    requires
        unique_accounts(s),
        !has_account(s, e.account@),
    ensures
        unique_accounts(s.push(e)),
        view_of(s.push(e)) =~= view_of(s).insert(e.account@, e.balance),
{
    let k = e.account@;
    let t = s.push(e);
    assert forall|i: int, j: int| 0 <= i < j < t.len() implies (#[trigger] t[i]).account@ != (
    #[trigger] t[j]).account@ by {
        if j == s.len() {
            assert(t[i] == s[i]);
            if s[i].account@ == k {
                assert(has_account(s, k));
            }
        } else {
            assert(t[i] == s[i]);
            assert(t[j] == s[j]);
        }
    }
    assert forall|k2: Seq<u8>| has_account(t, k2) implies k2 == k || has_account(s, k2) by {
        let i = choose|i: int| 0 <= i < t.len() && (#[trigger] t[i]).account@ == k2;
        if i < s.len() {
            assert(s[i].account@ == k2);
        }
    }
    assert forall|k2: Seq<u8>| has_account(s, k2) implies has_account(t, k2) by {
        let i = choose|i: int| 0 <= i < s.len() && (#[trigger] s[i]).account@ == k2;
        assert(t[i].account@ == k2);
    }
    assert(t[s.len() as int].account@ == k);
    assert(has_account(t, k));
    assert forall|k2: Seq<u8>| has_account(t, k2) implies view_of(t)[k2] == view_of(s).insert(
        k,
        e.balance,
    )[k2] by {
        if k2 == k {
            lemma_unique_index(t, k, s.len() as int);
        } else {
            let i = choose|i: int| 0 <= i < s.len() && (#[trigger] s[i]).account@ == k2;
            lemma_unique_index(s, k2, i);
            assert(t[i].account@ == k2);
            lemma_unique_index(t, k2, i);
        }
    }
}

/// Replacing a record's balance updates the view at its account alone.
pub proof fn lemma_view_update(s: Seq<Entry>, i: int, e: Entry)
    requires
        unique_accounts(s),
        0 <= i < s.len(),
        e.account@ == s[i].account@,
    ensures
        unique_accounts(s.update(i, e)),
        view_of(s.update(i, e)) =~= view_of(s).insert(e.account@, e.balance),
{
    let k = e.account@;
    let t = s.update(i, e);
    assert forall|a: int, b: int| 0 <= a < b < t.len() implies (#[trigger] t[a]).account@ != (
    #[trigger] t[b]).account@ by {
        assert(t[a].account@ == s[a].account@);
        assert(t[b].account@ == s[b].account@);
    }
    assert forall|k2: Seq<u8>| has_account(t, k2) implies has_account(s, k2) by {
        let j = choose|j: int| 0 <= j < t.len() && (#[trigger] t[j]).account@ == k2;
        assert(s[j].account@ == k2);
    }
    assert forall|k2: Seq<u8>| has_account(s, k2) implies has_account(t, k2) by {
        let j = choose|j: int| 0 <= j < s.len() && (#[trigger] s[j]).account@ == k2;
        assert(t[j].account@ == k2);
    }
    assert forall|k2: Seq<u8>| has_account(t, k2) implies view_of(t)[k2] == view_of(s).insert(
        k,
        e.balance,
    )[k2] by {
        if k2 == k {
            lemma_unique_index(t, k, i);
        } else {
            let j = choose|j: int| 0 <= j < s.len() && (#[trigger] s[j]).account@ == k2;
            lemma_unique_index(s, k2, j);
            assert(t[j].account@ == k2);
            lemma_unique_index(t, k2, j);
        }
    }
}

/// Removing a record deletes its account from the view.
pub proof fn lemma_view_remove(s: Seq<Entry>, i: int)
    requires
        unique_accounts(s),
        0 <= i < s.len(),
    ensures
        unique_accounts(s.remove(i)),
        view_of(s.remove(i)) =~= view_of(s).remove(s[i].account@),
{
    let k = s[i].account@;
    let t = s.remove(i);
    assert forall|a: int, b: int| 0 <= a < b < t.len() implies (#[trigger] t[a]).account@ != (
    #[trigger] t[b]).account@ by {
        let a2: int = if a < i { a } else { a + 1 };
        let b2: int = if b < i { b } else { b + 1 };
        assert(t[a].account@ == s[a2].account@);
        assert(t[b].account@ == s[b2].account@);
    }
    assert forall|k2: Seq<u8>| has_account(t, k2) implies has_account(s, k2) && k2 != k by {
        let j = choose|j: int| 0 <= j < t.len() && (#[trigger] t[j]).account@ == k2;
        let j2: int = if j < i { j } else { j + 1 };
        assert(s[j2].account@ == k2);
        if k2 == k {
            if j2 < i {
                assert(s[j2].account@ != s[i].account@);
            } else {
                assert(s[i].account@ != s[j2].account@);
            }
        }
    }
    assert forall|k2: Seq<u8>| has_account(s, k2) && k2 != k implies has_account(t, k2) by {
        let j = choose|j: int| 0 <= j < s.len() && (#[trigger] s[j]).account@ == k2;
        if j < i {
            assert(t[j].account@ == k2);
        } else {
            lemma_unique_index(s, k2, j);
            lemma_unique_index(s, k, i);
            assert(j != i);
            assert(t[j - 1].account@ == k2);
        }
    }
    assert forall|k2: Seq<u8>| has_account(t, k2) implies view_of(t)[k2] == view_of(s).remove(
        k,
    )[k2] by {
        let j = choose|j: int| 0 <= j < t.len() && (#[trigger] t[j]).account@ == k2;
        let j2: int = if j < i { j } else { j + 1 };
        assert(s[j2].account@ == k2);
        lemma_unique_index(t, k2, j);
        lemma_unique_index(s, k2, j2);
        assert(t[j].balance == s[j2].balance);
    }
}

/// Sender before receiver, zero ahead of everything: the inputs on which a
/// transfer applies.
pub open spec fn transfer_admissible(
    m: Map<Seq<u8>, u128>,
    sender: Seq<u8>,
    receiver: Seq<u8>,
    amount: u128,
) -> bool {
    &&& amount > 0
    &&& sender != receiver
    &&& m.dom().contains(receiver)
    &&& m.dom().contains(sender)
    &&& m[sender] >= amount
}

/// The error a transfer reports, checked in this order: a zero amount ahead of
/// everything, then self-transfer, then the receiver's registration, then the
/// sender's, then the sender's balance.
pub open spec fn transfer_error(
    m: Map<Seq<u8>, u128>,
    sender: Seq<u8>,
    receiver: Seq<u8>,
    amount: u128,
) -> FtError {
    if amount == 0 {
        FtError::ZeroAmount
    } else if sender == receiver {
        FtError::SelfTransfer
    } else if !m.dom().contains(receiver) {
        FtError::UnregisteredReceiver
    } else if !m.dom().contains(sender) {
        FtError::UnregisteredAccount
    } else {
        FtError::InsufficientBalance
    }
}

/// The balances after `amount` moved from `from` to `to`: the debit applied
/// first, the credit on top of it (so the formula also covers `from == to`).
pub open spec fn balances_after_transfer(
    m: Map<Seq<u8>, u128>,
    from: Seq<u8>,
    to: Seq<u8>,
    amount: u128,
) -> Map<Seq<u8>, u128> {
    let mid = m.insert(from, (m[from] - amount) as u128);
    mid.insert(to, (mid[to] + amount) as u128)
}

/// The authoritative account-to-balance mapping.
pub struct Ledger {
    entries: Vec<Entry>,
}

impl View for Ledger {
    type V = Map<Seq<u8>, u128>;

    closed spec fn view(&self) -> Map<Seq<u8>, u128> {
        view_of(self.entries@)
    }
}

impl Ledger {
    /// Well-formed: no account has two records.
    pub closed spec fn wf(&self) -> bool {
        unique_accounts(self.entries@)
    }

    /// Sum of all balances in the ledger.
    pub closed spec fn sum(&self) -> int {
        sum_of_balances(self.entries@)
    }

    /// Storage bytes the ledger's records occupy.
    pub closed spec fn spec_storage_bytes(&self) -> int {
        storage_bytes_of(self.entries@)
    }

    /// An empty ledger.
    pub fn new() -> (r: Ledger)
        ensures
            r.wf(),
            r@ == Map::<Seq<u8>, u128>::empty(),
            r.sum() == 0,
            r.spec_storage_bytes() == 0,
    {
        let l = Ledger { entries: Vec::new() };
        proof {
            assert(l@ =~= Map::<Seq<u8>, u128>::empty());
        }
        l
    }

    /// A registered account's balance is bounded by the sum of all balances.
    pub proof fn lemma_registered_balance_le_sum(self, k: Seq<u8>)
        requires
            self.wf(),
            self@.dom().contains(k),
        ensures
            self@[k] <= self.sum(),
            self.sum() >= 0,
    {
        let s = self.entries@;
        let i = account_index(s, k);
        assert(0 <= i < s.len() && s[i].account@ == k);
        lemma_balance_le_sum(s, i);
        lemma_sum_nonneg(s);
    }

    fn find(&self, account_id: &AccountId) -> (r: Option<usize>)
        ensures
            match r {
                Some(i) => 0 <= i < self.entries@.len() && self.entries@[i as int].account@
                    == account_id@,
                None => !has_account(self.entries@, account_id@),
            },
    {
        let mut i: usize = 0;
        while i < self.entries.len()
            invariant
                0 <= i <= self.entries@.len(),
                forall|j: int| 0 <= j < i ==> (#[trigger] self.entries@[j]).account@ != account_id@,
            decreases self.entries@.len() - i,
        {
            if self.entries[i].account.eq_id(account_id) {
                return Some(i);
            }
            i += 1;
        }
        None
    }

    /// Whether the account has a record; even a zero balance counts.
    pub fn is_registered(&self, account_id: &AccountId) -> (r: bool)
        ensures
            r == self@.dom().contains(account_id@),
    {
        match self.find(account_id) {
            Some(i) => {
                proof {
                    assert(has_account(self.entries@, account_id@));
                }
                true
            },
            None => false,
        }
    }

    /// The account's balance, zero when it has no record.
    pub fn balance_of(&self, account_id: &AccountId) -> (r: u128)
        requires
            self.wf(),
        ensures
            r == balance_or_zero(self@, account_id@),
    {
        match self.find(account_id) {
            Some(i) => {
                proof {
                    lemma_unique_index(self.entries@, account_id@, i as int);
                    assert(has_account(self.entries@, account_id@));
                }
                self.entries[i].balance
            },
            None => 0,
        }
    }

    /// Inserts a zero-balance record for an account that has none.
    pub fn internal_register_account(&mut self, account_id: &AccountId)
        requires
            old(self).wf(),
            !old(self)@.dom().contains(account_id@),
        ensures
            final(self).wf(),
            final(self)@ == old(self)@.insert(account_id@, 0u128),
            final(self).sum() == old(self).sum(),
            final(self).spec_storage_bytes() == old(self).spec_storage_bytes() + account_id@.len()
                + BALANCE_RECORD_BYTES,
    {
        let entry = Entry { account: account_id.duplicate(), balance: 0 };
        proof {
            let s = self.entries@;
            lemma_view_push(s, entry);
            lemma_sum_push(s, entry);
            lemma_storage_push(s, entry);
        }
        self.entries.push(entry);
    }

    /// Removes the account's record and returns the balance it held.
    pub fn internal_unregister_account(&mut self, account_id: &AccountId) -> (r: u128)
        requires
            old(self).wf(),
            old(self)@.dom().contains(account_id@),
        ensures
            final(self).wf(),
            final(self)@ == old(self)@.remove(account_id@),
            r == old(self)@[account_id@],
            final(self).sum() == old(self).sum() - r,
            final(self).spec_storage_bytes() == old(self).spec_storage_bytes() - (
            account_id@.len() + BALANCE_RECORD_BYTES),
    {
        let found = self.find(account_id);
        match found {
            Some(i) => {
                proof {
                    let s = self.entries@;
                    lemma_unique_index(s, account_id@, i as int);
                    lemma_view_remove(s, i as int);
                    lemma_sum_remove(s, i as int);
                    lemma_storage_remove(s, i as int);
                }
                let e = self.entries.remove(i);
                e.balance
            },
            None => {
                proof {
                    assert(false);
                }
                0
            },
        }
    }

    /// Overwrites the balance of the record at a known index.
    fn set_balance_at(&mut self, i: usize, v: u128)
        requires
            old(self).wf(),
            i < old(self).entries@.len(),
        ensures
            final(self).wf(),
            final(self)@ == old(self)@.insert(old(self).entries@[i as int].account@, v),
            final(self).sum() == old(self).sum() - old(self).entries@[i as int].balance + v,
            final(self).spec_storage_bytes() == old(self).spec_storage_bytes(),
    {
        let mut e = self.entries.remove(i);
        e.balance = v;
        proof {
            let s = old(self).entries@;
            let ghost_e = e;
            assert(s.remove(i as int).insert(i as int, ghost_e) =~= s.update(i as int, ghost_e));
            lemma_view_update(s, i as int, ghost_e);
            lemma_sum_update(s, i as int, ghost_e);
            lemma_storage_update(s, i as int, ghost_e);
        }
        self.entries.insert(i, e);
    }

    /// Adds `amount` to a registered account's balance; fails on an absent
    /// account or a balance that would overflow, mutating nothing.
    pub fn internal_deposit(&mut self, account_id: &AccountId, amount: u128) -> (r: Result<
        (),
        FtError,
    >)
        requires
            old(self).wf(),
        ensures
            final(self).wf(),
            r is Ok <==> old(self)@.dom().contains(account_id@) && old(self)@[account_id@] + amount
                <= u128::MAX,
            r is Ok ==> final(self)@ == old(self)@.insert(
                account_id@,
                (old(self)@[account_id@] + amount) as u128,
            ) && final(self).sum() == old(self).sum() + amount,
            r is Err ==> *final(self) == *old(self),
            !old(self)@.dom().contains(account_id@) ==> r == Err::<(), FtError>(
                FtError::UnregisteredAccount,
            ),
            old(self)@.dom().contains(account_id@) && old(self)@[account_id@] + amount > u128::MAX
                ==> r == Err::<(), FtError>(FtError::BalanceOverflow),
            final(self).spec_storage_bytes() == old(self).spec_storage_bytes(),
    {
        let found = self.find(account_id);
        match found {
            None => Err(FtError::UnregisteredAccount),
            Some(i) => {
                proof {
                    lemma_unique_index(self.entries@, account_id@, i as int);
                    assert(has_account(self.entries@, account_id@));
                }
                let bal = self.entries[i].balance;
                if amount > u128::MAX - bal {
                    Err(FtError::BalanceOverflow)
                } else {
                    self.set_balance_at(i, bal + amount);
                    Ok(())
                }
            },
        }
    }

    /// Subtracts `amount` from a registered account's balance; fails on an
    /// absent account or a balance smaller than `amount`, mutating nothing.
    pub fn internal_withdraw(&mut self, account_id: &AccountId, amount: u128) -> (r: Result<
        (),
        FtError,
    >)
        requires
            old(self).wf(),
        ensures
            final(self).wf(),
            r is Ok <==> old(self)@.dom().contains(account_id@) && old(self)@[account_id@]
                >= amount,
            r is Ok ==> final(self)@ == old(self)@.insert(
                account_id@,
                (old(self)@[account_id@] - amount) as u128,
            ) && final(self).sum() == old(self).sum() - amount,
            r is Err ==> *final(self) == *old(self),
            !old(self)@.dom().contains(account_id@) ==> r == Err::<(), FtError>(
                FtError::UnregisteredAccount,
            ),
            old(self)@.dom().contains(account_id@) && old(self)@[account_id@] < amount ==> r
                == Err::<(), FtError>(FtError::InsufficientBalance),
            final(self).spec_storage_bytes() == old(self).spec_storage_bytes(),
    {
        let found = self.find(account_id);
        match found {
            None => Err(FtError::UnregisteredAccount),
            Some(i) => {
                proof {
                    lemma_unique_index(self.entries@, account_id@, i as int);
                    assert(has_account(self.entries@, account_id@));
                }
                let bal = self.entries[i].balance;
                if bal < amount {
                    Err(FtError::InsufficientBalance)
                } else {
                    self.set_balance_at(i, bal - amount);
                    Ok(())
                }
            },
        }
    }

    /// Moves `amount` from sender to receiver as one atomic step: if either
    /// half would fail, neither mutation is applied. Emits the transfer record
    /// only after both halves succeeded.
    pub fn internal_transfer(
        &mut self,
        sender_id: &AccountId,
        receiver_id: &AccountId,
        amount: u128,
        memo: Option<String>,
    ) -> (r: Result<FtEvent, FtError>)
        requires
            old(self).wf(),
            old(self).sum() <= u128::MAX,
        ensures
            final(self).wf(),
            final(self).sum() == old(self).sum(),
            final(self).spec_storage_bytes() == old(self).spec_storage_bytes(),
            r is Ok <==> transfer_admissible(old(self)@, sender_id@, receiver_id@, amount),
            r is Ok ==> old(self)@[receiver_id@] + amount <= u128::MAX,
            r matches Ok(ev) ==> final(self)@ == balances_after_transfer(
                old(self)@,
                sender_id@,
                receiver_id@,
                amount,
            ) && is_transfer_event(ev, sender_id@, receiver_id@, amount, memo),
            r matches Err(e) ==> *final(self) == *old(self) && e == transfer_error(
                old(self)@,
                sender_id@,
                receiver_id@,
                amount,
            ),
    {
        if amount == 0 {
            return Err(FtError::ZeroAmount);
        }
        if sender_id.eq_id(receiver_id) {
            return Err(FtError::SelfTransfer);
        }
        if !self.is_registered(receiver_id) {
            return Err(FtError::UnregisteredReceiver);
        }
        match self.internal_withdraw(sender_id, amount) {
            Err(e) => Err(e),
            Ok(()) => {
                proof {
                    self.lemma_registered_balance_le_sum(receiver_id@);
                }
                match self.internal_deposit(receiver_id, amount) {
                    Err(e) => {
                        proof {
                            assert(false);
                        }
                        Err(e)
                    },
                    Ok(()) => Ok(
                        FtEvent::Transfer {
                            sender_id: sender_id.duplicate(),
                            receiver_id: receiver_id.duplicate(),
                            amount,
                            memo,
                        },
                    ),
                }
            },
        }
    }

    /// Storage bytes the records occupy, counted record by record.
    pub fn storage_usage(&self) -> (r: u64)
        requires
            self.spec_storage_bytes() <= u64::MAX,
        ensures
            r == self.spec_storage_bytes(),
    {
        let n = self.entries.len();
        let mut acc: u64 = 0;
        let mut i: usize = 0;
        while i < n
            invariant
                0 <= i <= n,
                n == self.entries@.len(),
                storage_bytes_of(self.entries@) <= u64::MAX,
                acc == storage_bytes_of(self.entries@.subrange(0, i as int)),
            decreases n - i,
        {
            proof {
                lemma_storage_prefix_le(self.entries@, i + 1);
                assert(self.entries@.subrange(0, i + 1).drop_last() =~= self.entries@.subrange(
                    0,
                    i as int,
                ));
            }
            let len = self.entries[i].account.len();
            acc = acc + (len as u64) + BALANCE_RECORD_BYTES;
            i += 1;
        }
        proof {
            assert(self.entries@.subrange(0, n as int) =~= self.entries@);
        }
        acc
    }
}

} // verus!
