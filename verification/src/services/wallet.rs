//! A player's wallet: a balance and the ledger of every credit and debit behind it.
use vstd::prelude::*;

use crate::ids::{is_random_uuid, new_random_id};
use crate::time::UtcInstant;

verus! {

/// What a ledger entry records.
#[derive(Clone, Copy, Debug, PartialEq, Eq, Structural)]
pub enum WalletLedgerKind {
    TopUp,
    BookingDebit,
    RefundCredit,
    AdminAdjustment,
}

/// One credit (positive amount) or debit (negative amount) and the balance after it.
#[derive(Clone, Debug, PartialEq, Eq)]
pub struct WalletLedgerEntry {
    pub id: u128,
    pub kind: WalletLedgerKind,
    pub amount_minor: i64,
    pub balance_after_minor: i64,
    pub currency: String,
    pub reference: String,
    pub created_at: UtcInstant,
}

/// Why a wallet operation was refused.
#[derive(Clone, Copy, Debug, PartialEq, Eq, Structural)]
pub enum WalletError {
    InvalidAmount,
    InsufficientFunds,
    DuplicateReference,
    LedgerWriteFailed,
}

impl WalletError {
    /// The message shown for this error.
    pub open spec fn spec_message(&self) -> Seq<char> {
        match self {
            WalletError::InvalidAmount => "wallet amount must be positive"@,
            WalletError::InsufficientFunds => "wallet has insufficient funds"@,
            WalletError::DuplicateReference => "wallet ledger reference already exists"@,
            WalletError::LedgerWriteFailed => "wallet ledger write failed"@,
        }
    }

    /// The message shown for this error.
    pub fn message(&self) -> (r: String)
        ensures
            r@ == self.spec_message(),
    {
        match self {
            WalletError::InvalidAmount => "wallet amount must be positive".to_string(),
            WalletError::InsufficientFunds => "wallet has insufficient funds".to_string(),
            WalletError::DuplicateReference => "wallet ledger reference already exists".to_string(),
            WalletError::LedgerWriteFailed => "wallet ledger write failed".to_string(),
        }
    }
}

/// A user's wallet in one currency.
#[derive(Clone, Debug, PartialEq, Eq)]
pub struct WalletAccount {
    pub user_id: i64,
    pub currency: String,
    pub balance_minor: i64,
    pub entries: Vec<WalletLedgerEntry>,
}

/// The sum of the entries' amounts.
pub open spec fn amounts_sum(entries: Seq<WalletLedgerEntry>) -> int
    decreases entries.len(),
{
    if entries.len() == 0 {
        0
    } else {
        amounts_sum(entries.drop_last()) + entries.last().amount_minor
    }
}

/// Some entry carries `reference`.
pub open spec fn has_reference(entries: Seq<WalletLedgerEntry>, reference: Seq<char>) -> bool {
    exists|i: int| 0 <= i < entries.len() && (#[trigger] entries[i]).reference@ == reference
}

/// Every running total of the entries' amounts fits in an `i64`.
pub open spec fn running_sums_fit(entries: Seq<WalletLedgerEntry>) -> bool {
    forall|i: int| 0 <= i <= entries.len() ==> i64::MIN <= #[trigger] amounts_sum(entries.take(i)) <= i64::MAX
}

impl WalletAccount {
    /// The ledger explains the wallet: the balance is the sum of the entries, each
    /// entry records the running balance after it, no balance was ever negative,
    /// every entry is in the wallet's currency, and no reference occurs twice.
    pub open spec fn wf(self) -> bool {
        &&& self.balance_minor == amounts_sum(self.entries@)
        &&& self.balance_minor >= 0
        &&& forall|i: int| #![trigger self.entries@[i]] 0 <= i < self.entries@.len() ==> {
            &&& self.entries@[i].balance_after_minor == amounts_sum(self.entries@.take(i + 1))
            &&& self.entries@[i].balance_after_minor >= 0
            &&& self.entries@[i].currency@ == self.currency@
        }
        &&& forall|i: int, j: int| 0 <= i < j < self.entries@.len()
            ==> (#[trigger] self.entries@[i]).reference@ != (#[trigger] self.entries@[j]).reference@
    }

    /// An empty wallet for `user_id` in `currency`.
    pub fn new(user_id: i64, currency: String) -> (r: Self)
        ensures
            r.wf(),
            r.user_id == user_id,
            r.currency@ == currency@,
            r.balance_minor == 0,
            r.entries@.len() == 0,
    {
        WalletAccount { user_id, currency, balance_minor: 0, entries: Vec::new() }
    }

    /// What the entry appended by a successful operation holds.
    pub open spec fn appended(self, old: Self, kind: WalletLedgerKind, amount_minor: int, reference: Seq<char>, now: UtcInstant) -> bool {
        &&& self.user_id == old.user_id
        &&& self.currency@ == old.currency@
        &&& self.balance_minor == old.balance_minor + amount_minor
        &&& self.entries@.len() == old.entries@.len() + 1
        &&& self.entries@.drop_last() == old.entries@
        &&& is_random_uuid(self.entries@.last().id)
        &&& self.entries@.last().kind == kind
        &&& self.entries@.last().amount_minor == amount_minor
        &&& self.entries@.last().balance_after_minor == self.balance_minor
        &&& self.entries@.last().currency@ == old.currency@
        &&& self.entries@.last().reference@ == reference
        &&& self.entries@.last().created_at == now
    }

    /// Adds a positive `amount_minor` to the balance and records it under
    /// `reference`. Refused, with the wallet unchanged, for a non-positive amount or
    /// a reference already in the ledger. Works on any wallet; a well-formed wallet
    /// stays well-formed, and the ledger sum moves with the balance.
    pub fn credit(&mut self, kind: WalletLedgerKind, amount_minor: i64, reference: String, now: UtcInstant) -> (r: Result<&WalletLedgerEntry, WalletError>)
        requires
            amount_minor > 0 && !has_reference(old(self).entries@, reference@)
                ==> old(self).balance_minor + amount_minor <= i64::MAX,
        ensures
            old(self).wf() ==> final(self).wf(),
            amount_minor <= 0 ==> r == Err::<&WalletLedgerEntry, WalletError>(WalletError::InvalidAmount) && *final(self) == *old(self),
            amount_minor > 0 && has_reference(old(self).entries@, reference@)
                ==> r == Err::<&WalletLedgerEntry, WalletError>(WalletError::DuplicateReference) && *final(self) == *old(self),
            amount_minor > 0 && !has_reference(old(self).entries@, reference@) ==> {
                &&& final(self).appended(*old(self), kind, amount_minor as int, reference@, now)
                &&& amounts_sum(final(self).entries@) - final(self).balance_minor
                    == amounts_sum(old(self).entries@) - old(self).balance_minor
                &&& r matches Ok(entry) && *entry == final(self).entries@.last()
            },
    {
        if amount_minor <= 0 {
            return Err(WalletError::InvalidAmount);
        }
        if let Err(e) = self.ensure_unique_reference(&reference) {
            return Err(e);
        }
        self.push_entry(kind, amount_minor, reference, now)
    }

    /// Takes a positive `amount_minor` from the balance and records it, negated,
    /// under `reference`. Refused, with the wallet unchanged, for a non-positive
    /// amount, an amount above the balance, or a reference already in the ledger,
    /// checked in that order. Works on any wallet; a well-formed wallet stays
    /// well-formed, and the ledger sum moves with the balance.
    pub fn debit(&mut self, amount_minor: i64, reference: String, now: UtcInstant) -> (r: Result<&WalletLedgerEntry, WalletError>)
        ensures
            old(self).wf() ==> final(self).wf(),
            amount_minor <= 0 ==> r == Err::<&WalletLedgerEntry, WalletError>(WalletError::InvalidAmount) && *final(self) == *old(self),
            amount_minor > 0 && old(self).balance_minor < amount_minor
                ==> r == Err::<&WalletLedgerEntry, WalletError>(WalletError::InsufficientFunds) && *final(self) == *old(self),
            amount_minor > 0 && old(self).balance_minor >= amount_minor && has_reference(old(self).entries@, reference@)
                ==> r == Err::<&WalletLedgerEntry, WalletError>(WalletError::DuplicateReference) && *final(self) == *old(self),
            amount_minor > 0 && old(self).balance_minor >= amount_minor && !has_reference(old(self).entries@, reference@) ==> {
                &&& final(self).appended(*old(self), WalletLedgerKind::BookingDebit, -amount_minor, reference@, now)
                &&& amounts_sum(final(self).entries@) - final(self).balance_minor
                    == amounts_sum(old(self).entries@) - old(self).balance_minor
                &&& r matches Ok(entry) && *entry == final(self).entries@.last()
            },
    {
        if amount_minor <= 0 {
            return Err(WalletError::InvalidAmount);
        }
        if self.balance_minor < amount_minor {
            return Err(WalletError::InsufficientFunds);
        }
        if let Err(e) = self.ensure_unique_reference(&reference) {
            return Err(e);
        }
        self.push_entry(WalletLedgerKind::BookingDebit, -amount_minor, reference, now)
    }

    /// The sum of the ledger's amounts.
    pub fn ledger_sum(&self) -> (r: i64)
        requires
            running_sums_fit(self.entries@),
        ensures
            r == amounts_sum(self.entries@),
    {
        let mut sum: i64 = 0;
        let mut i: usize = 0;
        assert(self.entries@.take(0) =~= Seq::<WalletLedgerEntry>::empty());
        while i < self.entries.len()
            invariant
                i <= self.entries@.len(),
                running_sums_fit(self.entries@),
                sum == amounts_sum(self.entries@.take(i as int)),
            decreases self.entries@.len() - i,
        {
            assert(self.entries@.take(i + 1).drop_last() =~= self.entries@.take(i as int));
            assert(i64::MIN <= amounts_sum(self.entries@.take(i + 1)) <= i64::MAX);
            sum = sum + self.entries[i].amount_minor;
            i = i + 1;
        }
        assert(self.entries@.take(self.entries@.len() as int) =~= self.entries@);
        sum
    }

    /// Adds `amount_minor` (already checked) to the balance and appends its entry.
    fn push_entry(&mut self, kind: WalletLedgerKind, amount_minor: i64, reference: String, created_at: UtcInstant) -> (r: Result<&WalletLedgerEntry, WalletError>)
        requires
            i64::MIN <= old(self).balance_minor + amount_minor <= i64::MAX,
        ensures
            old(self).wf() && !has_reference(old(self).entries@, reference@) && old(self).balance_minor + amount_minor >= 0
                ==> final(self).wf(),
            final(self).appended(*old(self), kind, amount_minor as int, reference@, created_at),
            amounts_sum(final(self).entries@) - final(self).balance_minor
                == amounts_sum(old(self).entries@) - old(self).balance_minor,
            r matches Ok(entry) && *entry == final(self).entries@.last(),
    {
        let ghost old_entries = self.entries@;
        let ghost kept = self.wf() && !has_reference(self.entries@, reference@) && self.balance_minor + amount_minor >= 0;
        self.balance_minor = self.balance_minor + amount_minor;
        let entry = WalletLedgerEntry {
            id: new_random_id(),
            kind,
            amount_minor,
            balance_after_minor: self.balance_minor,
            currency: self.currency.clone(),
            reference,
            created_at,
        };
        self.entries.push(entry);
        proof {
            let entries = self.entries@;
            assert(entries.drop_last() =~= old_entries);
            if kept {
                assert forall|i: int| #![trigger entries[i]] 0 <= i < entries.len() implies {
                    &&& entries[i].balance_after_minor == amounts_sum(entries.take(i + 1))
                    &&& entries[i].balance_after_minor >= 0
                    &&& entries[i].currency@ == self.currency@
                } by {
                    if i < old_entries.len() {
                        assert(entries.take(i + 1) =~= old_entries.take(i + 1));
                        assert(entries[i] == old_entries[i]);
                    } else {
                        assert(entries.take(i + 1) =~= entries);
                    }
                }
                assert forall|i: int, j: int| 0 <= i < j < entries.len()
                    implies (#[trigger] entries[i]).reference@ != (#[trigger] entries[j]).reference@ by {
                    if j < old_entries.len() {
                        assert(entries[i] == old_entries[i]);
                        assert(entries[j] == old_entries[j]);
                    } else {
                        assert(entries[i] == old_entries[i]);
                    }
                }
            }
        }
        let last = self.entries.len() - 1;
        Ok(&self.entries[last])
    }

    /// Refuses a reference that some entry already carries.
    fn ensure_unique_reference(&self, reference: &String) -> (r: Result<(), WalletError>)
        ensures
            r == (if has_reference(self.entries@, reference@) {
                Err::<(), WalletError>(WalletError::DuplicateReference)
            } else {
                Ok::<(), WalletError>(())
            }),
    {
        let mut i: usize = 0;
        while i < self.entries.len()
            invariant
                i <= self.entries@.len(),
                forall|j: int| 0 <= j < i ==> (#[trigger] self.entries@[j]).reference@ != reference@,
            decreases self.entries@.len() - i,
        {
            if self.entries[i].reference == *reference {
                return Err(WalletError::DuplicateReference);
            }
            i = i + 1;
        }
        Ok(())
    }
}

/// In a well-formed wallet every running total fits in an `i64`, so the ledger
/// can always be summed, and the ledger's sum is the balance.
pub proof fn lemma_ledger_matches_balance(wallet: WalletAccount)
    requires
        wallet.wf(),
    ensures
        running_sums_fit(wallet.entries@),
        amounts_sum(wallet.entries@) == wallet.balance_minor,
{
    let entries = wallet.entries@;
    assert forall|i: int| 0 <= i <= entries.len() implies i64::MIN <= #[trigger] amounts_sum(entries.take(i)) <= i64::MAX by {
        if i == 0 {
            assert(entries.take(0) =~= Seq::<WalletLedgerEntry>::empty());
        } else {
            assert(entries[i - 1].balance_after_minor == amounts_sum(entries.take(i)));
        }
    }
}

} // verus!
