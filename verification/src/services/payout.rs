//! Manager payouts, settled once each under a provider reference that is never reused.
use vstd::prelude::*;

use crate::ids::{is_random_uuid, new_random_id};
use std::collections::HashMap;

use crate::keyed::{keys_distinct, lemma_pairs_map_absent, lemma_pairs_map_at, lemma_pairs_map_push, pairs_map};
use crate::time::UtcInstant;

verus! {

/// Where a payout stands.
#[derive(Clone, Copy, Debug, PartialEq, Eq, Structural)]
pub enum PayoutStatus {
    Pending,
    Processing,
    Paid,
    Failed,
}

/// A payout owed to a manager.
#[derive(Clone, Debug, PartialEq, Eq)]
pub struct PayoutRecord {
    pub id: u128,
    pub manager_id: i64,
    pub amount_minor: i64,
    pub currency: String,
    pub provider_reference: Option<String>,
    pub status: PayoutStatus,
    pub created_at: UtcInstant,
    pub settled_at: Option<UtcInstant>,
}

/// `PayoutRecord` with its strings taken as character sequences.
pub struct PayoutRecordView {
    pub id: u128,
    pub manager_id: i64,
    pub amount_minor: i64,
    pub currency: Seq<char>,
    pub provider_reference: Option<Seq<char>>,
    pub status: PayoutStatus,
    pub created_at: UtcInstant,
    pub settled_at: Option<UtcInstant>,
}

impl View for PayoutRecord {
    type V = PayoutRecordView;

    open spec fn view(&self) -> PayoutRecordView {
        PayoutRecordView {
            id: self.id,
            manager_id: self.manager_id,
            amount_minor: self.amount_minor,
            currency: self.currency@,
            provider_reference: match self.provider_reference {
                Some(r) => Some(r@),
                None => None,
            },
            status: self.status,
            created_at: self.created_at,
            settled_at: self.settled_at,
        }
    }
}

impl PayoutRecord {
    /// A copy of the record.
    pub fn copy(&self) -> (r: PayoutRecord)
        ensures
            r@ == self@,
    {
        PayoutRecord {
            id: self.id,
            manager_id: self.manager_id,
            amount_minor: self.amount_minor,
            currency: self.currency.clone(),
            provider_reference: match &self.provider_reference {
                Some(r) => Some(r.clone()),
                None => None,
            },
            status: self.status,
            created_at: self.created_at,
            settled_at: self.settled_at,
        }
    }
}

/// Why a payout operation was refused.
#[derive(Clone, Copy, Debug, PartialEq, Eq, Structural)]
pub enum PayoutError {
    InvalidAmount,
    UnknownPayout,
    DuplicateProviderReference,
}

impl PayoutError {
    /// The message shown for this error.
    pub open spec fn spec_message(&self) -> Seq<char> {
        match self {
            PayoutError::InvalidAmount => "payout amount must be positive"@,
            PayoutError::UnknownPayout => "unknown payout"@,
            PayoutError::DuplicateProviderReference => "provider payout reference already exists"@,
        }
    }

    /// The message shown for this error.
    pub fn message(&self) -> (r: String)
        ensures
            r@ == self.spec_message(),
    {
        match self {
            PayoutError::InvalidAmount => "payout amount must be positive".to_string(),
            PayoutError::UnknownPayout => "unknown payout".to_string(),
            PayoutError::DuplicateProviderReference => "provider payout reference already exists".to_string(),
        }
    }
}

/// The payouts, by id, and the provider references already used to settle one.
#[derive(Debug)]
pub struct PayoutLedger {
    payouts: HashMap<u128, PayoutRecord>,
    provider_references: Vec<(String, u128)>,
}

/// The view of each stored provider reference and the payout it settled.
pub open spec fn reference_pairs(references: Seq<(String, u128)>) -> Seq<(Seq<char>, u128)> {
    references.map_values(|p: (String, u128)| (p.0@, p.1))
}

/// The record of a payout once it is paid under `reference` at `settled_at`.
pub open spec fn paid(record: PayoutRecordView, reference: Seq<char>, settled_at: UtcInstant) -> PayoutRecordView {
    PayoutRecordView { status: PayoutStatus::Paid, provider_reference: Some(reference), settled_at: Some(settled_at), ..record }
}

/// The effect of settling payout `id` under `reference`: the new payouts and
/// references, or why it is refused.
pub open spec fn mark_paid_step(
    payouts: Map<u128, PayoutRecordView>,
    references: Map<Seq<char>, u128>,
    id: u128,
    reference: Seq<char>,
    settled_at: UtcInstant,
) -> Result<(Map<u128, PayoutRecordView>, Map<Seq<char>, u128>), PayoutError> {
    if references.contains_key(reference) {
        Err(PayoutError::DuplicateProviderReference)
    } else if !payouts.contains_key(id) {
        Err(PayoutError::UnknownPayout)
    } else {
        Ok((payouts.insert(id, paid(payouts[id], reference, settled_at)), references.insert(reference, id)))
    }
}

impl PayoutLedger {
    #[verifier::type_invariant]
    spec fn keys_unique(self) -> bool {
        keys_distinct(reference_pairs(self.provider_references@))
    }

    /// The payouts, by id.
    pub closed spec fn payouts(self) -> Map<u128, PayoutRecordView> {
        self.payouts@.map_values(|p: PayoutRecord| p@)
    }

    /// The provider references used so far, with the payout each settled.
    pub closed spec fn references(self) -> Map<Seq<char>, u128> {
        pairs_map(reference_pairs(self.provider_references@))
    }

    /// An empty ledger.
    pub fn new() -> (r: Self)
        ensures
            r.payouts() == Map::<u128, PayoutRecordView>::empty(),
            r.references() == Map::<Seq<char>, u128>::empty(),
    {
        let r = PayoutLedger { payouts: HashMap::new(), provider_references: Vec::new() };
        assert(r.payouts() =~= Map::<u128, PayoutRecordView>::empty());
        assert(r.references() =~= Map::<Seq<char>, u128>::empty());
        r
    }

    fn reference_used(&self, reference: &String) -> (r: bool)
        ensures
            r == self.references().contains_key(reference@),
    {
        proof { use_type_invariant(self); }
        let mut i: usize = 0;
        while i < self.provider_references.len()
            invariant
                i <= self.provider_references@.len(),
                keys_distinct(reference_pairs(self.provider_references@)),
                forall|j: int| 0 <= j < i ==> (#[trigger] self.provider_references@[j]).0@ != reference@,
            decreases self.provider_references@.len() - i,
        {
            if self.provider_references[i].0 == *reference {
                proof {
                    assert(reference_pairs(self.provider_references@)[i as int] == (reference@, self.provider_references@[i as int].1));
                    lemma_pairs_map_at(reference_pairs(self.provider_references@), i as int);
                }
                return true;
            }
            i = i + 1;
        }
        proof {
            let pairs = reference_pairs(self.provider_references@);
            assert forall|j: int| 0 <= j < pairs.len() implies (#[trigger] pairs[j]).0 != reference@ by {
                assert(pairs[j].0 == self.provider_references@[j].0@);
            }
            lemma_pairs_map_absent(pairs, reference@);
        }
        false
    }

    /// Records a pending payout of a positive `amount_minor` to the manager under a
    /// fresh random id and returns it; refused for a non-positive amount.
    pub fn record_pending(&mut self, manager_id: i64, amount_minor: i64, currency: String, now: UtcInstant) -> (r: Result<PayoutRecord, PayoutError>)
        ensures
            amount_minor <= 0 ==> r == Err::<PayoutRecord, PayoutError>(PayoutError::InvalidAmount)
                && final(self).payouts() == old(self).payouts()
                && final(self).references() == old(self).references(),
            amount_minor > 0 ==> (r matches Ok(p) && {
                &&& is_random_uuid(p.id)
                &&& p@ == (PayoutRecordView {
                    id: p.id,
                    manager_id,
                    amount_minor,
                    currency: currency@,
                    provider_reference: None,
                    status: PayoutStatus::Pending,
                    created_at: now,
                    settled_at: None,
                })
                &&& final(self).payouts() == old(self).payouts().insert(p.id, p@)
                &&& final(self).references() == old(self).references()
            }),
    {
        proof { use_type_invariant(&*self); }
        if amount_minor <= 0 {
            return Err(PayoutError::InvalidAmount);
        }
        let payout = PayoutRecord {
            id: new_random_id(),
            manager_id,
            amount_minor,
            currency,
            provider_reference: None,
            status: PayoutStatus::Pending,
            created_at: now,
            settled_at: None,
        };
        let stored = payout.copy();
        let ghost old_payouts = self.payouts@;
        let mut payouts: HashMap<u128, PayoutRecord> = HashMap::new();
        std::mem::swap(&mut payouts, &mut self.payouts);
        payouts.insert(payout.id, stored);
        self.payouts = payouts;
        proof {
            assert(self.payouts@.map_values(|p: PayoutRecord| p@)
                =~= old_payouts.map_values(|p: PayoutRecord| p@).insert(payout.id, payout@));
        }
        Ok(payout)
    }

    /// Marks payout `payout_id` paid under `provider_reference` at `settled_at`
    /// and returns its updated record. Refused, with nothing changed, when the
    /// reference already settled a payout or the payout is unknown, checked in
    /// that order.
    pub fn mark_paid(&mut self, payout_id: u128, provider_reference: String, settled_at: UtcInstant) -> (r: Result<PayoutRecord, PayoutError>)
        ensures
            match mark_paid_step(old(self).payouts(), old(self).references(), payout_id, provider_reference@, settled_at) {
                Err(e) => r == Err::<PayoutRecord, PayoutError>(e)
                    && final(self).payouts() == old(self).payouts()
                    && final(self).references() == old(self).references(),
                Ok((payouts, references)) => r matches Ok(p)
                    && final(self).payouts() == payouts
                    && final(self).references() == references
                    && p@ == payouts[payout_id],
            },
    {
        proof { use_type_invariant(&*self); }
        if self.reference_used(&provider_reference) {
            return Err(PayoutError::DuplicateProviderReference);
        }
        let current = match self.payouts.get(&payout_id) {
            Some(c) => c,
            None => return Err(PayoutError::UnknownPayout),
        };
        let ghost old_payouts = self.payouts@;
        let ghost old_references = self.provider_references@;
        let updated = PayoutRecord {
            id: current.id,
            manager_id: current.manager_id,
            amount_minor: current.amount_minor,
            currency: current.currency.clone(),
            provider_reference: Some(provider_reference.clone()),
            status: PayoutStatus::Paid,
            created_at: current.created_at,
            settled_at: Some(settled_at),
        };
        let result = updated.copy();
        proof {
            assert(result@ == paid(old_payouts[payout_id]@, provider_reference@, settled_at));
        }
        let mut payouts: HashMap<u128, PayoutRecord> = HashMap::new();
        std::mem::swap(&mut payouts, &mut self.payouts);
        payouts.insert(payout_id, updated);
        self.payouts = payouts;
        proof {
            assert(self.payouts@.map_values(|p: PayoutRecord| p@)
                =~= old_payouts.map_values(|p: PayoutRecord| p@).insert(payout_id, result@));
        }
        let ghost key = provider_reference@;
        let mut references: Vec<(String, u128)> = Vec::new();
        std::mem::swap(&mut references, &mut self.provider_references);
        references.push((provider_reference, payout_id));
        proof {
            assert(reference_pairs(references@) =~= reference_pairs(old_references).push((key, payout_id)));
            lemma_pairs_map_push(reference_pairs(old_references), key, payout_id);
        }
        self.provider_references = references;
        Ok(result)
    }
}

impl Default for PayoutLedger {
    fn default() -> (r: Self)
        ensures
            r.payouts() == Map::<u128, PayoutRecordView>::empty(),
            r.references() == Map::<Seq<char>, u128>::empty(),
    {
        PayoutLedger::new()
    }
}

impl Clone for PayoutLedger {
    /// A ledger with the same payouts and provider references.
    fn clone(&self) -> (r: Self)
        ensures
            r.payouts() == self.payouts(),
            r.references() == self.references(),
    {
        proof { use_type_invariant(self); }
        let payouts = self.payouts.clone();
        let mut references: Vec<(String, u128)> = Vec::new();
        let mut j: usize = 0;
        while j < self.provider_references.len()
            invariant
                j <= self.provider_references@.len(),
                references@.len() == j,
                reference_pairs(references@) == reference_pairs(self.provider_references@.take(j as int)),
            decreases self.provider_references@.len() - j,
        {
            let entry = (self.provider_references[j].0.clone(), self.provider_references[j].1);
            let ghost before = references@;
            references.push(entry);
            proof {
                let next = self.provider_references@.take(j + 1);
                assert forall|k: int| 0 <= k < j + 1 implies reference_pairs(references@)[k] == reference_pairs(next)[k] by {
                    if k < j {
                        assert(references@[k] == before[k]);
                        assert(reference_pairs(before)[k] == reference_pairs(self.provider_references@.take(j as int))[k]);
                    }
                }
                assert(reference_pairs(references@) =~= reference_pairs(next));
            }
            j = j + 1;
        }
        proof {
            assert(self.provider_references@.take(self.provider_references@.len() as int) =~= self.provider_references@);
        }
        PayoutLedger { payouts, provider_references: references }
    }
}

/// A provider reference settles at most one payout: once a payout is marked paid
/// under it, marking any payout paid under it again is refused.
pub proof fn lemma_provider_reference_settles_once(
    payouts: Map<u128, PayoutRecordView>,
    references: Map<Seq<char>, u128>,
    first: u128,
    second: u128,
    reference: Seq<char>,
    first_at: UtcInstant,
    second_at: UtcInstant,
)
    requires
        mark_paid_step(payouts, references, first, reference, first_at) is Ok,
    ensures
        ({
            let (p, r) = mark_paid_step(payouts, references, first, reference, first_at)->Ok_0;
            mark_paid_step(p, r, second, reference, second_at) == Err::<(Map<u128, PayoutRecordView>, Map<Seq<char>, u128>), PayoutError>(PayoutError::DuplicateProviderReference)
        }),
{
}

/// Marking a payout paid changes only its status, provider reference and
/// settlement time: its id, manager, amount, currency and creation time stay as
/// they were, and every other payout is untouched.
pub proof fn lemma_mark_paid_changes_only_the_settlement(
    payouts: Map<u128, PayoutRecordView>,
    references: Map<Seq<char>, u128>,
    id: u128,
    reference: Seq<char>,
    settled_at: UtcInstant,
)
    requires
        mark_paid_step(payouts, references, id, reference, settled_at) is Ok,
    ensures
        ({
            let after = mark_paid_step(payouts, references, id, reference, settled_at)->Ok_0.0;
            let before = payouts[id];
            &&& after.dom() == payouts.dom()
            &&& after[id].id == before.id
            &&& after[id].manager_id == before.manager_id
            &&& after[id].amount_minor == before.amount_minor
            &&& after[id].currency == before.currency
            &&& after[id].created_at == before.created_at
            &&& after[id].status == PayoutStatus::Paid
            &&& after[id].provider_reference == Some(reference)
            &&& after[id].settled_at == Some(settled_at)
            &&& forall|k: u128| payouts.contains_key(k) && k != id ==> after[k] == payouts[k]
        }),
{
    let after = mark_paid_step(payouts, references, id, reference, settled_at)->Ok_0.0;
    assert(after.dom() =~= payouts.dom());
}

} // verus!

