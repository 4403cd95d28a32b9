//! Matching provider payment confirmations against the payments the platform expects.
use vstd::prelude::*;

use crate::time::UtcInstant;

verus! {

/// A provider's report that a payment succeeded.
#[derive(Clone, Debug, PartialEq, Eq)]
pub struct PaymentEvent {
    pub reference: String,
    pub provider_event_id: Option<String>,
    pub amount_minor: i64,
    pub currency: String,
    pub paid_at: UtcInstant,
}

/// What applying a payment event did.
#[derive(Clone, Debug, PartialEq, Eq)]
pub enum PaymentEventResult {
    Applied { booking_reference: String },
    Duplicate { booking_reference: String },
    AmountMismatch { expected_minor: i64, received_minor: i64 },
    CurrencyMismatch { expected: String, received: String },
    UnknownReference,
}

/// `PaymentEventResult` with its strings taken as character sequences.
pub enum PaymentOutcome {
    Applied(Seq<char>),
    Duplicate(Seq<char>),
    AmountMismatch(i64, i64),
    CurrencyMismatch(Seq<char>, Seq<char>),
    UnknownReference,
}

impl View for PaymentEventResult {
    type V = PaymentOutcome;

    open spec fn view(&self) -> PaymentOutcome {
        match self {
            PaymentEventResult::Applied { booking_reference } => PaymentOutcome::Applied(booking_reference@),
            PaymentEventResult::Duplicate { booking_reference } => PaymentOutcome::Duplicate(booking_reference@),
            PaymentEventResult::AmountMismatch { expected_minor, received_minor } => PaymentOutcome::AmountMismatch(*expected_minor, *received_minor),
            PaymentEventResult::CurrencyMismatch { expected, received } => PaymentOutcome::CurrencyMismatch(expected@, received@),
            PaymentEventResult::UnknownReference => PaymentOutcome::UnknownReference,
        }
    }
}

/// An expected payment: its amount, its currency, and whether it has succeeded.
pub type ExpectedPayment = (i64, Seq<char>, bool);

#[derive(Clone, Debug, PartialEq, Eq)]
struct PaymentRecord {
    amount_minor: i64,
    currency: String,
    succeeded: bool,
}

impl PaymentRecord {
    spec fn model(self) -> ExpectedPayment {
        (self.amount_minor, self.currency@, self.succeeded)
    }
}

/// The payments the platform waits for, keyed by booking reference.
#[derive(Debug)]
pub struct PaymentStateMachine {
    records: Vec<(String, PaymentRecord)>,
}

/// The effect of a success event on the expected payments, and what it reports.
pub open spec fn apply_success_step(payments: Map<Seq<char>, ExpectedPayment>, reference: Seq<char>, amount_minor: i64, currency: Seq<char>)
    -> (Map<Seq<char>, ExpectedPayment>, PaymentOutcome)
{
    if !payments.contains_key(reference) {
        (payments, PaymentOutcome::UnknownReference)
    } else {
        let (expected_amount, expected_currency, succeeded) = payments[reference];
        if expected_amount != amount_minor {
            (payments, PaymentOutcome::AmountMismatch(expected_amount, amount_minor))
        } else if expected_currency != currency {
            (payments, PaymentOutcome::CurrencyMismatch(expected_currency, currency))
        } else if succeeded {
            (payments, PaymentOutcome::Duplicate(reference))
        } else {
            (payments.insert(reference, (expected_amount, expected_currency, true)), PaymentOutcome::Applied(reference))
        }
    }
}

impl PaymentStateMachine {
    #[verifier::type_invariant]
    spec fn keys_unique(self) -> bool {
        forall|i: int, j: int| 0 <= i < j < self.records@.len() ==> (#[trigger] self.records@[i]).0@ != (#[trigger] self.records@[j]).0@
    }

    /// The expected payments, keyed by reference.
    pub closed spec fn payments(self) -> Map<Seq<char>, ExpectedPayment> {
        Map::new(
            |k: Seq<char>| exists|i: int| 0 <= i < self.records@.len() && (#[trigger] self.records@[i]).0@ == k,
            |k: Seq<char>| self.records@[choose|i: int| 0 <= i < self.records@.len() && (#[trigger] self.records@[i]).0@ == k].1.model(),
        )
    }

    /// A machine that expects no payment.
    pub fn new() -> (r: Self)
        ensures
            r.payments() == Map::<Seq<char>, ExpectedPayment>::empty(),
    {
        let r = PaymentStateMachine { records: Vec::new() };
        assert(r.payments() =~= Map::<Seq<char>, ExpectedPayment>::empty());
        r
    }

    /// The index of `reference` in the records, if it is there.
    fn position(&self, reference: &String) -> (r: Option<usize>)
        ensures
            match r {
                Some(i) => i < self.records@.len() && self.records@[i as int].0@ == reference@,
                None => forall|i: int| 0 <= i < self.records@.len() ==> (#[trigger] self.records@[i]).0@ != reference@,
            },
    {
        let mut i: usize = 0;
        while i < self.records.len()
            invariant
                i <= self.records@.len(),
                forall|j: int| 0 <= j < i ==> (#[trigger] self.records@[j]).0@ != reference@,
            decreases self.records@.len() - i,
        {
            if self.records[i].0 == *reference {
                return Some(i);
            }
            i = i + 1;
        }
        None
    }

    proof fn lemma_payment_at(self, i: int)
        requires
            self.keys_unique(),
            0 <= i < self.records@.len(),
        ensures
            self.payments().contains_key(self.records@[i].0@),
            self.payments()[self.records@[i].0@] == self.records@[i].1.model(),
    {
        let k = self.records@[i].0@;
        assert(self.payments().contains_key(k));
        let c = choose|j: int| 0 <= j < self.records@.len() && (#[trigger] self.records@[j]).0@ == k;
        assert(c == i);
    }

    /// Expects a payment of `amount_minor` in `currency` under `reference`,
    /// replacing whatever was expected under it before.
    pub fn register_pending(&mut self, reference: String, amount_minor: i64, currency: String)
        ensures
            final(self).payments() == old(self).payments().insert(reference@, (amount_minor, currency@, false)),
    {
        proof { use_type_invariant(&*self); }
        let record = PaymentRecord { amount_minor, currency, succeeded: false };
        let ghost old_self = *self;
        match self.position(&reference) {
            Some(i) => {
                let mut records: Vec<(String, PaymentRecord)> = Vec::new();
                std::mem::swap(&mut records, &mut self.records);
                records.set(i, (reference, record));
                self.records = records;
                proof {
                    let new_self = *self;
                    assert forall|k: Seq<char>| #![auto] new_self.payments().contains_key(k) == old_self.payments().insert(reference@, (amount_minor, currency@, false)).contains_key(k) by {
                        if k == reference@ {
                            assert(new_self.records@[i as int].0@ == k);
                        }
                        if k != reference@ && old_self.payments().contains_key(k) {
                            let j = choose|j: int| 0 <= j < old_self.records@.len() && (#[trigger] old_self.records@[j]).0@ == k;
                            assert(new_self.records@[j] == old_self.records@[j]);
                        }
                        if new_self.payments().contains_key(k) && k != reference@ {
                            let j = choose|j: int| 0 <= j < new_self.records@.len() && (#[trigger] new_self.records@[j]).0@ == k;
                            assert(new_self.records@[j] == old_self.records@[j]);
                        }
                    }
                    assert forall|k: Seq<char>| #[trigger] new_self.payments().contains_key(k) implies new_self.payments()[k] == old_self.payments().insert(reference@, (amount_minor, currency@, false))[k] by {
                        let j = choose|j: int| 0 <= j < new_self.records@.len() && (#[trigger] new_self.records@[j]).0@ == k;
                        new_self.lemma_payment_at(j);
                        if k != reference@ {
                            assert(new_self.records@[j] == old_self.records@[j]);
                            old_self.lemma_payment_at(j);
                        }
                    }
                    assert(new_self.payments() =~= old_self.payments().insert(reference@, (amount_minor, currency@, false)));
                }
            }
            None => {
                let ghost key = reference@;
                let mut records: Vec<(String, PaymentRecord)> = Vec::new();
                std::mem::swap(&mut records, &mut self.records);
                records.push((reference, record));
                self.records = records;
                proof {
                    let new_self = *self;
                    let n = old_self.records@.len();
                    assert forall|k: Seq<char>| #![auto] new_self.payments().contains_key(k) == old_self.payments().insert(key, (amount_minor, currency@, false)).contains_key(k) by {
                        if k != key && old_self.payments().contains_key(k) {
                            let j = choose|j: int| 0 <= j < old_self.records@.len() && (#[trigger] old_self.records@[j]).0@ == k;
                            assert(new_self.records@[j] == old_self.records@[j]);
                        }
                        if new_self.payments().contains_key(k) && k != key {
                            let j = choose|j: int| 0 <= j < new_self.records@.len() && (#[trigger] new_self.records@[j]).0@ == k;
                            assert(new_self.records@[j] == old_self.records@[j]);
                        }
                        if k == key {
                            assert(new_self.records@[n as int].0@ == k);
                        }
                    }
                    assert forall|k: Seq<char>| #[trigger] new_self.payments().contains_key(k) implies new_self.payments()[k] == old_self.payments().insert(key, (amount_minor, currency@, false))[k] by {
                        let j = choose|j: int| 0 <= j < new_self.records@.len() && (#[trigger] new_self.records@[j]).0@ == k;
                        new_self.lemma_payment_at(j);
                        if k != key {
                            assert(new_self.records@[j] == old_self.records@[j]);
                            old_self.lemma_payment_at(j);
                        }
                    }
                    assert(new_self.payments() =~= old_self.payments().insert(key, (amount_minor, currency@, false)));
                }
            }
        }
    }

    /// Marks the payment under the event's reference as succeeded when the amount
    /// and currency match and it had not succeeded yet; otherwise reports the
    /// unknown reference, the mismatch, or the duplicate, and changes nothing.
    pub fn apply_success(&mut self, event: PaymentEvent) -> (r: PaymentEventResult)
        ensures
            (final(self).payments(), r@) == apply_success_step(old(self).payments(), event.reference@, event.amount_minor, event.currency@),
    {
        proof { use_type_invariant(&*self); }
        let ghost old_self = *self;
        let i = match self.position(&event.reference) {
            Some(i) => i,
            None => {
                proof {
                    assert(!old_self.payments().contains_key(event.reference@));
                }
                return PaymentEventResult::UnknownReference;
            }
        };
        proof { old_self.lemma_payment_at(i as int); }
        if self.records[i].1.amount_minor != event.amount_minor {
            return PaymentEventResult::AmountMismatch {
                expected_minor: self.records[i].1.amount_minor,
                received_minor: event.amount_minor,
            };
        }
        if self.records[i].1.currency != event.currency {
            return PaymentEventResult::CurrencyMismatch {
                expected: self.records[i].1.currency.clone(),
                received: event.currency,
            };
        }
        if self.records[i].1.succeeded {
            return PaymentEventResult::Duplicate { booking_reference: event.reference };
        }
        let updated = (
            self.records[i].0.clone(),
            PaymentRecord { amount_minor: self.records[i].1.amount_minor, currency: self.records[i].1.currency.clone(), succeeded: true },
        );
        let mut records: Vec<(String, PaymentRecord)> = Vec::new();
        std::mem::swap(&mut records, &mut self.records);
        records.set(i, updated);
        self.records = records;
        proof {
            let new_self = *self;
            let k0 = event.reference@;
            assert forall|j: int| 0 <= j < new_self.records@.len() && j != i implies new_self.records@[j] == old_self.records@[j] by {}
            assert(new_self.records@.len() == old_self.records@.len());
            assert forall|k: Seq<char>| #![auto] new_self.payments().contains_key(k) == old_self.payments().contains_key(k) by {
                if old_self.payments().contains_key(k) {
                    let j = choose|j: int| 0 <= j < old_self.records@.len() && (#[trigger] old_self.records@[j]).0@ == k;
                    assert(new_self.records@[j].0@ == k);
                }
                if new_self.payments().contains_key(k) {
                    let j = choose|j: int| 0 <= j < new_self.records@.len() && (#[trigger] new_self.records@[j]).0@ == k;
                    assert(old_self.records@[j].0@ == k);
                }
            }
            assert forall|k: Seq<char>| #[trigger] new_self.payments().contains_key(k) implies new_self.payments()[k] == old_self.payments().insert(k0, (event.amount_minor, event.currency@, true))[k] by {
                let j = choose|j: int| 0 <= j < new_self.records@.len() && (#[trigger] new_self.records@[j]).0@ == k;
                new_self.lemma_payment_at(j);
                if j != i {
                    old_self.lemma_payment_at(j);
                }
            }
            assert(new_self.payments() =~= old_self.payments().insert(k0, (event.amount_minor, event.currency@, true)));
        }
        PaymentEventResult::Applied { booking_reference: event.reference }
    }
}

impl Default for PaymentStateMachine {
    fn default() -> (r: Self)
        ensures
            r.payments() == Map::<Seq<char>, ExpectedPayment>::empty(),
    {
        PaymentStateMachine::new()
    }
}

impl Clone for PaymentStateMachine {
    /// A machine expecting the same payments.
    fn clone(&self) -> (r: Self)
        ensures
            r.payments() == self.payments(),
    {
        proof { use_type_invariant(self); }
        let mut records: Vec<(String, PaymentRecord)> = Vec::new();
        let mut i: usize = 0;
        while i < self.records.len()
            invariant
                i <= self.records@.len(),
                records@.len() == i,
                forall|j: int| 0 <= j < i ==> {
                    &&& (#[trigger] records@[j]).0@ == self.records@[j].0@
                    &&& records@[j].1.model() == self.records@[j].1.model()
                },
            decreases self.records@.len() - i,
        {
            let record = &self.records[i].1;
            let copy = PaymentRecord { amount_minor: record.amount_minor, currency: record.currency.clone(), succeeded: record.succeeded };
            records.push((self.records[i].0.clone(), copy));
            i = i + 1;
        }
        proof {
            assert forall|a: int, b: int| 0 <= a < b < records@.len() implies (#[trigger] records@[a]).0@ != (#[trigger] records@[b]).0@ by {
                assert(self.records@[a].0@ != self.records@[b].0@);
            }
        }
        let r = PaymentStateMachine { records };
        proof {
            assert forall|k: Seq<char>| #![auto] r.payments().contains_key(k) == self.payments().contains_key(k) by {
                if r.payments().contains_key(k) {
                    let j = choose|j: int| 0 <= j < r.records@.len() && (#[trigger] r.records@[j]).0@ == k;
                    assert(self.records@[j].0@ == k);
                }
                if self.payments().contains_key(k) {
                    let j = choose|j: int| 0 <= j < self.records@.len() && (#[trigger] self.records@[j]).0@ == k;
                    assert(r.records@[j].0@ == k);
                }
            }
            assert forall|k: Seq<char>| #[trigger] r.payments().contains_key(k) implies r.payments()[k] == self.payments()[k] by {
                let j = choose|j: int| 0 <= j < r.records@.len() && (#[trigger] r.records@[j]).0@ == k;
                r.lemma_payment_at(j);
                self.lemma_payment_at(j);
            }
            assert(r.payments() =~= self.payments());
        }
        r
    }
}

/// Applying the same success event twice applies it once: when the first
/// application succeeds, the second reports a duplicate and changes nothing.
pub proof fn lemma_success_is_idempotent(payments: Map<Seq<char>, ExpectedPayment>, reference: Seq<char>, amount_minor: i64, currency: Seq<char>)
    requires
        apply_success_step(payments, reference, amount_minor, currency).1 is Applied,
    ensures
        ({
            let after = apply_success_step(payments, reference, amount_minor, currency).0;
            apply_success_step(after, reference, amount_minor, currency) == (after, PaymentOutcome::Duplicate(reference))
        }),
{
}

/// An event that is not applied leaves every expected payment as it was.
pub proof fn lemma_refused_event_changes_nothing(payments: Map<Seq<char>, ExpectedPayment>, reference: Seq<char>, amount_minor: i64, currency: Seq<char>)
    requires
        !(apply_success_step(payments, reference, amount_minor, currency).1 is Applied),
    ensures
        apply_success_step(payments, reference, amount_minor, currency).0 == payments,
{
}

/// A payment succeeds only for its expected amount in its expected currency.
pub proof fn lemma_applied_matches_expectation(payments: Map<Seq<char>, ExpectedPayment>, reference: Seq<char>, amount_minor: i64, currency: Seq<char>)
    requires
        apply_success_step(payments, reference, amount_minor, currency).1 is Applied,
    ensures
        payments.contains_key(reference),
        payments[reference].0 == amount_minor,
        payments[reference].1 == currency,
        !payments[reference].2,
{
}

} // verus!
