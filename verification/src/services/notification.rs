//! An idempotent queue of notifications waiting to be delivered.
use vstd::prelude::*;

use crate::ids::{is_random_uuid, new_random_id};
use crate::text::{trim, trim_seq};
use crate::time::UtcInstant;

verus! {

/// How a notification reaches the user.
#[derive(Clone, Copy, Debug, PartialEq, Eq, Structural)]
pub enum NotificationChannel {
    Email,
    Sms,
    Whatsapp,
    InApp,
}

/// Where a notification's delivery stands.
#[derive(Clone, Copy, Debug, PartialEq, Eq, Structural)]
pub enum NotificationDeliveryStatus {
    Queued,
    Sent,
    Failed,
}

/// A notification to deliver, identified by its idempotency key.
#[derive(Clone, Debug, PartialEq, Eq)]
pub struct NotificationAttempt {
    pub id: u128,
    pub idempotency_key: String,
    pub user_id: i64,
    pub channel: NotificationChannel,
    pub subject: Option<String>,
    pub body: String,
    pub scheduled_for: Option<UtcInstant>,
    pub status: NotificationDeliveryStatus,
}

/// `NotificationAttempt` with its strings taken as character sequences.
pub struct NotificationAttemptView {
    pub id: u128,
    pub idempotency_key: Seq<char>,
    pub user_id: i64,
    pub channel: NotificationChannel,
    pub subject: Option<Seq<char>>,
    pub body: Seq<char>,
    pub scheduled_for: Option<UtcInstant>,
    pub status: NotificationDeliveryStatus,
}

impl View for NotificationAttempt {
    type V = NotificationAttemptView;

    open spec fn view(&self) -> NotificationAttemptView {
        NotificationAttemptView {
            id: self.id,
            idempotency_key: self.idempotency_key@,
            user_id: self.user_id,
            channel: self.channel,
            subject: match self.subject {
                Some(s) => Some(s@),
                None => None,
            },
            body: self.body@,
            scheduled_for: self.scheduled_for,
            status: self.status,
        }
    }
}

impl NotificationAttempt {
    /// A copy of the attempt.
    fn copy(&self) -> (r: NotificationAttempt)
        ensures
            r@ == self@,
    {
        NotificationAttempt {
            id: self.id,
            idempotency_key: self.idempotency_key.clone(),
            user_id: self.user_id,
            channel: self.channel,
            subject: match &self.subject {
                Some(s) => Some(s.clone()),
                None => None,
            },
            body: self.body.clone(),
            scheduled_for: self.scheduled_for,
            status: self.status,
        }
    }
}

/// Why a notification was not queued.
#[derive(Clone, Copy, Debug, PartialEq, Eq, Structural)]
pub enum NotificationError {
    EmptyBody,
    DuplicateNotification,
    QueueWriteFailed,
}

impl NotificationError {
    /// The message shown for this error.
    pub open spec fn spec_message(&self) -> Seq<char> {
        match self {
            NotificationError::EmptyBody => "notification body cannot be empty"@,
            NotificationError::DuplicateNotification => "notification idempotency key already exists"@,
            NotificationError::QueueWriteFailed => "notification queue write failed"@,
        }
    }

    /// The message shown for this error.
    pub fn message(&self) -> (r: String)
        ensures
            r@ == self.spec_message(),
    {
        match self {
            NotificationError::EmptyBody => "notification body cannot be empty".to_string(),
            NotificationError::DuplicateNotification => "notification idempotency key already exists".to_string(),
            NotificationError::QueueWriteFailed => "notification queue write failed".to_string(),
        }
    }
}

/// Some queued attempt carries `key`.
pub open spec fn key_queued(attempts: Seq<NotificationAttemptView>, key: Seq<char>) -> bool {
    exists|i: int| 0 <= i < attempts.len() && (#[trigger] attempts[i]).idempotency_key == key
}

/// Whether `enqueue` accepts a notification: refused for a body that is only white
/// space, then for a key already queued.
pub open spec fn enqueue_decision(attempts: Seq<NotificationAttemptView>, key: Seq<char>, body: Seq<char>) -> Result<(), NotificationError> {
    if trim_seq(body).len() == 0 {
        Err(NotificationError::EmptyBody)
    } else if key_queued(attempts, key) {
        Err(NotificationError::DuplicateNotification)
    } else {
        Ok(())
    }
}

/// A queued attempt that is due at `now`: still queued, and unscheduled or
/// scheduled no later than `now`.
pub open spec fn is_due(attempt: NotificationAttemptView, now: UtcInstant) -> bool {
    &&& attempt.status == NotificationDeliveryStatus::Queued
    &&& match attempt.scheduled_for {
        Some(at) => at.not_after(now),
        None => true,
    }
}

/// The notifications queued so far, in order, and their idempotency keys.
#[derive(Debug)]
pub struct NotificationQueue {
    attempts: Vec<NotificationAttempt>,
    keys: Vec<String>,
}

impl NotificationQueue {
    #[verifier::type_invariant]
    spec fn keys_match(self) -> bool {
        &&& self.keys@.len() == self.attempts@.len()
        &&& forall|i: int| 0 <= i < self.keys@.len() ==> (#[trigger] self.keys@[i])@ == self.attempts@[i].idempotency_key@
        &&& forall|i: int, j: int| 0 <= i < j < self.attempts@.len()
            ==> (#[trigger] self.attempts@[i]).idempotency_key@ != (#[trigger] self.attempts@[j]).idempotency_key@
    }

    /// The queued attempts, oldest first.
    pub closed spec fn attempts(self) -> Seq<NotificationAttemptView> {
        self.attempts@.map_values(|a: NotificationAttempt| a@)
    }

    /// An empty queue.
    pub fn new() -> (r: Self)
        ensures
            r.attempts() == Seq::<NotificationAttemptView>::empty(),
    {
        let r = NotificationQueue { attempts: Vec::new(), keys: Vec::new() };
        assert(r.attempts() =~= Seq::<NotificationAttemptView>::empty());
        r
    }

    fn key_present(&self, key: &String) -> (r: bool)
        ensures
            r == key_queued(self.attempts(), key@),
    {
        proof { use_type_invariant(self); }
        let mut i: usize = 0;
        while i < self.keys.len()
            invariant
                i <= self.keys@.len(),
                self.keys@.len() == self.attempts@.len(),
                forall|j: int| 0 <= j < self.keys@.len() ==> (#[trigger] self.keys@[j])@ == self.attempts@[j].idempotency_key@,
                forall|j: int| 0 <= j < i ==> (#[trigger] self.keys@[j])@ != key@,
            decreases self.keys@.len() - i,
        {
            if self.keys[i] == *key {
                assert(self.attempts()[i as int].idempotency_key == key@);
                return true;
            }
            i = i + 1;
        }
        proof {
            assert forall|j: int| 0 <= j < self.attempts().len() implies (#[trigger] self.attempts()[j]).idempotency_key != key@ by {
                assert(self.keys@[j]@ == self.attempts@[j].idempotency_key@);
            }
        }
        false
    }

    /// Queues a notification under `idempotency_key` and returns it. Refused, with
    /// the queue unchanged, for a body that is only white space or a key already
    /// queued, checked in that order.
    pub fn enqueue(
        &mut self,
        idempotency_key: String,
        user_id: i64,
        channel: NotificationChannel,
        subject: Option<String>,
        body: String,
        scheduled_for: Option<UtcInstant>,
    ) -> (r: Result<&NotificationAttempt, NotificationError>)
        ensures
            match enqueue_decision(old(self).attempts(), idempotency_key@, body@) {
                Err(e) => r == Err::<&NotificationAttempt, NotificationError>(e) && final(self).attempts() == old(self).attempts(),
                Ok(_) => r matches Ok(attempt) && {
                    &&& final(self).attempts() == old(self).attempts().push(attempt@)
                    &&& is_random_uuid(attempt.id)
                    &&& attempt.idempotency_key@ == idempotency_key@
                    &&& attempt.user_id == user_id
                    &&& attempt.channel == channel
                    &&& attempt@.subject == (match subject { Some(s) => Some(s@), None => None::<Seq<char>> })
                    &&& attempt.body@ == body@
                    &&& attempt.scheduled_for == scheduled_for
                    &&& attempt.status == NotificationDeliveryStatus::Queued
                },
            },
    {
        proof { use_type_invariant(&*self); }
        if trim(body.as_str()).unicode_len() == 0 {
            return Err(NotificationError::EmptyBody);
        }
        if self.key_present(&idempotency_key) {
            return Err(NotificationError::DuplicateNotification);
        }
        let ghost old_attempts = self.attempts@;
        let ghost old_view = self.attempts();
        let key_copy = idempotency_key.clone();
        let attempt = NotificationAttempt {
            id: new_random_id(),
            idempotency_key,
            user_id,
            channel,
            subject,
            body,
            scheduled_for,
            status: NotificationDeliveryStatus::Queued,
        };
        let mut current = NotificationQueue::new();
        std::mem::swap(&mut current, self);
        let NotificationQueue { mut attempts, mut keys } = current;
        attempts.push(attempt);
        keys.push(key_copy);
        proof {
            assert forall|i: int, j: int| 0 <= i < j < attempts@.len()
                implies (#[trigger] attempts@[i]).idempotency_key@ != (#[trigger] attempts@[j]).idempotency_key@ by {
                if j == old_attempts.len() {
                    assert(old_view[i].idempotency_key == old_attempts[i].idempotency_key@);
                }
            }
        }
        *self = NotificationQueue { attempts, keys };
        proof {
            assert(self.attempts() =~= old_view.push(self.attempts@.last()@));
        }
        let last = self.attempts.len() - 1;
        Ok(&self.attempts[last])
    }

    /// The queued attempts that are due at `now`, oldest first.
    pub fn due(&self, now: UtcInstant) -> (r: Vec<&NotificationAttempt>)
        ensures
            r@.map_values(|a: &NotificationAttempt| a@) == self.attempts().filter(|a: NotificationAttemptView| is_due(a, now)),
    {
        let mut out: Vec<&NotificationAttempt> = Vec::new();
        let mut i: usize = 0;
        while i < self.attempts.len()
            invariant
                i <= self.attempts@.len(),
                out@.map_values(|a: &NotificationAttempt| a@) == self.attempts().take(i as int).filter(|a: NotificationAttemptView| is_due(a, now)),
            decreases self.attempts@.len() - i,
        {
            let attempt = &self.attempts[i];
            let due_now = attempt.status == NotificationDeliveryStatus::Queued && match attempt.scheduled_for {
                Some(at) => at.is_at_or_before(&now),
                None => true,
            };
            let ghost before = out@;
            if due_now {
                out.push(attempt);
                assert(out@.map_values(|a: &NotificationAttempt| a@) =~= before.map_values(|a: &NotificationAttempt| a@).push(attempt@));
            }
            assert(self.attempts().take(i + 1).drop_last() =~= self.attempts().take(i as int));
            assert(self.attempts().take(i + 1).last() == attempt@);
            reveal_with_fuel(Seq::<_>::filter, 1);
            i = i + 1;
        }
        assert(self.attempts().take(self.attempts@.len() as int) =~= self.attempts());
        out
    }
}

impl Default for NotificationQueue {
    fn default() -> (r: Self)
        ensures
            r.attempts() == Seq::<NotificationAttemptView>::empty(),
    {
        NotificationQueue::new()
    }
}

impl Clone for NotificationQueue {
    /// A queue holding the same attempts in the same order.
    fn clone(&self) -> (r: Self)
        ensures
            r.attempts() == self.attempts(),
    {
        proof { use_type_invariant(self); }
        let mut attempts: Vec<NotificationAttempt> = Vec::new();
        let mut keys: Vec<String> = Vec::new();
        let mut i: usize = 0;
        while i < self.attempts.len()
            invariant
                i <= self.attempts@.len(),
                self.keys@.len() == self.attempts@.len(),
                attempts@.len() == i,
                keys@.len() == i,
                forall|j: int| 0 <= j < i ==> (#[trigger] attempts@[j])@ == self.attempts@[j]@,
                forall|j: int| 0 <= j < i ==> (#[trigger] keys@[j]) == self.keys@[j],
            decreases self.attempts@.len() - i,
        {
            attempts.push(self.attempts[i].copy());
            keys.push(self.keys[i].clone());
            i = i + 1;
        }
        proof {
            assert forall|a: int, b: int| 0 <= a < b < attempts@.len()
                implies (#[trigger] attempts@[a]).idempotency_key@ != (#[trigger] attempts@[b]).idempotency_key@ by {
                assert(attempts@[a]@ == self.attempts@[a]@);
                assert(attempts@[b]@ == self.attempts@[b]@);
                assert(self.attempts@[a].idempotency_key@ != self.attempts@[b].idempotency_key@);
            }
            assert forall|j: int| 0 <= j < keys@.len() implies (#[trigger] keys@[j])@ == attempts@[j].idempotency_key@ by {
                assert(attempts@[j]@ == self.attempts@[j]@);
                assert(self.keys@[j]@ == self.attempts@[j].idempotency_key@);
            }
        }
        let r = NotificationQueue { attempts, keys };
        proof {
            assert(r.attempts() =~= self.attempts());
        }
        r
    }
}

/// An idempotency key is accepted once: after a notification is queued under it,
/// queueing any other notification under it is refused as a duplicate.
pub proof fn lemma_key_accepted_once(
    attempts: Seq<NotificationAttemptView>,
    queued: NotificationAttemptView,
    key: Seq<char>,
    body: Seq<char>,
    next_body: Seq<char>,
)
    requires
        enqueue_decision(attempts, key, body) is Ok,
        queued.idempotency_key == key,
        trim_seq(next_body).len() > 0,
    ensures
        enqueue_decision(attempts.push(queued), key, next_body) == Err::<(), NotificationError>(NotificationError::DuplicateNotification),
{
    assert(attempts.push(queued)[attempts.len() as int] == queued);
}

} // verus!
