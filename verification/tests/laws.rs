use chrono::{DateTime, Datelike, Duration, NaiveDate, TimeZone, Utc};
use sha2::{Digest, Sha256};

use turfzone::api::{simulate_wallet, WalletOperationKind, WalletOperationRequest, WalletSimulationRequest};
use turfzone::mailer::{idempotency_key, MailKind, OutgoingMail};
use turfzone::paystack::normalize_kenyan_phone;
use turfzone::services::availability::{availability_for_date, ActiveBooking, OpeningWindow};
use turfzone::services::booking::{calculate_commission, BookingEngine, CancellationPolicy};
use turfzone::services::notification::{NotificationChannel, NotificationError, NotificationQueue};
use turfzone::services::payment::{PaymentEvent, PaymentEventResult, PaymentStateMachine};
use turfzone::services::payout::{PayoutError, PayoutLedger, PayoutStatus};
use turfzone::services::wallet::{WalletAccount, WalletError, WalletLedgerKind};
use turfzone::time::{CalendarDate, TimeOfDay, UtcInstant, MAX_DAYS_FROM_CE, MAX_TIMESTAMP_SECS, MIN_DAYS_FROM_CE, MIN_TIMESTAMP_SECS};

fn t(hour: u32, minute: u32) -> TimeOfDay {
    TimeOfDay { secs: hour * 3600 + minute * 60, nanos: 0 }
}

fn instant(at: DateTime<Utc>) -> UtcInstant {
    UtcInstant { secs: at.timestamp(), nanos: at.timestamp_subsec_nanos() }
}

fn noon() -> UtcInstant {
    instant(Utc.with_ymd_and_hms(2026, 7, 9, 12, 0, 0).unwrap())
}

#[test]
fn chrono_range_matches_the_stated_bounds() {
    assert_eq!(DateTime::<Utc>::MIN_UTC.timestamp(), MIN_TIMESTAMP_SECS);
    assert_eq!(DateTime::<Utc>::MAX_UTC.timestamp(), MAX_TIMESTAMP_SECS);
    assert_eq!(NaiveDate::MIN.num_days_from_ce(), MIN_DAYS_FROM_CE);
    assert_eq!(NaiveDate::MAX.num_days_from_ce(), MAX_DAYS_FROM_CE);
}

#[test]
fn weekday_of_a_day_number_follows_day_one_being_monday() {
    let mut days = vec![MIN_DAYS_FROM_CE, MAX_DAYS_FROM_CE, 1, 0, -1, 739_810];
    days.extend((-400..400).map(|d| d * 977));
    for d in days {
        let date = NaiveDate::from_num_days_from_ce_opt(d).unwrap();
        assert_eq!(date.weekday().num_days_from_monday() as i32, (d - 1).rem_euclid(7));
    }
}

#[test]
fn availability_uses_the_window_of_the_dates_weekday() {
    // 2026-07-15 is a Wednesday (weekday 2).
    let date = NaiveDate::from_ymd_opt(2026, 7, 15).unwrap();
    let windows: Vec<OpeningWindow> =
        (0..7).map(|w| OpeningWindow { weekday: w, opens_at: t(6 + w, 0), closes_at: t(20, 0) }).collect();
    let slots = availability_for_date(CalendarDate { days_from_ce: date.num_days_from_ce() }, 60, &windows, None, &[], noon());
    assert_eq!(slots[0].start_time, t(8, 0));
    assert_eq!(slots.len(), 12);
}

#[test]
fn slots_are_contiguous_and_end_within_the_window() {
    let date = NaiveDate::from_ymd_opt(2026, 7, 13).unwrap();
    let slots = availability_for_date(
        CalendarDate { days_from_ce: date.num_days_from_ce() },
        45,
        &[OpeningWindow { weekday: 0, opens_at: t(9, 0), closes_at: t(12, 0) }],
        None,
        &[],
        noon(),
    );
    assert_eq!(slots.len(), 4);
    assert_eq!(slots[0].start_time, t(9, 0));
    for pair in slots.windows(2) {
        assert_eq!(pair[0].end_time, pair[1].start_time);
    }
    assert_eq!(slots[3].end_time, t(12, 0));
}

#[test]
fn slots_never_wrap_past_midnight() {
    let date = NaiveDate::from_ymd_opt(2026, 7, 13).unwrap();
    let slots = availability_for_date(
        CalendarDate { days_from_ce: date.num_days_from_ce() },
        90,
        &[OpeningWindow { weekday: 0, opens_at: t(22, 0), closes_at: TimeOfDay { secs: 86_399, nanos: 0 } }],
        None,
        &[],
        noon(),
    );
    assert_eq!(slots.len(), 1);
    assert_eq!(slots[0].end_time, t(23, 30));
}

#[test]
fn an_available_slot_can_be_held() {
    let date = NaiveDate::from_ymd_opt(2026, 7, 13).unwrap();
    let bookings = [ActiveBooking { start_time: t(10, 0), end_time: t(11, 0), hold_expires_at: None, confirmed: true }];
    let slots = availability_for_date(
        CalendarDate { days_from_ce: date.num_days_from_ce() },
        60,
        &[OpeningWindow { weekday: 0, opens_at: t(9, 0), closes_at: t(12, 0) }],
        None,
        &bookings,
        noon(),
    );
    let engine = BookingEngine::new(7, 1000, "KES".to_owned());
    for slot in &slots {
        let hold = engine.create_hold(1, 2, CalendarDate { days_from_ce: date.num_days_from_ce() }, slot.start_time, slot.end_time, 50_000, &bookings, noon());
        assert_eq!(hold.is_ok(), slot.available);
    }
}

#[test]
fn commission_and_manager_share_add_up_to_the_amount() {
    let engine = BookingEngine::new(7, 1234, "KES".to_owned());
    let hold = engine.create_hold(1, 2, CalendarDate { days_from_ce: 739_810 }, t(8, 0), t(9, 0), 99_999, &[], noon()).unwrap();
    assert_eq!(hold.commission_minor, 12_339);
    assert_eq!(hold.commission_minor + hold.manager_share_minor, hold.amount_minor);
    assert!(hold.id >> 76 & 0xF == 4);
}

#[test]
fn hold_expiry_leaves_a_leap_second_as_chrono_does() {
    let leap = UtcInstant { secs: 1_483_228_799, nanos: 1_500_000_000 };
    let engine = BookingEngine::new(7, 1000, "KES".to_owned());
    let hold = engine.create_hold(1, 2, CalendarDate { days_from_ce: 736_330 }, t(8, 0), t(9, 0), 1_000, &[], leap).unwrap();
    let chrono_leap = DateTime::<Utc>::from_timestamp(leap.secs, leap.nanos).unwrap();
    assert_eq!(hold.hold_expires_at, instant(chrono_leap + Duration::minutes(7)));
    assert_eq!(hold.hold_expires_at, UtcInstant { secs: 1_483_229_219, nanos: 500_000_000 });
}

#[test]
fn refund_never_exceeds_the_amount_under_a_valid_policy() {
    let policy = CancellationPolicy { cutoff_hours: 2, refund_percent: 50 }.validate(2, 24).unwrap();
    let start = instant(Utc.with_ymd_and_hms(2026, 7, 10, 18, 0, 0).unwrap());
    let quote = policy.decide(start, noon(), 333).unwrap();
    assert_eq!(quote.refund_to_wallet_minor, 166);
    assert!(quote.allowed);
    let after = policy.decide(start, instant(Utc.with_ymd_and_hms(2026, 7, 10, 18, 0, 0).unwrap()), 333).unwrap();
    assert!(!after.allowed);
    assert_eq!(after.refund_to_wallet_minor, 0);
}

#[test]
fn commission_rounds_toward_zero() {
    assert_eq!(calculate_commission(-5, 1000), Ok(0));
    assert_eq!(calculate_commission(-15, 1000), Ok(-1));
    assert_eq!(calculate_commission(19, 1000), Ok(1));
}

#[test]
fn ledger_sum_equals_balance_after_any_operations() {
    let mut wallet = WalletAccount::new(1, "KES".to_owned());
    wallet.credit(WalletLedgerKind::TopUp, 500, "a".to_owned(), noon()).unwrap();
    wallet.debit(200, "b".to_owned(), noon()).unwrap();
    assert_eq!(wallet.debit(400, "c".to_owned(), noon()).unwrap_err(), WalletError::InsufficientFunds);
    wallet.credit(WalletLedgerKind::RefundCredit, 50, "d".to_owned(), noon()).unwrap();
    assert_eq!(wallet.balance_minor, 350);
    assert_eq!(wallet.ledger_sum(), 350);
    assert_eq!(wallet.entries.last().unwrap().balance_after_minor, 350);
    assert!(wallet.entries.iter().all(|e| e.currency == "KES"));
}

#[test]
fn refused_wallet_operations_leave_the_wallet_unchanged() {
    let mut wallet = WalletAccount::new(1, "KES".to_owned());
    wallet.credit(WalletLedgerKind::TopUp, 500, "a".to_owned(), noon()).unwrap();
    let before = wallet.clone();
    assert_eq!(wallet.credit(WalletLedgerKind::TopUp, 0, "x".to_owned(), noon()).unwrap_err(), WalletError::InvalidAmount);
    assert_eq!(wallet.debit(-1, "y".to_owned(), noon()).unwrap_err(), WalletError::InvalidAmount);
    assert_eq!(wallet.debit(100, "a".to_owned(), noon()).unwrap_err(), WalletError::DuplicateReference);
    assert_eq!(wallet, before);
}

#[test]
fn simulation_reports_the_first_refusal() {
    let result = simulate_wallet(WalletSimulationRequest {
        user_id: 1,
        starting_balance_minor: 1_000,
        operations: vec![
            WalletOperationRequest { kind: WalletOperationKind::BookingDebit, amount_minor: 600, reference: "a".to_owned(), now: noon() },
            WalletOperationRequest { kind: WalletOperationKind::BookingDebit, amount_minor: 600, reference: "b".to_owned(), now: noon() },
        ],
    });
    assert_eq!(result.unwrap_err(), "wallet has insufficient funds");
    let duplicate = simulate_wallet(WalletSimulationRequest {
        user_id: 1,
        starting_balance_minor: 1_000,
        operations: vec![WalletOperationRequest {
            kind: WalletOperationKind::TopUp,
            amount_minor: 5,
            reference: "starting-balance".to_owned(),
            now: noon(),
        }],
    });
    assert_eq!(duplicate.unwrap_err(), "wallet ledger reference already exists");
    let funded = simulate_wallet(WalletSimulationRequest { user_id: 1, starting_balance_minor: 1_000, operations: vec![] }).unwrap();
    assert_eq!(funded.balance_minor, 1_000);
    assert_eq!(funded.ledger_sum_minor, 1_000);
}

#[test]
fn payment_applies_once_and_refusals_change_nothing() {
    let mut machine = PaymentStateMachine::default();
    machine.register_pending("r".to_owned(), 100, "KES".to_owned());
    let event = |amount: i64, currency: &str| PaymentEvent {
        reference: "r".to_owned(),
        provider_event_id: None,
        amount_minor: amount,
        currency: currency.to_owned(),
        paid_at: noon(),
    };
    assert_eq!(
        machine.apply_success(event(100, "USD")),
        PaymentEventResult::CurrencyMismatch { expected: "KES".to_owned(), received: "USD".to_owned() }
    );
    assert_eq!(machine.apply_success(event(100, "KES")), PaymentEventResult::Applied { booking_reference: "r".to_owned() });
    assert_eq!(machine.apply_success(event(100, "KES")), PaymentEventResult::Duplicate { booking_reference: "r".to_owned() });
    let unknown = machine.apply_success(PaymentEvent {
        reference: "other".to_owned(),
        provider_event_id: None,
        amount_minor: 100,
        currency: "KES".to_owned(),
        paid_at: noon(),
    });
    assert_eq!(unknown, PaymentEventResult::UnknownReference);
    machine.register_pending("r".to_owned(), 200, "KES".to_owned());
    assert_eq!(machine.apply_success(event(200, "KES")), PaymentEventResult::Applied { booking_reference: "r".to_owned() });
}

#[test]
fn payout_is_paid_once_per_reference() {
    let mut ledger = PayoutLedger::new();
    assert_eq!(ledger.record_pending(1, 0, "KES".to_owned(), noon()).unwrap_err(), PayoutError::InvalidAmount);
    let p = ledger.record_pending(1, 100, "KES".to_owned(), noon()).unwrap();
    assert_eq!(p.status, PayoutStatus::Pending);
    assert_eq!(ledger.mark_paid(p.id ^ 1, "s".to_owned(), noon()).unwrap_err(), PayoutError::UnknownPayout);
    let paid = ledger.mark_paid(p.id, "s".to_owned(), noon()).unwrap();
    assert_eq!(paid.status, PayoutStatus::Paid);
    assert_eq!(paid.provider_reference.as_deref(), Some("s"));
    assert_eq!(paid.settled_at, Some(noon()));
    assert_eq!(ledger.mark_paid(p.id, "s".to_owned(), noon()).unwrap_err(), PayoutError::DuplicateProviderReference);
}

#[test]
fn notification_keys_are_accepted_once_and_blank_bodies_refused() {
    let mut queue = NotificationQueue::new();
    assert_eq!(
        queue.enqueue("k".to_owned(), 1, NotificationChannel::Email, None, " \t\u{3000}\n".to_owned(), None).unwrap_err(),
        NotificationError::EmptyBody
    );
    let later = UtcInstant { secs: noon().secs + 60, nanos: 0 };
    queue.enqueue("k".to_owned(), 1, NotificationChannel::Email, Some("s".to_owned()), "body".to_owned(), Some(later)).unwrap();
    queue.enqueue("now".to_owned(), 1, NotificationChannel::InApp, None, "body".to_owned(), None).unwrap();
    assert_eq!(queue.due(noon()).len(), 1);
    assert_eq!(queue.due(later).len(), 2);
    assert_eq!(
        queue.enqueue("k".to_owned(), 2, NotificationChannel::Sms, None, "other".to_owned(), None).unwrap_err(),
        NotificationError::DuplicateNotification
    );
}

#[test]
fn normalizing_twice_changes_nothing() {
    for phone in ["0712345678", " 07 12 345 678 ", "254712345678", "+254712345678"] {
        let once = normalize_kenyan_phone(phone).unwrap();
        assert_eq!(normalize_kenyan_phone(&once).unwrap(), once);
        assert!(once.starts_with("+2547"));
        assert_eq!(once.len(), 13);
    }
    assert!(normalize_kenyan_phone("0812345678").is_err());
    assert!(normalize_kenyan_phone("07123456789").is_err());
    assert!(normalize_kenyan_phone("07é2345678").is_err());
}

#[test]
fn idempotency_key_is_the_hex_sha256_of_the_message_material() {
    let mail = OutgoingMail {
        to: "a@b.c".to_owned(),
        username: "u".to_owned(),
        kind: MailKind::PasswordReset { reset_url: "https://x/r".to_owned() },
        subject: "s".to_owned(),
        html: "h".to_owned(),
        text: "t".to_owned(),
    };
    let mut digest = Sha256::new();
    digest.update(b"a@b.c");
    digest.update(b"\0");
    digest.update(b"https://x/r");
    assert_eq!(idempotency_key(&mail), format!("turfzone-reset-{}", hex::encode(digest.finalize())));

    let other = OutgoingMail { kind: MailKind::Other, ..mail };
    let mut digest = Sha256::new();
    digest.update(b"a@b.c");
    digest.update(b"\0");
    digest.update(b"s");
    digest.update(b"t");
    let key = idempotency_key(&other);
    assert_eq!(key, format!("turfzone-auth-{}", hex::encode(digest.finalize())));
    assert!(key.len() <= 256);
}

#[test]
fn copies_of_the_state_holders_keep_their_state_and_evolve_apart() {
    let mut machine = PaymentStateMachine::new();
    machine.register_pending("r".to_owned(), 100, "KES".to_owned());
    let mut copy = machine.clone();
    let event = || PaymentEvent {
        reference: "r".to_owned(),
        provider_event_id: None,
        amount_minor: 100,
        currency: "KES".to_owned(),
        paid_at: noon(),
    };
    assert_eq!(copy.apply_success(event()), PaymentEventResult::Applied { booking_reference: "r".to_owned() });
    assert_eq!(machine.apply_success(event()), PaymentEventResult::Applied { booking_reference: "r".to_owned() });

    let mut ledger = PayoutLedger::new();
    let id = ledger.record_pending(1, 100, "KES".to_owned(), noon()).unwrap().id;
    ledger.mark_paid(id, "s".to_owned(), noon()).unwrap();
    let mut ledger_copy = ledger.clone();
    assert_eq!(ledger_copy.mark_paid(id, "s".to_owned(), noon()).unwrap_err(), PayoutError::DuplicateProviderReference);
    assert_eq!(ledger_copy.mark_paid(id ^ 1, "t".to_owned(), noon()).unwrap_err(), PayoutError::UnknownPayout);

    let mut queue = NotificationQueue::new();
    queue.enqueue("k".to_owned(), 1, NotificationChannel::Email, None, "body".to_owned(), None).unwrap();
    let mut queue_copy = queue.clone();
    assert_eq!(queue_copy.due(noon()).len(), 1);
    assert_eq!(queue_copy.due(noon())[0].idempotency_key, "k");
    assert_eq!(
        queue_copy.enqueue("k".to_owned(), 2, NotificationChannel::Sms, None, "x".to_owned(), None).unwrap_err(),
        NotificationError::DuplicateNotification
    );
    queue_copy.enqueue("j".to_owned(), 2, NotificationChannel::Sms, None, "x".to_owned(), None).unwrap();
    assert_eq!(queue.due(noon()).len(), 1);
    assert_eq!(queue_copy.due(noon()).len(), 2);
}
