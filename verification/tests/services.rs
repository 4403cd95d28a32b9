use chrono::{DateTime, Datelike, Duration, NaiveDate, TimeZone, Utc};

use turfzone::services::availability::{availability_for_date, ActiveBooking, AvailabilityExceptionInput, OpeningWindow};
use turfzone::services::booking::{BookingEngine, BookingError, CancellationPolicy};
use turfzone::services::notification::{NotificationChannel, NotificationError, NotificationQueue};
use turfzone::services::payment::{PaymentEvent, PaymentEventResult, PaymentStateMachine};
use turfzone::services::payout::{PayoutError, PayoutLedger};
use turfzone::services::wallet::{WalletAccount, WalletError, WalletLedgerKind};
use turfzone::time::{CalendarDate, TimeOfDay, UtcInstant};

fn t(hour: u32, minute: u32) -> TimeOfDay {
    TimeOfDay { secs: hour * 3600 + minute * 60, nanos: 0 }
}

fn instant(at: DateTime<Utc>) -> UtcInstant {
    UtcInstant { secs: at.timestamp(), nanos: at.timestamp_subsec_nanos() }
}

fn day(date: NaiveDate) -> CalendarDate {
    CalendarDate { days_from_ce: date.num_days_from_ce() }
}

#[test]
fn computes_slots_and_blocks_confirmed_booking() {
    let date = NaiveDate::from_ymd_opt(2026, 7, 13).expect("valid date");
    let now = DateTime::<Utc>::from_naive_utc_and_offset(date.and_hms_opt(8, 0, 0).expect("valid datetime"), Utc);

    let slots = availability_for_date(
        day(date),
        60,
        &[OpeningWindow { weekday: 0, opens_at: t(9, 0), closes_at: t(12, 0) }],
        None,
        &[ActiveBooking { start_time: t(10, 0), end_time: t(11, 0), hold_expires_at: None, confirmed: true }],
        instant(now),
    );

    assert_eq!(slots.len(), 3);
    assert!(slots[0].available);
    assert!(!slots[1].available);
    assert!(slots[2].available);
}

#[test]
fn expired_hold_does_not_block_availability() {
    let date = NaiveDate::from_ymd_opt(2026, 7, 13).expect("valid date");
    let now = DateTime::<Utc>::from_naive_utc_and_offset(date.and_hms_opt(8, 0, 0).expect("valid datetime"), Utc);

    let slots = availability_for_date(
        day(date),
        60,
        &[OpeningWindow { weekday: 0, opens_at: t(9, 0), closes_at: t(10, 0) }],
        None,
        &[ActiveBooking {
            start_time: t(9, 0),
            end_time: t(10, 0),
            hold_expires_at: Some(instant(now - Duration::minutes(1))),
            confirmed: false,
        }],
        instant(now),
    );

    assert!(slots[0].available);
}

#[test]
fn full_day_exception_closes_field() {
    let date = NaiveDate::from_ymd_opt(2026, 7, 13).expect("valid date");
    let slots = availability_for_date(
        day(date),
        60,
        &[OpeningWindow { weekday: 0, opens_at: t(9, 0), closes_at: t(12, 0) }],
        Some(&AvailabilityExceptionInput { date: day(date), opens_at: None, closes_at: None }),
        &[],
        instant(Utc::now()),
    );

    assert!(slots.is_empty());
}

#[test]
fn creates_hold_with_seven_minute_expiry_and_commission_split() {
    let engine = BookingEngine::new(7, 1000, "KES".to_owned());
    let now = Utc.with_ymd_and_hms(2026, 7, 9, 12, 0, 0).unwrap();

    let hold = engine
        .create_hold(1, 2, day(NaiveDate::from_ymd_opt(2026, 7, 10).unwrap()), t(18, 0), t(19, 0), 50_000, &[], instant(now))
        .expect("hold should be created");

    assert_eq!(hold.hold_expires_at, instant(now + Duration::minutes(7)));
    assert_eq!(hold.commission_minor, 5_000);
    assert_eq!(hold.manager_share_minor, 45_000);
}

#[test]
fn rejects_overlapping_active_booking() {
    let engine = BookingEngine::new(7, 1000, "KES".to_owned());
    let now = Utc.with_ymd_and_hms(2026, 7, 9, 12, 0, 0).unwrap();

    let err = engine
        .create_hold(
            1,
            2,
            day(NaiveDate::from_ymd_opt(2026, 7, 10).unwrap()),
            t(18, 0),
            t(19, 0),
            50_000,
            &[ActiveBooking {
                start_time: t(17, 30),
                end_time: t(18, 30),
                hold_expires_at: Some(instant(now + Duration::minutes(3))),
                confirmed: false,
            }],
            instant(now),
        )
        .expect_err("overlap should be rejected");

    assert_eq!(err, BookingError::SlotUnavailable);
}

#[test]
fn cancellation_refunds_only_before_cutoff() {
    let policy = CancellationPolicy { cutoff_hours: 6, refund_percent: 100 }.validate(2, 24).unwrap();
    let start = instant(Utc.with_ymd_and_hms(2026, 7, 10, 18, 0, 0).unwrap());

    let early = policy.decide(start, instant(Utc.with_ymd_and_hms(2026, 7, 10, 11, 59, 0).unwrap()), 50_000).unwrap();
    let late = policy.decide(start, instant(Utc.with_ymd_and_hms(2026, 7, 10, 12, 1, 0).unwrap()), 50_000).unwrap();

    assert_eq!(early.refund_to_wallet_minor, 50_000);
    assert_eq!(late.refund_to_wallet_minor, 0);
}

#[test]
fn enqueues_due_notifications_idempotently() {
    let now = Utc.with_ymd_and_hms(2026, 7, 9, 12, 0, 0).unwrap();
    let mut queue = NotificationQueue::default();

    queue
        .enqueue(
            "booking-confirmed-1".to_owned(),
            1,
            NotificationChannel::Sms,
            None,
            "Booking confirmed".to_owned(),
            Some(instant(now - Duration::minutes(1))),
        )
        .unwrap();

    assert_eq!(queue.due(instant(now)).len(), 1);
    assert_eq!(
        queue
            .enqueue("booking-confirmed-1".to_owned(), 1, NotificationChannel::Sms, None, "Booking confirmed".to_owned(), None)
            .unwrap_err(),
        NotificationError::DuplicateNotification
    );
}

#[test]
fn duplicate_payment_success_is_idempotent() {
    let mut machine = PaymentStateMachine::default();
    let paid_at = instant(Utc.with_ymd_and_hms(2026, 7, 9, 12, 0, 0).unwrap());
    let event = PaymentEvent {
        reference: "booking-1".to_owned(),
        provider_event_id: Some("evt-1".to_owned()),
        amount_minor: 50_000,
        currency: "KES".to_owned(),
        paid_at,
    };

    machine.register_pending("booking-1".to_owned(), 50_000, "KES".to_owned());

    assert_eq!(
        machine.apply_success(event.clone()),
        PaymentEventResult::Applied { booking_reference: "booking-1".to_owned() }
    );
    assert_eq!(
        machine.apply_success(event),
        PaymentEventResult::Duplicate { booking_reference: "booking-1".to_owned() }
    );
}

#[test]
fn mismatched_amount_is_rejected() {
    let mut machine = PaymentStateMachine::default();
    machine.register_pending("booking-1".to_owned(), 50_000, "KES".to_owned());

    let result = machine.apply_success(PaymentEvent {
        reference: "booking-1".to_owned(),
        provider_event_id: None,
        amount_minor: 40_000,
        currency: "KES".to_owned(),
        paid_at: instant(Utc::now()),
    });

    assert_eq!(result, PaymentEventResult::AmountMismatch { expected_minor: 50_000, received_minor: 40_000 });
}

#[test]
fn payout_provider_reference_is_idempotency_key() {
    let now = instant(Utc.with_ymd_and_hms(2026, 7, 9, 12, 0, 0).unwrap());
    let mut ledger = PayoutLedger::default();
    let first = ledger.record_pending(1, 45_000, "KES".to_owned(), now).unwrap();
    let second = ledger.record_pending(1, 35_000, "KES".to_owned(), now).unwrap();

    ledger.mark_paid(first.id, "settlement-1".to_owned(), now).unwrap();
    assert_eq!(
        ledger.mark_paid(second.id, "settlement-1".to_owned(), now).unwrap_err(),
        PayoutError::DuplicateProviderReference
    );
}

#[test]
fn ledger_sum_matches_balance_after_credit_and_debit() {
    let now = instant(Utc.with_ymd_and_hms(2026, 7, 9, 12, 0, 0).unwrap());
    let mut wallet = WalletAccount::new(1, "KES".to_owned());

    wallet.credit(WalletLedgerKind::TopUp, 100_000, "topup-1".to_owned(), now).unwrap();
    wallet.debit(25_000, "booking-1".to_owned(), now).unwrap();

    assert_eq!(wallet.balance_minor, 75_000);
    assert_eq!(wallet.ledger_sum(), wallet.balance_minor);
}

#[test]
fn duplicate_reference_is_rejected_for_idempotency() {
    let now = instant(Utc.with_ymd_and_hms(2026, 7, 9, 12, 0, 0).unwrap());
    let mut wallet = WalletAccount::new(1, "KES".to_owned());

    wallet.credit(WalletLedgerKind::RefundCredit, 10_000, "refund-1".to_owned(), now).unwrap();

    let err = wallet
        .credit(WalletLedgerKind::RefundCredit, 10_000, "refund-1".to_owned(), now)
        .expect_err("duplicate should fail");

    assert_eq!(err, WalletError::DuplicateReference);
    assert_eq!(wallet.balance_minor, 10_000);
}
