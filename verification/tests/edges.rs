use hmac::{Hmac, Mac};
use sha2::Sha512;

use turfzone::api::{
    create_booking_hold_response, CreateBookingHoldRequest,
    simulation_fits, WalletOperationKind, WalletOperationRequest, WalletSimulationRequest,
    build_payment_init_payload, check_webhook_signature, discovery_filters, meta_response, GeoPresence,
    PaymentInitChannel, PaymentInitRequest, PaystackWebhookVerifyRequest,
};
use turfzone::authz::{authorize, AuthIdentity, AuthorizationError, RoutePolicy};
use turfzone::mailer::{idempotency_key, MailKind, OutgoingMail, nonempty_setting, validate_header_value, MailerConfigError, ResendMailer, RESEND_TIMEOUT_SECS};
use turfzone::paystack::{
    card_initialize_payload, mpesa_charge_payload, parse_charge_success, refund_payload, split_payload, subaccount_payload,
    verify_webhook_signature, PaystackCardInitializeRequest, PaystackChargeRequest, PaystackRefundRequest, PaystackRequestError,
    PaystackSignatureError, PaystackSplitRequest, PaystackSubaccountRequest, PaystackWebhookData, PaystackWebhookEnvelope,
    PaystackWebhookError, PhoneError, SubaccountPayload,
};
use turfzone::settings::{SettingsSource, TurfzoneSettings};
use turfzone::services::availability::{day_window, ActiveBooking, AvailabilityExceptionInput, OpeningWindow};
use turfzone::services::booking::{BookingEngine, BookingError};
use turfzone::services::wallet::{WalletAccount, WalletLedgerKind};
use turfzone::text::trim;
use turfzone::time::{CalendarDate, TimeOfDay, UtcInstant};

fn metadata() -> serde_json::Value {
    serde_json::from_str("{}").unwrap()
}

fn tag(secret: &str, body: &[u8]) -> String {
    let mut mac = Hmac::<Sha512>::new_from_slice(secret.as_bytes()).unwrap();
    mac.update(body);
    hex::encode(mac.finalize().into_bytes())
}

#[test]
fn malformed_signatures_are_refused() {
    assert_eq!(verify_webhook_signature(b"x", "abc", "k").unwrap_err(), PaystackSignatureError::Malformed);
    assert_eq!(verify_webhook_signature(b"x", "zz", "k").unwrap_err(), PaystackSignatureError::Malformed);
    assert_eq!(verify_webhook_signature(b"x", "00", "k").unwrap_err(), PaystackSignatureError::Mismatch);
    let upper = tag("k", b"x").to_uppercase();
    assert!(verify_webhook_signature(b"x", &upper, "k").is_ok());
}

#[test]
fn webhook_check_needs_a_configured_secret() {
    let request = PaystackWebhookVerifyRequest { raw_body: "{}".to_owned(), signature: tag("k", b"{}") };
    assert_eq!(check_webhook_signature(&None, &request).unwrap_err(), "PAYSTACK_SECRET_KEY is not configured");
    assert!(check_webhook_signature(&Some("k".to_owned()), &request).is_ok());
    assert_eq!(check_webhook_signature(&Some("j".to_owned()), &request).unwrap_err(), "paystack signature mismatch");
}

#[test]
fn charge_payloads_check_currency_amount_and_phone_in_order() {
    let request = |currency: &str, amount: i64, phone: &str| PaystackChargeRequest {
        email: None,
        phone: phone.to_owned(),
        amount_minor: amount,
        currency: currency.to_owned(),
        reference: "r".to_owned(),
        split_code: None,
        metadata: metadata(),
    };
    assert_eq!(mpesa_charge_payload(request("USD", 0, "x")).unwrap_err(), PaystackRequestError::UnsupportedCurrency);
    assert_eq!(mpesa_charge_payload(request("KES", 0, "x")).unwrap_err(), PaystackRequestError::InvalidAmount);
    assert_eq!(
        mpesa_charge_payload(request("KES", 1, "x")).unwrap_err(),
        PaystackRequestError::Phone(PhoneError::InvalidKenyanMobile)
    );
    let ok = mpesa_charge_payload(request("KES", 1, "0712345678")).unwrap();
    assert_eq!(ok.email, "254712345678@turfzone.local");
    assert_eq!(ok.provider, "mpesa");
    let card = card_initialize_payload(PaystackCardInitializeRequest {
        email: "p@x.y".to_owned(),
        amount_minor: 10,
        currency: "KES".to_owned(),
        reference: "r".to_owned(),
        split_code: Some("S".to_owned()),
        metadata: metadata(),
    })
    .unwrap();
    assert_eq!(card.channels, vec!["card".to_owned()]);
    assert_eq!(card.split_code.as_deref(), Some("S"));
}

#[test]
fn refund_split_and_subaccount_rules() {
    let refund = |amount: i64, currency: &str| PaystackRefundRequest {
        transaction_reference: "t".to_owned(),
        amount_minor: amount,
        currency: currency.to_owned(),
        merchant_note: "n".to_owned(),
    };
    assert_eq!(refund_payload(refund(0, "USD")).unwrap_err(), PaystackRequestError::InvalidAmount);
    assert_eq!(refund_payload(refund(5, "USD")).unwrap_err(), PaystackRequestError::UnsupportedCurrency);
    assert_eq!(refund_payload(refund(5, "KES")).unwrap().amount, 5);

    let split = |currency: &str, bps: i64| PaystackSplitRequest {
        name: "n".to_owned(),
        currency: currency.to_owned(),
        subaccount_code: "ACCT".to_owned(),
        platform_commission_bps: bps,
    };
    assert_eq!(split_payload(split("USD", -1)).unwrap_err(), PaystackRequestError::UnsupportedCurrency);
    assert_eq!(split_payload(split("KES", 10_001)).unwrap_err(), PaystackRequestError::InvalidCommissionRate);
    let s = split_payload(split("KES", 1000)).unwrap();
    assert_eq!((s.split_type.as_str(), s.bearer_type.as_str(), s.subaccount.as_str()), ("percentage", "account", "ACCT"));

    let sub = |account: Option<&str>, mobile: Option<&str>, bps: i64| PaystackSubaccountRequest {
        business_name: "B".to_owned(),
        settlement_bank: Some("bank".to_owned()),
        account_number: account.map(str::to_owned),
        mobile_money_number: mobile.map(str::to_owned),
        percentage_charge_bps: bps,
    };
    assert_eq!(subaccount_payload(sub(None, None, -5)).unwrap_err(), PaystackRequestError::InvalidCommissionRate);
    assert_eq!(subaccount_payload(sub(None, None, 5)).unwrap_err(), PaystackRequestError::InvalidSettlementDestination);
    match subaccount_payload(sub(None, Some("0712345678"), 5)).unwrap() {
        SubaccountPayload::MobileMoney { mobile_money_number, .. } => assert_eq!(mobile_money_number, "+254712345678"),
        other => panic!("unexpected {other:?}"),
    }
    match subaccount_payload(sub(Some("1"), None, 5)).unwrap() {
        SubaccountPayload::BankAccount { account_number, .. } => assert_eq!(account_number, "1"),
        other => panic!("unexpected {other:?}"),
    }
}

#[test]
fn webhook_parsing_reports_the_first_missing_field() {
    let data = PaystackWebhookData { reference: None, amount: None, currency: None, channel: None, paid_at: None };
    let other = PaystackWebhookEnvelope { event: "transfer.success".to_owned(), data: data.clone() };
    assert_eq!(parse_charge_success(&other).unwrap_err(), PaystackWebhookError::UnsupportedEvent("transfer.success".to_owned()));
    assert_eq!(
        parse_charge_success(&other).unwrap_err().message(),
        "unsupported paystack webhook event: transfer.success"
    );
    let mut envelope = PaystackWebhookEnvelope { event: "charge.success".to_owned(), data };
    assert_eq!(parse_charge_success(&envelope).unwrap_err(), PaystackWebhookError::MissingField("reference"));
    envelope.data.reference = Some("r".to_owned());
    assert_eq!(parse_charge_success(&envelope).unwrap_err(), PaystackWebhookError::MissingField("amount"));
    envelope.data.amount = Some(1);
    assert_eq!(parse_charge_success(&envelope).unwrap_err(), PaystackWebhookError::MissingField("currency"));
    envelope.data.currency = Some("KES".to_owned());
    let success = parse_charge_success(&envelope).unwrap();
    assert_eq!(success.channel, "unknown");
    assert_eq!(success.paid_at, None);
}

#[test]
fn payment_init_needs_the_channels_contact() {
    let request = |channel, email: Option<&str>, phone: Option<&str>| PaymentInitRequest {
        channel,
        email: email.map(str::to_owned),
        phone: phone.map(str::to_owned),
        amount_minor: 10,
        reference: "r".to_owned(),
        split_code: None,
        metadata: metadata(),
    };
    assert_eq!(build_payment_init_payload(request(PaymentInitChannel::Mpesa, None, None)).unwrap_err(), "phone is required for M-Pesa");
    assert_eq!(
        build_payment_init_payload(request(PaymentInitChannel::Card, None, Some("0712345678"))).unwrap_err(),
        "email is required for card payment"
    );
    assert_eq!(
        build_payment_init_payload(request(PaymentInitChannel::Mpesa, None, Some("123"))).unwrap_err(),
        "expected Kenyan mobile number in +2547... format"
    );
    assert!(build_payment_init_payload(request(PaymentInitChannel::Card, Some("a@b.c"), None)).is_ok());
}

#[test]
fn discovery_price_filter_rules() {
    let none = GeoPresence { latitude: false, longitude: false, radius_positive: None };
    assert_eq!(discovery_filters(None, None, None, Some(5), None, none).unwrap_err(), "invalid price filter");
    assert_eq!(discovery_filters(None, None, None, Some(-1), Some(5), none).unwrap_err(), "invalid price filter");
    assert_eq!(discovery_filters(None, None, None, Some(6), Some(5), none).unwrap_err(), "invalid price filter");
    let plan = discovery_filters(Some("  Nairobi ".to_owned()), Some("football".to_owned()), None, Some(0), Some(5), none).unwrap();
    assert_eq!(plan.city.as_deref(), Some("Nairobi"));
    assert_eq!(plan.price_filter, Some((0, 5)));
    assert_eq!(plan.currency, "KES");
    let zero_radius = GeoPresence { latitude: true, longitude: true, radius_positive: Some(false) };
    assert!(discovery_filters(None, None, None, None, None, zero_radius).is_err());
    let full = GeoPresence { latitude: true, longitude: true, radius_positive: Some(true) };
    assert!(discovery_filters(None, None, None, None, None, full).unwrap().geo_filter);
}

#[test]
fn identities_with_a_non_numeric_id_are_refused() {
    let identity = AuthIdentity { user_id: "seven".to_owned(), is_staff: true, is_superuser: true };
    assert_eq!(authorize(RoutePolicy::Player, &identity, None, None), Err(AuthorizationError::InvalidIdentity));
    let signed = AuthIdentity { user_id: "+7".to_owned(), is_staff: false, is_superuser: false };
    assert_eq!(authorize(RoutePolicy::Player, &signed, None, Some(7)), Ok(7));
}

#[test]
fn settings_fall_back_to_defaults() {
    let empty = SettingsSource {
        default_currency: None,
        hold_minutes: None,
        default_cancellation_cutoff_hours: None,
        min_cancellation_cutoff_hours: None,
        max_cancellation_cutoff_hours: None,
        platform_commission_bps: Some("lots".to_owned()),
        paystack_secret_key: None,
    };
    let settings = TurfzoneSettings::from_source(&empty);
    assert_eq!(settings.default_currency, "KES");
    assert_eq!(
        (settings.hold_minutes, settings.default_cancellation_cutoff_hours, settings.min_cancellation_cutoff_hours, settings.max_cancellation_cutoff_hours),
        (7, 6, 2, 24)
    );
    assert_eq!(settings.platform_commission_bps, 1000);
    let custom = SettingsSource { hold_minutes: Some("12".to_owned()), ..empty };
    assert_eq!(TurfzoneSettings::from_source(&custom).hold_minutes, 12);
    let meta = meta_response(&settings);
    assert_eq!(meta.cancellation_cutoff_bounds_hours, (2, 24));
}

#[test]
fn header_values_and_settings_text() {
    assert_eq!(validate_header_value("X", "a\rb"), Err(MailerConfigError::InvalidHeaderValue("X")));
    assert_eq!(validate_header_value("X", "ab"), Ok(()));
    assert_eq!(MailerConfigError::InvalidHeaderValue("X").message(), "X contains invalid newline characters");
    assert_eq!(nonempty_setting(Some("  re_key  ".to_owned())), Some("re_key".to_owned()));
    assert_eq!(nonempty_setting(Some(" \t ".to_owned())), None);
    assert_eq!(nonempty_setting(None), None);
    assert_eq!(trim("\u{2003}x y\u{0085}"), "x y");
    match ResendMailer::new("k".to_owned(), "f".to_owned(), Some("r\n".to_owned())) {
        Err(e) => assert_eq!(e, MailerConfigError::InvalidHeaderValue("RESEND_REPLY_TO")),
        Ok(_) => panic!("reply-to with a newline must be refused"),
    }
    match ResendMailer::new("k".to_owned(), "Sender \"X\"".to_owned(), None) {
        Ok(m) => {
            assert_eq!(m.endpoint(), "https://api.resend.com/emails");
            assert!(m.debug_text().contains("from: \"Sender \\\"X\\\"\""));
            assert!(m.debug_text().contains("reply_to: None"));
        },
        Err(e) => panic!("valid mailer: {e:?}"),
    }
}

fn hhmm(hour: u32, minute: u32) -> TimeOfDay {
    TimeOfDay { secs: hour * 3600 + minute * 60, nanos: 0 }
}

#[test]
fn hold_checks_run_in_order() {
    let now = UtcInstant { secs: 1_783_598_400, nanos: 0 };
    let engine = BookingEngine::new(7, 1000, "KES".to_owned());
    let taken = [ActiveBooking { start_time: hhmm(9, 0), end_time: hhmm(10, 0), hold_expires_at: None, confirmed: true }];
    assert_eq!(engine.check_hold(hhmm(10, 0), hhmm(9, 0), 0, &taken, now), Err(BookingError::InvalidAmount));
    assert_eq!(engine.check_hold(hhmm(10, 0), hhmm(9, 0), 1, &taken, now), Err(BookingError::InvalidTimeRange));
    assert_eq!(engine.check_hold(hhmm(9, 30), hhmm(10, 30), 1, &taken, now), Err(BookingError::SlotUnavailable));
    assert_eq!(engine.check_hold(hhmm(10, 0), hhmm(11, 0), 1, &taken, now), Ok(()));
    let bad_rate = BookingEngine::new(7, 10_001, "KES".to_owned());
    assert_eq!(bad_rate.check_hold(hhmm(10, 0), hhmm(11, 0), 1, &taken, now), Err(BookingError::InvalidCommissionRate));
    let expired = [ActiveBooking { start_time: hhmm(9, 0), end_time: hhmm(10, 0), hold_expires_at: Some(now), confirmed: false }];
    assert_eq!(engine.check_hold(hhmm(9, 0), hhmm(10, 0), 1, &expired, now), Ok(()));
}

#[test]
fn simulation_fits_flags_only_an_accepted_overflowing_credit() {
    let now = UtcInstant { secs: 1_783_598_400, nanos: 0 };
    let op = |kind: WalletOperationKind, amount_minor: i64, reference: &str| WalletOperationRequest {
        kind,
        amount_minor,
        reference: reference.to_owned(),
        now,
    };
    let request = |start: i64, operations: Vec<WalletOperationRequest>| WalletSimulationRequest {
        user_id: 1,
        starting_balance_minor: start,
        operations,
    };
    assert!(simulation_fits(&request(0, vec![])));
    assert!(!simulation_fits(&request(i64::MAX, vec![op(WalletOperationKind::TopUp, 1, "a")])));
    assert!(simulation_fits(&request(i64::MAX, vec![op(WalletOperationKind::TopUp, 1, "starting-balance")])));
    assert!(simulation_fits(&request(i64::MAX, vec![op(WalletOperationKind::RefundCredit, 0, "a")])));
    assert!(simulation_fits(&request(
        i64::MAX,
        vec![op(WalletOperationKind::BookingDebit, 10, "a"), op(WalletOperationKind::RefundCredit, 10, "b")],
    )));
    assert!(!simulation_fits(&request(
        i64::MAX,
        vec![op(WalletOperationKind::BookingDebit, 10, "a"), op(WalletOperationKind::RefundCredit, 11, "b")],
    )));
    assert!(simulation_fits(&request(
        5,
        vec![op(WalletOperationKind::BookingDebit, 10, "a"), op(WalletOperationKind::TopUp, i64::MAX, "b")],
    )));
}

#[test]
fn day_window_applies_the_exception() {
    // 2026-07-06 is a Monday.
    let monday = CalendarDate { days_from_ce: 739_803 };
    let windows = [
        OpeningWindow { weekday: 1, opens_at: hhmm(6, 0), closes_at: hhmm(7, 0) },
        OpeningWindow { weekday: 0, opens_at: hhmm(8, 0), closes_at: hhmm(22, 0) },
        OpeningWindow { weekday: 0, opens_at: hhmm(9, 0), closes_at: hhmm(10, 0) },
    ];
    assert_eq!(day_window(monday, &windows, None), Some((hhmm(8, 0), hhmm(22, 0))));
    let closed = AvailabilityExceptionInput { date: monday, opens_at: None, closes_at: None };
    assert_eq!(day_window(monday, &windows, Some(&closed)), None);
    let short = AvailabilityExceptionInput { date: monday, opens_at: Some(hhmm(12, 0)), closes_at: Some(hhmm(13, 0)) };
    assert_eq!(day_window(monday, &windows, Some(&short)), Some((hhmm(12, 0), hhmm(13, 0))));
    let partial = AvailabilityExceptionInput { date: monday, opens_at: Some(hhmm(12, 0)), closes_at: None };
    assert_eq!(day_window(monday, &windows, Some(&partial)), Some((hhmm(8, 0), hhmm(22, 0))));
    let sunday = CalendarDate { days_from_ce: 739_802 };
    assert_eq!(day_window(sunday, &windows, None), None);
}

#[test]
fn nobody_acts_for_another_user_not_even_a_superuser() {
    let superuser = AuthIdentity { user_id: "8".to_owned(), is_staff: false, is_superuser: true };
    assert_eq!(authorize(RoutePolicy::Player, &superuser, None, Some(9)), Err(AuthorizationError::SubjectMismatch));
    assert_eq!(authorize(RoutePolicy::Admin, &superuser, Some(turfzone::models::UserRole::Player), Some(8)), Ok(8));
    assert_eq!(authorize(RoutePolicy::Manager, &superuser, None, Some(8)), Ok(8));
}

#[test]
fn partial_resend_configuration_fails_in_every_environment() {
    let missing = |r: Result<Option<ResendMailer>, MailerConfigError>| match r {
        Err(e) => e,
        Ok(_) => panic!("a partial configuration must be refused"),
    };
    assert_eq!(missing(ResendMailer::from_config(false, None, Some("a@b.c".to_owned()), None)), MailerConfigError::MissingApiKey);
    assert_eq!(missing(ResendMailer::from_config(false, None, None, Some("r@b.c".to_owned()))), MailerConfigError::MissingApiKey);
    assert!(matches!(ResendMailer::from_config(false, None, None, None), Ok(None)));
    let mailer = ResendMailer::from_config(false, Some("re_k".to_owned()), Some("a@b.c".to_owned()), None).unwrap().unwrap();
    assert_eq!(mailer.timeout_secs(), RESEND_TIMEOUT_SECS);
    assert_eq!(RESEND_TIMEOUT_SECS, 10);
}

#[test]
fn wallet_operations_work_on_any_wallet() {
    let now = UtcInstant { secs: 1_783_598_400, nanos: 0 };
    let mut wallet = WalletAccount { user_id: 1, currency: "KES".to_owned(), balance_minor: 100, entries: vec![] };
    wallet.credit(WalletLedgerKind::TopUp, 50, "a".to_owned(), now).unwrap();
    assert_eq!(wallet.balance_minor, 150);
    assert_eq!(wallet.entries.last().unwrap().balance_after_minor, 150);
    wallet.debit(120, "b".to_owned(), now).unwrap();
    assert_eq!(wallet.balance_minor, 30);
    assert_eq!(wallet.entries.iter().map(|e| e.amount_minor).sum::<i64>() - wallet.balance_minor, -100);
}

#[test]
fn hold_answers_carry_a_random_booking_id() {
    let settings = TurfzoneSettings::from_source(&SettingsSource {
        default_currency: None,
        hold_minutes: None,
        default_cancellation_cutoff_hours: None,
        min_cancellation_cutoff_hours: None,
        max_cancellation_cutoff_hours: None,
        platform_commission_bps: None,
        paystack_secret_key: None,
    });
    let response = create_booking_hold_response(&settings, CreateBookingHoldRequest {
        field_id: 1,
        player_id: 2,
        date: CalendarDate { days_from_ce: 739_803 },
        start_time: hhmm(8, 0),
        end_time: hhmm(9, 0),
        amount_minor: 10_000,
        active_bookings: vec![],
        now: UtcInstant { secs: 1_783_598_400, nanos: 0 },
    });
    let hold = response.data.unwrap();
    assert_eq!(hold.booking_id >> 76 & 0xF, 4);
    assert_eq!(hold.booking_id >> 62 & 0x3, 2);
    assert_eq!(hold.commission_minor, 1_000);
    assert_eq!(hold.hold_expires_at, UtcInstant { secs: 1_783_598_400 + 420, nanos: 0 });
}

#[test]
fn idempotency_keys_have_a_fixed_length_per_flow() {
    let mail = |kind: MailKind| OutgoingMail {
        to: "player@example.com".to_owned(),
        username: "p".to_owned(),
        kind,
        subject: "s".to_owned(),
        html: "h".to_owned(),
        text: "t".to_owned(),
    };
    assert_eq!(idempotency_key(&mail(MailKind::EmailVerification { code: "483920".to_owned() })).len(), 80);
    assert_eq!(idempotency_key(&mail(MailKind::PasswordReset { reset_url: "https://x/r".to_owned() })).len(), 79);
    assert_eq!(idempotency_key(&mail(MailKind::Other)).len(), 78);
}
