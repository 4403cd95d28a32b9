use chrono::{TimeZone, Utc};

use turfzone::api::{
    build_admin_verify_manager_response, build_payment_init_payload, discovery_filters, simulate_wallet,
    AdminVerifyManagerRequest, GeoPresence, PaymentInitChannel, PaymentInitRequest, PaymentPayload,
    WalletOperationKind, WalletOperationRequest, WalletSimulationRequest,
};
use turfzone::time::UtcInstant;

#[test]
fn discovery_requires_complete_geo_filter() {
    let latitude: Option<f64> = Some(-1.286389);
    let longitude: Option<f64> = None;
    let radius_km: Option<f64> = Some(10.0);
    assert_eq!(
        discovery_filters(
            Some("Nairobi".to_owned()),
            None,
            None,
            None,
            None,
            GeoPresence {
                latitude: latitude.is_some(),
                longitude: longitude.is_some(),
                radius_positive: radius_km.map(|r| r > 0.0),
            },
        )
        .unwrap_err(),
        "latitude, longitude, and radius_km must be supplied together"
    );
}

#[test]
fn builds_mpesa_payment_init_payload() {
    let response = build_payment_init_payload(PaymentInitRequest {
        channel: PaymentInitChannel::Mpesa,
        email: None,
        phone: Some("0712345678".to_owned()),
        amount_minor: 50_000,
        reference: "booking-1".to_owned(),
        split_code: Some("SPL_test".to_owned()),
        metadata: serde_json::from_str(r#"{ "booking_id": "booking-1" }"#).unwrap(),
    })
    .unwrap();

    assert_eq!(response.provider, "paystack");
    match response.payload {
        PaymentPayload::Mpesa(p) => assert_eq!(p.phone, "+254712345678"),
        PaymentPayload::Card(_) => panic!("expected an M-Pesa payload"),
    }
}

#[test]
fn wallet_simulation_preserves_ledger_invariant() {
    let at = Utc.with_ymd_and_hms(2026, 7, 9, 12, 0, 0).unwrap();
    let now = UtcInstant { secs: at.timestamp(), nanos: at.timestamp_subsec_nanos() };
    let response = simulate_wallet(WalletSimulationRequest {
        user_id: 1,
        starting_balance_minor: 0,
        operations: vec![
            WalletOperationRequest { kind: WalletOperationKind::TopUp, amount_minor: 100_000, reference: "topup-1".to_owned(), now },
            WalletOperationRequest { kind: WalletOperationKind::BookingDebit, amount_minor: 25_000, reference: "booking-1".to_owned(), now },
            WalletOperationRequest { kind: WalletOperationKind::RefundCredit, amount_minor: 10_000, reference: "refund-1".to_owned(), now },
        ],
    })
    .unwrap();

    assert_eq!(response.balance_minor, 85_000);
    assert_eq!(response.ledger_sum_minor, response.balance_minor);
}

#[test]
fn admin_verification_normalizes_settlement_phone() {
    let response = build_admin_verify_manager_response(AdminVerifyManagerRequest {
        manager_id: 1,
        verified: true,
        settlement_phone: Some("0712345678".to_owned()),
    })
    .unwrap();

    assert_eq!(response.verification_status, "Verified");
    assert_eq!(response.normalized_settlement_phone, Some("+254712345678".to_owned()));
}
