use hmac::{Hmac, Mac};
use sha2::Sha512;

use turfzone::paystack::{
    mpesa_charge_payload, normalize_kenyan_phone, parse_charge_success, subaccount_payload, verify_webhook_signature,
    PaystackChargeRequest, PaystackRequestError, PaystackSignatureError, PaystackSubaccountRequest,
    PaystackWebhookData, PaystackWebhookEnvelope,
};

type HmacSha512 = Hmac<Sha512>;

#[test]
fn verifies_paystack_hmac_sha512_signature() {
    let body = br#"{"event":"charge.success","data":{"reference":"booking-1"}}"#;
    let secret = "sk_test_secret";
    let mut mac = HmacSha512::new_from_slice(secret.as_bytes()).unwrap();
    mac.update(body);
    let signature = hex::encode(mac.finalize().into_bytes());

    assert!(verify_webhook_signature(body, &signature, secret).is_ok());
    assert_eq!(
        verify_webhook_signature(body, &signature, "wrong-secret").unwrap_err(),
        PaystackSignatureError::Mismatch
    );
}

#[test]
fn normalizes_kenyan_phone_numbers() {
    assert_eq!(normalize_kenyan_phone("0712345678").unwrap(), "+254712345678");
    assert_eq!(normalize_kenyan_phone("254712345678").unwrap(), "+254712345678");
    assert_eq!(normalize_kenyan_phone("+254712345678").unwrap(), "+254712345678");
}

#[test]
fn builds_mpesa_charge_payload() {
    let payload = mpesa_charge_payload(PaystackChargeRequest {
        email: None,
        phone: "0712345678".to_owned(),
        amount_minor: 50_000,
        currency: "KES".to_owned(),
        reference: "booking-1".to_owned(),
        split_code: Some("SPL_test".to_owned()),
        metadata: serde_json::from_str(r#"{ "booking_id": "booking-1" }"#).unwrap(),
    })
    .unwrap();

    assert_eq!(payload.amount, 50_000);
    assert_eq!(payload.phone, "+254712345678");
    assert_eq!(payload.channels[0], "mobile_money");
}

#[test]
fn rejects_subaccount_with_two_destinations() {
    let err = subaccount_payload(PaystackSubaccountRequest {
        business_name: "Nairobi Turf".to_owned(),
        settlement_bank: Some("test-bank".to_owned()),
        account_number: Some("123".to_owned()),
        mobile_money_number: Some("0712345678".to_owned()),
        percentage_charge_bps: 1000,
    })
    .unwrap_err();

    assert_eq!(err, PaystackRequestError::InvalidSettlementDestination);
}

#[test]
fn parses_charge_success_webhook() {
    let success = parse_charge_success(&PaystackWebhookEnvelope {
        event: "charge.success".to_owned(),
        data: PaystackWebhookData {
            reference: Some("booking-1".to_owned()),
            amount: Some(50000),
            currency: Some("KES".to_owned()),
            channel: Some("mobile_money".to_owned()),
            paid_at: Some("2026-07-09T12:00:00Z".to_owned()),
        },
    })
    .unwrap();

    assert_eq!(success.reference, "booking-1");
    assert_eq!(success.amount_minor, 50_000);
    assert_eq!(success.channel, "mobile_money");
}
