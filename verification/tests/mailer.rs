use umbral_auth::AuthMailError;

use turfzone::mailer::{idempotency_key, provider_rejection_message, MailKind, MailerConfigError, OutgoingMail, ResendMailer};

fn verification_mail() -> OutgoingMail {
    OutgoingMail {
        to: "player@example.com".to_owned(),
        username: "player1".to_owned(),
        kind: MailKind::EmailVerification { code: "483920".to_owned() },
        subject: "Verify your email".to_owned(),
        html: "<p>Your code is <strong>483920</strong></p>".to_owned(),
        text: "Your code is 483920".to_owned(),
    }
}

#[test]
fn builds_resend_payload_with_both_body_formats() {
    let mailer = match ResendMailer::new(
        "re_secret".to_owned(),
        "Turfzone <no-reply@turfzone.co.ke>".to_owned(),
        Some("support@turfzone.co.ke".to_owned()),
    ) {
        Ok(m) => m,
        Err(e) => panic!("valid mailer: {e:?}"),
    };

    let payload = mailer.payload(&verification_mail());

    assert_eq!(payload.from, "Turfzone <no-reply@turfzone.co.ke>");
    assert_eq!(payload.to, ["player@example.com"]);
    assert_eq!(payload.subject, "Verify your email");
    assert!(payload.html.contains("483920"));
    assert!(payload.text.contains("483920"));
    assert_eq!(payload.reply_to.as_deref(), Some("support@turfzone.co.ke"));
}

#[test]
fn idempotency_key_is_stable_without_exposing_the_secret() {
    let mail = verification_mail();

    let first = idempotency_key(&mail);
    let second = idempotency_key(&mail);

    assert_eq!(first, second);
    assert!(first.starts_with("turfzone-verify-"));
    assert!(!first.contains("483920"));
    assert!(first.len() <= 256);
}

#[test]
fn debug_output_redacts_api_key() {
    let mailer = match ResendMailer::new("re_do_not_log".to_owned(), "Turfzone <no-reply@turfzone.co.ke>".to_owned(), None) {
        Ok(m) => m,
        Err(e) => panic!("valid mailer: {e:?}"),
    };

    let output = mailer.debug_text();

    assert!(!output.contains("re_do_not_log"));
    assert!(output.contains("<redacted>"));
}

#[test]
fn rejects_newlines_in_sender_configuration() {
    let result = ResendMailer::new(
        "re_secret".to_owned(),
        "Turfzone <no-reply@turfzone.co.ke>\nBcc: attacker@example.com".to_owned(),
        None,
    );

    match result {
        Err(e) => assert_eq!(e, MailerConfigError::InvalidHeaderValue("RESEND_FROM_EMAIL")),
        Ok(_) => panic!("newline must be rejected"),
    }
}

#[test]
fn requires_api_key_outside_dev_and_test() {
    let result = ResendMailer::from_config(true, None, None, None);

    match result {
        Err(e) => assert_eq!(e, MailerConfigError::MissingApiKey),
        Ok(_) => panic!("production must reject missing API key"),
    }
}

#[test]
fn rejects_partial_resend_configuration() {
    let result = ResendMailer::from_config(false, Some("re_secret".to_owned()), None, None);

    match result {
        Err(e) => assert_eq!(e, MailerConfigError::MissingFrom),
        Ok(_) => panic!("enabled Resend requires a sender"),
    }
}

#[test]
fn provider_errors_do_not_include_response_bodies() {
    let error = AuthMailError::Send(provider_rejection_message(401)).to_string();

    assert_eq!(error, "failed to send auth email: email provider rejected request with status 401");
}
