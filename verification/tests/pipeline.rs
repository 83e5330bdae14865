use attestation_verifier::clock::{current_timestamp, timestamp_or_zero};
use attestation_verifier::config::Config;
use attestation_verifier::payload::{AttestationPayload, Platform};
use attestation_verifier::handler::{handle_verify, reply_status, verify_at};
use attestation_verifier::rejection::{handle_rejection, Rejection};
use attestation_verifier::response::{
    assemble_session, health, session_token, ErrorResponse, SessionResponse, DISCLAIMER,
    ENVIRONMENT, SESSION_TAG,
};
use attestation_verifier::score::TrustScore;
use attestation_verifier::text::{append_decimal, append_lower_hex};
use attestation_verifier::validate::ValidationError;

fn request(platform: Platform, token: &str, device_key: &str, nonce: &str) -> AttestationPayload {
    AttestationPayload {
        platform,
        integrity_token: token.to_string(),
        device_key: device_key.to_string(),
        nonce: nonce.to_string(),
    }
}

fn defaults() -> Config {
    Config::from_settings(None, None)
}

fn as_fraction(score: TrustScore) -> f32 {
    f32::from(score.hundredths()) / 100.0
}

fn error_of(outcome: &Result<SessionResponse, Rejection>) -> ErrorResponse {
    match outcome {
        Ok(session) => panic!("expected a rejection, got {:?}", session),
        Err(rejection) => handle_rejection(rejection),
    }
}

#[test]
fn verify_honors_mock_header() {
    let payload = request(Platform::Android, "whatever", "dev", "n1");
    let outcome = handle_verify(&defaults(), &Some("true".to_string()), &payload);
    assert_eq!(reply_status(&outcome), 200);
    let parsed = outcome.unwrap();
    assert!((as_fraction(parsed.trust_score) - 1.0).abs() < f32::EPSILON);
}

#[test]
fn verify_rejects_missing_fields() {
    let payload = request(Platform::Web, "", "", "");
    let outcome = handle_verify(&defaults(), &None, &payload);
    assert_eq!(reply_status(&outcome), 400);
}

#[test]
fn web_request_with_a_long_token_is_accepted() {
    let payload = request(Platform::Web, "long-enough-token", "dev", "n1");
    let outcome = handle_verify(&defaults(), &None, &payload);
    assert_eq!(reply_status(&outcome), 200);
    let session = outcome.unwrap();
    assert_eq!(as_fraction(session.trust_score), 0.8);
    assert_eq!(session.trust_score.hundredths(), 80);
    assert!(session.nullifier.starts_with("nullifier-"));
    assert_eq!(
        session.nullifier,
        "nullifier-b11a91eb490af6e2594dbacfe442fb437bc163d3047e5dd07ebfaef3d2208854"
    );
    assert_eq!(session.environment, "DEV");
    assert_eq!(session.disclaimer, DISCLAIMER);
}

#[test]
fn web_request_in_mock_mode_is_trusted_in_full() {
    let payload = request(Platform::Web, "long-enough-token", "dev", "n1");
    let outcome = handle_verify(&defaults(), &Some("true".to_string()), &payload);
    assert_eq!(reply_status(&outcome), 200);
    assert_eq!(as_fraction(outcome.unwrap().trust_score), 1.0);
}

#[test]
fn ios_request_with_apple_token_is_trusted_in_full() {
    let payload = request(Platform::Ios, "apple-xyz", "dk", "nn");
    let outcome = handle_verify(&defaults(), &None, &payload);
    assert_eq!(reply_status(&outcome), 200);
    assert_eq!(as_fraction(outcome.unwrap().trust_score), 1.0);
}

#[test]
fn ios_request_with_unknown_token_is_downgraded() {
    let payload = request(Platform::Ios, "unknown", "dk", "nn");
    let outcome = handle_verify(&defaults(), &None, &payload);
    assert_eq!(reply_status(&outcome), 200);
    assert_eq!(as_fraction(outcome.unwrap().trust_score), 0.5);
}

#[test]
fn request_without_integrity_token_is_rejected() {
    let payload = request(Platform::Web, "", "dk", "nn");
    let outcome = handle_verify(&defaults(), &None, &payload);
    assert_eq!(outcome, Err(Rejection::Invalid(ValidationError::MissingIntegrityToken)));
    assert_eq!(reply_status(&outcome), 400);
    let error = error_of(&outcome);
    assert_eq!(error.status, 400);
    assert_eq!(error.error_code, "MISSING_INTEGRITY_TOKEN");
    assert!(!error.success);
    assert_eq!(error.environment, "DEV");
}

#[test]
fn request_with_an_overlong_nonce_is_rejected() {
    let payload = request(Platform::Web, "long-enough-token", "dk", &"n".repeat(257));
    let outcome = handle_verify(&defaults(), &None, &payload);
    assert_eq!(reply_status(&outcome), 400);
    assert_eq!(error_of(&outcome).error_code, "NONCE_TOO_LONG");
}

#[test]
fn request_missing_device_key_and_nonce_reports_the_device_key() {
    let payload = request(Platform::Ios, "apple-xyz", "", "");
    for mock_header in [None, Some("true".to_string()), Some("false".to_string())] {
        let outcome = handle_verify(&defaults(), &mock_header, &payload);
        assert_eq!(outcome, Err(Rejection::Invalid(ValidationError::MissingDeviceKey)));
        assert_eq!(error_of(&outcome).error_code, "MISSING_DEVICE_KEY");
    }
}

#[test]
fn mock_mode_does_not_bypass_validation() {
    let forced = Config::from_settings(Some("true"), None);
    let payload = request(Platform::Web, "tok", "dk", " ");
    let outcome = handle_verify(&forced, &Some("true".to_string()), &payload);
    assert_eq!(outcome, Err(Rejection::Invalid(ValidationError::MissingNonce)));
}

#[test]
fn forced_mock_mode_overrides_the_token() {
    let forced = Config::from_settings(Some("true"), None);
    for platform in [Platform::Web, Platform::Ios, Platform::Android] {
        let payload = request(platform, "x", "dk", "nn");
        let outcome = verify_at(&forced, &Some("false".to_string()), &payload, 7);
        assert_eq!(outcome.unwrap().trust_score.hundredths(), 100);
    }
}

#[test]
fn session_is_fixed_by_the_request_and_the_time() {
    let payload = request(Platform::Android, "google-token", "device-key-123", "n1");
    let outcome = verify_at(&defaults(), &None, &payload, 1_700_000_000);
    let expected = SessionResponse {
        token: "session-1700000000".to_string(),
        trust_score: TrustScore::new(100).unwrap(),
        nullifier: "nullifier-b079dacd91d3eeba2dc43740d3810c63e889e67b72aaacf1fcf1842fb43b0e34"
            .to_string(),
        environment: "DEV",
        disclaimer: DISCLAIMER,
    };
    assert_eq!(outcome, Ok(expected));
    assert_eq!(verify_at(&defaults(), &None, &payload, 1_700_000_000), outcome);
}

#[test]
fn nullifier_in_the_session_follows_the_configured_salt() {
    let payload = request(Platform::Web, "long-enough-token", "dev", "n1");
    let salted = Config::from_settings(None, Some("other-salt"));
    let session = verify_at(&salted, &None, &payload, 1).unwrap();
    assert_eq!(
        session.nullifier,
        "nullifier-5a8a11a2c35b4bc7a6caeceaaa401d8e7af363dc74f501593522bf219fcc12b9"
    );
    assert!(!session.nullifier.contains("other-salt"));
    assert!(!session.token.contains("other-salt"));
}

#[test]
fn session_token_is_the_tag_and_the_timestamp() {
    assert_eq!(SESSION_TAG, "session-");
    assert_eq!(session_token(0), "session-0");
    assert_eq!(session_token(9), "session-9");
    assert_eq!(session_token(10), "session-10");
    assert_eq!(session_token(1_700_000_000), "session-1700000000");
    assert_eq!(session_token(1_000_000_007), "session-1000000007");
    assert_eq!(session_token(u64::MAX), "session-18446744073709551615");
}

#[test]
fn session_token_of_a_live_request_holds_the_current_time() {
    let before: u64 = current_timestamp();
    let payload = request(Platform::Web, "long-enough-token", "dev", "n1");
    let session = handle_verify(&defaults(), &None, &payload).unwrap();
    let after: u64 = current_timestamp();
    let minted: u64 = session.token.strip_prefix("session-").unwrap().parse().unwrap();
    assert!(before <= minted && minted <= after);
    assert_eq!(session.token, format!("session-{}", minted));
}

#[test]
fn assembled_session_carries_label_and_disclaimer() {
    let score = TrustScore::new(50).unwrap();
    let session = assemble_session(score, "nullifier-00".to_string(), 42);
    assert_eq!(session.token, "session-42");
    assert_eq!(session.trust_score, score);
    assert_eq!(session.nullifier, "nullifier-00");
    assert_eq!(session.environment, ENVIRONMENT);
    assert_eq!(session.disclaimer, DISCLAIMER);
    assert_eq!(ENVIRONMENT, "DEV");
    assert!(!DISCLAIMER.is_empty());
}

#[test]
fn every_rejection_has_its_status_and_code() {
    let cases = [
        (Rejection::Invalid(ValidationError::MissingIntegrityToken), 400, "MISSING_INTEGRITY_TOKEN"),
        (Rejection::Invalid(ValidationError::IntegrityTokenTooLong), 400, "INTEGRITY_TOKEN_TOO_LONG"),
        (Rejection::Invalid(ValidationError::MissingDeviceKey), 400, "MISSING_DEVICE_KEY"),
        (Rejection::Invalid(ValidationError::DeviceKeyTooLong), 400, "DEVICE_KEY_TOO_LONG"),
        (Rejection::Invalid(ValidationError::MissingNonce), 400, "MISSING_NONCE"),
        (Rejection::Invalid(ValidationError::NonceTooLong), 400, "NONCE_TOO_LONG"),
        (Rejection::InvalidHeader, 400, "INVALID_HEADER"),
        (Rejection::MethodNotAllowed, 405, "METHOD_NOT_ALLOWED"),
        (Rejection::Internal, 500, "INTERNAL_ERROR"),
    ];
    for (rejection, status, code) in cases {
        let response = handle_rejection(&rejection);
        assert_eq!(response.status, status);
        assert_eq!(response.error_code, code);
        assert!(!response.success);
        assert_eq!(response.environment, "DEV");
        assert!(!response.error.is_empty());
        assert_eq!(reply_status(&Err(rejection)), status);
    }
}

#[test]
fn rejection_messages_are_fixed() {
    assert_eq!(handle_rejection(&Rejection::Internal).error, "internal server error");
    assert_eq!(handle_rejection(&Rejection::MethodNotAllowed).error, "method not allowed");
    assert_eq!(handle_rejection(&Rejection::InvalidHeader).error, "invalid header");
    assert_eq!(
        handle_rejection(&Rejection::Invalid(ValidationError::MissingDeviceKey)).error,
        "device_key required"
    );
    assert_eq!(
        handle_rejection(&Rejection::Invalid(ValidationError::NonceTooLong)),
        ErrorResponse {
            status: 400,
            success: false,
            error: "nonce too long",
            error_code: "NONCE_TOO_LONG",
            environment: "DEV",
        }
    );
}

#[test]
fn health_report_is_fixed() {
    let report = health();
    assert_eq!(report.status, "ok");
    assert_eq!(report.environment, "DEV");
    assert_eq!(report.disclaimer, DISCLAIMER);
}

#[test]
fn clock_reads_seconds_since_the_epoch() {
    let first: u64 = current_timestamp();
    let second: u64 = current_timestamp();
    assert!(first >= 1_600_000_000);
    assert!(first <= second);
    assert!(second - first < 60);
}

#[test]
fn clock_before_the_epoch_reads_zero() {
    assert_eq!(timestamp_or_zero(None), 0);
    assert_eq!(timestamp_or_zero(Some(0)), 0);
    assert_eq!(timestamp_or_zero(Some(1_700_000_000)), 1_700_000_000);
    assert_eq!(timestamp_or_zero(Some(u64::MAX)), u64::MAX);
}

#[test]
fn decimal_numerals_match_the_standard_rendering() {
    for n in [0u64, 1, 9, 10, 11, 99, 100, 101, 12345, 1 << 32, u64::MAX - 1, u64::MAX] {
        let mut out = String::from("n=");
        append_decimal(&mut out, n);
        assert_eq!(out, format!("n={}", n));
    }
}

#[test]
fn hexadecimal_text_matches_the_standard_rendering() {
    let mut all = String::new();
    let bytes: Vec<u8> = (0..=255).collect();
    append_lower_hex(&mut all, &bytes);
    let expected: String = bytes.iter().map(|b| format!("{:02x}", b)).collect();
    assert_eq!(all, expected);
    let mut kept = String::from("0x");
    append_lower_hex(&mut kept, &[0xde, 0xad, 0xbe, 0xef]);
    assert_eq!(kept, "0xdeadbeef");
    append_lower_hex(&mut kept, &[]);
    assert_eq!(kept, "0xdeadbeef");
}
