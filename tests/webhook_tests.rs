use laneful_rs::signature_matches;
use laneful_rs::verify_webhook_signature;

const SECRET: &str = "my-webhook-secret";
const PAYLOAD: &[u8] = br#"{"event":"email.sent"}"#;
const SIGNATURE: &str = "432e2fb78b4b1b9c5979cae1e87284db1f466188b44e59643dd0d11b7e715b51";

#[test]
fn valid_signature_is_accepted() {
    assert!(verify_webhook_signature(SECRET, PAYLOAD, SIGNATURE));
}

#[test]
fn signature_mutated_in_last_character_is_rejected() {
    let mut s = SIGNATURE.to_string();
    s.pop();
    s.push('0');
    assert!(!verify_webhook_signature(SECRET, PAYLOAD, &s));
}

#[test]
fn signature_mutated_in_first_character_is_rejected() {
    let s = format!("5{}", &SIGNATURE[1..]);
    assert!(!verify_webhook_signature(SECRET, PAYLOAD, &s));
}

#[test]
fn uppercase_signature_is_rejected() {
    assert!(!verify_webhook_signature(SECRET, PAYLOAD, &SIGNATURE.to_uppercase()));
}

#[test]
fn truncated_or_extended_signature_is_rejected() {
    assert!(!verify_webhook_signature(SECRET, PAYLOAD, &SIGNATURE[..63]));
    assert!(!verify_webhook_signature(SECRET, PAYLOAD, &format!("{}0", SIGNATURE)));
    assert!(!verify_webhook_signature(SECRET, PAYLOAD, ""));
}

#[test]
fn mutated_payload_is_rejected() {
    let payload = br#"{"event":"email.sEnt"}"#;
    assert!(!verify_webhook_signature(SECRET, payload, SIGNATURE));
}

#[test]
fn mutated_secret_is_rejected() {
    assert!(!verify_webhook_signature("my-webhook-secreT", PAYLOAD, SIGNATURE));
}

#[test]
fn empty_secret_and_payload_are_accepted_as_key_and_message() {
    let expected = "b613679a0814d9ec772f95d778c35fc5ff1697c493715653c6c712144292c5ad";
    assert!(verify_webhook_signature("", b"", expected));
}

#[test]
fn signature_matches_compares_against_lowercase_hex() {
    assert!(signature_matches(&[0xab, 0x01], "ab01"));
    assert!(!signature_matches(&[0xab, 0x01], "AB01"));
    assert!(!signature_matches(&[0xab, 0x01], "ab0"));
    assert!(!signature_matches(&[0xab, 0x01], "01ab"));
    assert!(signature_matches(&[], ""));
}
