use base64::Engine;
use hmac::Mac;
use smileid::{Auth, Timestamp};

fn expected_signature(key: &str, message: &str) -> String {
    let mut mac = hmac::Hmac::<sha2::Sha256>::new_from_slice(key.as_bytes()).unwrap();
    mac.update(message.as_bytes());
    base64::engine::general_purpose::STANDARD.encode(mac.finalize().into_bytes())
}

fn ts(secs: i64) -> Timestamp {
    Timestamp::from_unix(secs, 0).unwrap()
}

#[test]
fn signature_is_hmac_of_partner_timestamp_payload() {
    let auth = Auth::new("secret", "42");
    let t = ts(1_700_000_000);
    let sig = auth.generate_signature(&t, "{\"a\":1}").unwrap();
    let message = format!("42{}{}", t.to_rfc3339(), "{\"a\":1}");
    assert_eq!(sig, expected_signature("secret", &message));
    assert_eq!(message, "422023-11-14T22:13:20+00:00{\"a\":1}");
}

#[test]
fn signature_with_empty_key_succeeds() {
    let auth = Auth::new("", "42");
    let sig = auth.sign_text("T", "body").unwrap();
    assert_eq!(sig, expected_signature("", "42Tbody"));
}

#[test]
fn signing_is_deterministic() {
    let a = Auth::new("secret", "42");
    let b = Auth::new("secret", "42");
    let t = ts(1_700_000_000);
    assert_eq!(
        a.generate_signature(&t, "payload").unwrap(),
        b.generate_signature(&t, "payload").unwrap()
    );
    assert_ne!(
        a.generate_signature(&t, "payload").unwrap(),
        a.generate_signature(&t, "payload2").unwrap()
    );
}

#[test]
fn verify_accepts_own_signature() {
    let auth = Auth::new("secret", "42");
    let t = ts(1_700_000_000);
    let sig = auth.generate_signature(&t, "m").unwrap();
    assert!(auth.verify_signature(&sig, &t, "m").unwrap());
}

#[test]
fn verify_rejects_altered_inputs() {
    let auth = Auth::new("secret", "42");
    let t = ts(1_700_000_000);
    let sig = auth.generate_signature(&t, "m").unwrap();
    assert!(!auth.verify_signature(&sig, &t, "m2").unwrap());
    assert!(!auth.verify_signature(&sig, &ts(1_700_000_001), "m").unwrap());
    let other = Auth::new("secret", "43");
    assert!(!other.verify_signature(&sig, &t, "m").unwrap());
    assert!(!auth.verify_signature("", &t, "m").unwrap());
}

#[test]
fn partner_id_is_kept() {
    assert_eq!(Auth::new("k", "partner-7").partner_id(), "partner-7");
}
