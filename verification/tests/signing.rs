use auditor::de::{check_sign_opt, generate_private_key, parse_private_key, De};

fn make_identity() -> De {
    let key = generate_private_key().expect("key generation failed");
    De::from_private_key(key).expect("identity construction failed")
}

#[test]
fn sign_then_verify_succeeds() {
    let de = make_identity();
    let payload = "telemetry payload";
    let signature = de.sign(payload).expect("signing failed");
    let result = check_sign_opt(payload, &de.public_key_string(), &signature);
    assert_eq!(result, Some(true));
}

#[test]
fn repeated_signatures_all_verify() {
    let de = make_identity();
    let payload = "same payload, fresh randomness";
    let first = de.sign(payload).expect("signing failed");
    let second = de.sign(payload).expect("signing failed");
    let key = de.public_key_string();
    assert_eq!(check_sign_opt(payload, &key, &first), Some(true));
    assert_eq!(check_sign_opt(payload, &key, &second), Some(true));
}

#[test]
fn tampered_payload_fails() {
    let de = make_identity();
    let payload = "original payload";
    let signature = de.sign(payload).expect("signing failed");
    let tampered = "original paylo4d";
    let result = check_sign_opt(tampered, &de.public_key_string(), &signature);
    assert_eq!(result, Some(false));
}

#[test]
fn tampered_signature_fails() {
    let de = make_identity();
    let payload = "original payload";
    let signature = de.sign(payload).expect("signing failed");
    let mut chars: Vec<char> = signature.chars().collect();
    chars[0] = if chars[0] == 'A' { 'B' } else { 'A' };
    let tampered: String = chars.into_iter().collect();
    let result = check_sign_opt(payload, &de.public_key_string(), &tampered);
    assert_eq!(result, Some(false));
}

#[test]
fn signature_that_is_not_base64_fails() {
    let de = make_identity();
    let result = check_sign_opt("payload", &de.public_key_string(), "not *base64* at all!");
    assert_eq!(result, Some(false));
}

#[test]
fn malformed_public_key_is_rejected() {
    let de = make_identity();
    let signature = de.sign("payload").expect("signing failed");
    let result = check_sign_opt("payload", "this is no public key", &signature);
    assert_eq!(result, None);
}

#[test]
fn wrong_key_fails() {
    let signer = make_identity();
    let other = make_identity();
    let payload = "payload";
    let signature = signer.sign(payload).expect("signing failed");
    let result = check_sign_opt(payload, &other.public_key_string(), &signature);
    assert_eq!(result, Some(false));
}

#[test]
fn private_key_text_round_trips() {
    let de = make_identity();
    let text = de.private_key_text().expect("key export failed");
    let key = parse_private_key(&text).expect("key import failed");
    let restored = De::from_private_key(key).expect("identity construction failed");
    assert_eq!(restored.public_key_string(), de.public_key_string());
    let signature = restored.sign("after restart").expect("signing failed");
    assert_eq!(
        check_sign_opt("after restart", &de.public_key_string(), &signature),
        Some(true)
    );
}
