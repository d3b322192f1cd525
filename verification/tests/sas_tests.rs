use base64::Engine;
use hmac::Mac;
use servicebus_client::error::SbError;
use servicebus_client::sas::{generate_sas_token, sign_at, sign_from_now};

fn field<'a>(token: &'a str, key: &str, end: &str) -> &'a str {
    let start = token.find(key).expect("field present") + key.len();
    match token[start..].find(end) {
        Some(len) => &token[start..start + len],
        None => &token[start..],
    }
}

#[test]
fn token_has_the_documented_shape() {
    let token = sign_at("https://ns.servicebus.windows.net/q1", "keyname", "secret", 1700000000);
    assert!(token.starts_with("SharedAccessSignature sr="));
    assert!(token.contains("&sig="));
    assert!(token.contains("&se=1700000000"));
    assert!(token.contains("&skn=keyname"));
}

#[test]
fn resource_uri_is_percent_encoded() {
    // if the encoder handed its input back unchanged, the raw "://"
    // would appear after sr=
    let token = sign_at("https://ns.servicebus.windows.net/q1", "kn", "secret", 1700000000);
    let sr = field(&token, "sr=", "&sig=");
    assert_eq!(sr, "https%3A%2F%2Fns.servicebus.windows.net%2Fq1");
}

#[test]
fn signature_verifies_externally() {
    // recompute HMAC-SHA256 over the same signing string with the same
    // key and compare with the signature embedded in the token
    let uri = "https://ns.servicebus.windows.net/q1";
    let key = "super-secret-key";
    let expiry: u64 = 1700000000;
    let token = sign_at(uri, "keyname", key, expiry);

    let sig_encoded = field(&token, "&sig=", "&se=");
    let sig = urlencoding::decode(sig_encoded).unwrap().into_owned();

    let signing_input = format!("{}\n{}", urlencoding::encode(uri), expiry);
    let mut mac = hmac::Hmac::<sha2::Sha256>::new_from_slice(key.as_bytes()).unwrap();
    mac.update(signing_input.as_bytes());
    let expected = base64::engine::general_purpose::STANDARD.encode(mac.finalize().into_bytes());

    assert_eq!(sig, expected);
}

#[test]
fn generated_token_expires_validity_seconds_from_now() {
    let before = chrono::Utc::now().timestamp();
    let token = generate_sas_token("https://ns.servicebus.windows.net/q1", "kn", "k", 3600)
        .unwrap();
    let after = chrono::Utc::now().timestamp();
    let se: i64 = field(&token, "&se=", "&skn=").parse().unwrap();
    // expiry equals now + validity within a one-second tolerance
    assert!(se >= before + 3600 && se <= after + 3600 + 1, "se={}", se);
}

#[test]
fn sign_from_now_builds_the_token_for_now_plus_validity() {
    let token = sign_from_now(1700000000, "https://ns.servicebus.windows.net/q1", "kn", "k", 3600)
        .unwrap();
    assert_eq!(
        token,
        sign_at("https://ns.servicebus.windows.net/q1", "kn", "k", 1700003600)
    );
    assert!(token.contains("&se=1700003600"));
}

#[test]
fn sign_from_now_refuses_an_unrepresentable_validity() {
    match sign_from_now(0, "uri", "kn", "k", u64::MAX) {
        Err(SbError::Validation(m)) => assert_eq!(m, "Token validity is too long"),
        other => panic!("expected Validation, got {:?}", other),
    }
}

#[test]
fn sign_from_now_refuses_an_out_of_range_expiry() {
    // a clock before the epoch that the validity cannot lift back to zero
    match sign_from_now(-7200, "uri", "kn", "k", 3600) {
        Err(SbError::Validation(m)) => assert_eq!(m, "Token expiry is out of range"),
        other => panic!("expected Validation, got {:?}", other),
    }
    // a clock so late that the expiry overflows
    match sign_from_now(i64::MAX - 10, "uri", "kn", "k", 3600) {
        Err(SbError::Validation(m)) => assert_eq!(m, "Token expiry is out of range"),
        other => panic!("expected Validation, got {:?}", other),
    }
}
