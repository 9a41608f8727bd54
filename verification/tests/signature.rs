use feishu_bot::handlers::admin::{hash_password, to_hex_lower};
use feishu_bot::services::signature::{hmac_sha256_exec, verify_sentry_signature};

#[test]
fn hex_is_lower_case_two_digits_a_byte() {
    assert_eq!(to_hex_lower(&[0x00, 0x0f, 0xab, 0xff]), "000fabff");
    assert_eq!(to_hex_lower(&[]), "");
}

#[test]
fn hmac_matches_rfc_4231_short_key() {
    let mac = hmac_sha256_exec(b"Jefe", b"what do ya want for nothing?");
    assert_eq!(
        to_hex_lower(&mac),
        "5bdcc146bf60754e6a042426089575c75a003f089d2739839dec58b964ec3843"
    );
}

#[test]
fn hmac_matches_rfc_4231_key_longer_than_block() {
    let key = vec![0xaau8; 131];
    let mac = hmac_sha256_exec(&key, b"Test Using Larger Than Block-Size Key - Hash Key First");
    assert_eq!(
        to_hex_lower(&mac),
        "60e431591ee0b67f0d8a26aacbf5b77f8e0bc6213728c5140546040f0ee37f54"
    );
}

#[test]
fn signature_accepts_only_the_lower_case_hex_mac() {
    let body = b"what do ya want for nothing?";
    let good = "5bdcc146bf60754e6a042426089575c75a003f089d2739839dec58b964ec3843";
    assert!(verify_sentry_signature(body, good, "Jefe"));
    assert!(!verify_sentry_signature(body, &good.to_uppercase(), "Jefe"));
    assert!(!verify_sentry_signature(body, good, "jefe"));
    assert!(!verify_sentry_signature(b"other body", good, "Jefe"));
    assert!(!verify_sentry_signature(body, "", "Jefe"));
}

#[test]
fn password_hash_is_sha256_hex() {
    assert_eq!(
        hash_password("admin"),
        "8c6976e5b5410415bde908bd4dee15dfb167a9c873fc4bb8a81f6f2ab448a918"
    );
    assert_eq!(
        hash_password(""),
        "e3b0c44298fc1c149afbf4c8996fb92427ae41e4649b934ca495991b7852b855"
    );
}
