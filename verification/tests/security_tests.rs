use alfredodev::envelope::{decrypt_envelope, derive_key, encrypt_envelope, seal_envelope};
use alfredodev::totp::{
    build_totp, check_code, code_at, current_totp_code, current_totp_code_at, find_user, generate_base32_secret_n, login,
    login_at, secret_size, LoginReply, TotpUser,
};

#[test]
fn envelope_roundtrip_and_format() {
    let plaintext = br#"{"email":"ana@alfredo.dev"}"#;
    let sealed = encrypt_envelope(plaintext, "host-1").unwrap();
    assert_eq!(&sealed[..8], b"SPCLI01\0");
    assert_eq!(sealed.len(), 8 + 32 + 12 + plaintext.len() + 16);
    assert_eq!(decrypt_envelope(&sealed, "host-1").unwrap(), plaintext.to_vec());
    assert_eq!(
        decrypt_envelope(&sealed, "host-2").unwrap_err(),
        "credential envelope cannot be decrypted; run spcli login again"
    );
    let mut tampered = sealed.clone();
    let last = tampered.len() - 1;
    tampered[last] ^= 1;
    assert!(decrypt_envelope(&tampered, "host-1").is_err());
    assert_eq!(
        decrypt_envelope(b"SPCLI01\0short", "host-1").unwrap_err(),
        "credential envelope is invalid or unsupported"
    );
}

#[test]
fn envelope_with_fixed_salt_and_nonce_is_deterministic() {
    let a = seal_envelope(b"abc", [7u8; 32], [9u8; 12], "m").unwrap();
    let b = seal_envelope(b"abc", [7u8; 32], [9u8; 12], "m").unwrap();
    assert_eq!(a, b);
    assert_eq!(&a[8..40], &[7u8; 32]);
    assert_eq!(&a[40..52], &[9u8; 12]);
    assert_ne!(derive_key(&[7u8; 32], "m"), derive_key(&[7u8; 32], "n"));
}

#[test]
fn totp_secrets_must_be_long_enough() {
    assert_eq!(
        build_totp("Acme", "ana@acme.mx", "JBSWY3DPEHPK3PXP").unwrap_err(),
        "Shared secret too short: 10 bytes, need >= 16 (128 bits)"
    );
    assert_eq!(build_totp("Acme", "ana@acme.mx", "not base32!").unwrap_err(), "Could not decode base32 secret.");
    assert!(build_totp("Acme", "ana@acme.mx", "JBSWY3DPEHPK3PXPJBSWY3DPEHPK3PXP").is_ok());
    assert_eq!(
        build_totp("Ac:me", "ana@acme.mx", "JBSWY3DPEHPK3PXPJBSWY3DPEHPK3PXP").unwrap_err(),
        "Issuer can't contain a colon. \"Ac:me\" contains a colon"
    );
    assert_eq!(
        build_totp("Acme", "ana:acme", "JBSWY3DPEHPK3PXPJBSWY3DPEHPK3PXP").unwrap_err(),
        "Account Name can't contain a colon. \"ana:acme\" contains a colon"
    );
}

#[test]
fn totp_codes_are_six_digits() {
    let code = current_totp_code("ana@acme.mx", "JBSWY3DPEHPK3PXPJBSWY3DPEHPK3PXP").unwrap();
    assert_eq!(code.len(), 6);
    assert!(code.chars().all(|c| c.is_ascii_digit()));
    assert_eq!(
        current_totp_code("ana@acme.mx", "JBSWY3DPEHPK3PXP").unwrap_err(),
        "failed to build TOTP from stored secret"
    );
}

#[test]
fn generated_secrets() {
    assert_eq!(secret_size(None, None), 20);
    assert_eq!(secret_size(None, Some(8)), 16);
    assert_eq!(secret_size(Some(32), Some(8)), 32);
    let s = generate_base32_secret_n(20);
    assert_eq!(s.len(), 32);
    assert!(s.chars().all(|c| c.is_ascii_uppercase() || ('2'..='7').contains(&c)));
    assert_eq!(generate_base32_secret_n(16).len(), 26);
    assert!(build_totp("Acme", "ana@acme.mx", &generate_base32_secret_n(secret_size(None, None))).is_ok());
}

#[test]
fn users_are_found_by_email() {
    let users = vec![
        TotpUser { email: "ana@acme.mx".to_string(), secret: "S1".to_string(), company: "Acme".to_string() },
        TotpUser { email: "ana@acme.mx".to_string(), secret: "S2".to_string(), company: "Otra".to_string() },
    ];
    assert_eq!(find_user(&users, "ana@acme.mx").unwrap().secret, "S1");
    assert!(find_user(&users, "ANA@acme.mx").is_none());
}

#[test]
fn login_answers() {
    let secret = "KVSYYQOFAACHZYGG7HIA53SUPXHUT4X2";
    let users = vec![
        TotpUser { email: "alfredo@example.com".to_string(), secret: secret.to_string(), company: "Acme".to_string() },
        TotpUser { email: "bad@example.com".to_string(), secret: "JBSWY3DPEHPK3PXP".to_string(), company: "Acme".to_string() },
    ];
    let unknown = login(&users, "nadie@example.com", "123456");
    assert_eq!(unknown, LoginReply::UnknownUser);
    assert_eq!(unknown.status_code(), 404);
    let broken = login(&users, "bad@example.com", "123456");
    assert_eq!(
        broken,
        LoginReply::SetupFailed("Shared secret too short: 10 bytes, need >= 16 (128 bits)".to_string())
    );
    assert_eq!(broken.status_code(), 500);
    let refused = login(&users, "alfredo@example.com", "no-code");
    assert_eq!(refused, LoginReply::Refused);
    assert_eq!(refused.status_code(), 401);
    let now = std::time::SystemTime::now().duration_since(std::time::UNIX_EPOCH).unwrap().as_secs();
    let code = code_at(&build_totp("Acme", "alfredo@example.com", secret).unwrap(), now);
    let accepted = login(&users, "alfredo@example.com", &code);
    assert_eq!(accepted, LoginReply::Accepted);
    assert_eq!(accepted.status_code(), 200);
}

// RFC 6238's SHA-1 secret "12345678901234567890" in Base32; its 8-digit
// vectors end in the 6-digit codes below.
const RFC_SECRET: &str = "GEZDGNBVGY3TQOJQGEZDGNBVGY3TQOJQ";

#[test]
fn codes_follow_the_rfc_vectors() {
    let a = build_totp("Acme", "ana@acme.mx", RFC_SECRET).unwrap();
    assert_eq!((a.digits, a.skew, a.step), (6, 1, 30));
    assert_eq!(a.secret, b"12345678901234567890".to_vec());
    assert_eq!(a.issuer, "Acme");
    assert_eq!(a.account, "ana@acme.mx");
    assert_eq!(code_at(&a, 59), "287082");
    assert_eq!(code_at(&a, 1_111_111_109), "081804");
    assert_eq!(code_at(&a, 1_234_567_890), "005924");
    assert_eq!(current_totp_code_at("ana@acme.mx", RFC_SECRET, 59), Ok("287082".to_string()));
    assert_eq!(
        current_totp_code_at("ana@acme.mx", RFC_SECRET, -1),
        Err("failed to generate TOTP code: second time provided was later than self".to_string())
    );
    assert_eq!(
        current_totp_code_at("ana@acme.mx", "JBSWY3DPEHPK3PXP", 59),
        Err("failed to build TOTP from stored secret".to_string())
    );
}

#[test]
fn codes_are_checked_one_step_either_side() {
    let a = build_totp("Acme", "ana@acme.mx", RFC_SECRET).unwrap();
    assert!(check_code(&a, "287082", 59));
    assert!(check_code(&a, "287082", 89));
    assert!(!check_code(&a, "287082", 0));
    assert!(!check_code(&a, "287082", u64::MAX));
    assert!(!check_code(&a, "287082", 120));
    assert!(!check_code(&a, "287083", 59));
    assert!(!check_code(&a, "", 59));
    let users = vec![TotpUser { email: "ana@acme.mx".to_string(), secret: RFC_SECRET.to_string(), company: "Acme".to_string() }];
    assert_eq!(login_at(&users, "ana@acme.mx", "287082", 59), LoginReply::Accepted);
    assert_eq!(login_at(&users, "ana@acme.mx", "287082", 150), LoginReply::Refused);
    assert_eq!(login_at(&users, "ana@acme.mx", "287082", -5), LoginReply::Refused);
    assert_eq!(login_at(&users, "x@acme.mx", "287082", 59), LoginReply::UnknownUser);
}
