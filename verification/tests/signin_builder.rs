//! The builder's eager validation: issued-at, expiration and not-before
//! rules, nonce length, and address decoding.

use wallet_adapter::{SigninInput, WalletError};

#[test]
fn input_set_issued_at() {
    let mut signin_input = SigninInput::default();

    assert!(signin_input.issued_at().is_none());

    let now = SigninInput::time_now();
    signin_input.set_issued_at(now).unwrap();

    assert!(signin_input.issued_at().unwrap() > 0);
}

#[test]
fn input_set_expiration_time() {
    let mut signin_input = SigninInput::default();

    let now = SigninInput::time_now();

    let past_time = now - 300_000;
    assert_eq!(
        Some(WalletError::ExpirationInPast),
        signin_input.set_expiration_time(now, past_time).err()
    );

    signin_input.set_issued_at(now).unwrap();
    assert_eq!(
        Some(WalletError::ExpiryBeforeIssued),
        signin_input.set_expiration_time(now, past_time).err()
    );

    let valid_expiry = now + 300_000;
    assert!(signin_input.set_expiration_time(now, valid_expiry).is_ok());

    assert!(signin_input.issued_at().unwrap() > 0);

    assert!(signin_input.set_expiration_time_millis(now, 4000).is_ok());
    assert!(signin_input.set_expiration_time_seconds(now, 4).is_ok());
}

#[test]
fn input_set_not_before_time() {
    let mut signin_input = SigninInput::default();

    let now = SigninInput::time_now();

    let past_time = now - 300_000;
    assert_eq!(
        Some(WalletError::NotBeforeInPast),
        signin_input.set_not_before_time(now, past_time).err()
    );

    signin_input.set_issued_at(now).unwrap();
    let before_issued = now - 3_000_000_000;
    assert_eq!(
        Some(WalletError::NotBeforeBeforeIssued),
        signin_input.set_not_before_time(now, before_issued).err()
    );

    signin_input.set_issued_at(now).unwrap();
    let expiry = now + 30_000_000;
    signin_input.set_expiration_time(now, expiry).unwrap();
    let after_expiry = now + 3_000_000_000;
    assert_eq!(
        Some(WalletError::NotBeforeAfterExpiry),
        signin_input.set_not_before_time(now, after_expiry).err()
    );

    let valid = now + 300_000;
    assert!(signin_input.set_not_before_time(now, valid).is_ok());

    assert!(signin_input.issued_at().unwrap() > 0);

    assert!(signin_input.set_not_before_time_millis(now, 4000).is_ok());
    assert!(signin_input.set_not_before_time_seconds(now, 4).is_ok());
}

#[test]
fn signin_standard_set_issued_at() {
    let mut signin_input = SigninInput::default();

    assert!(signin_input.issued_at().is_none());

    let now = SigninInput::time_now();
    signin_input.set_issued_at(now).unwrap();

    assert!(signin_input.issued_at().unwrap() > 0);
}

#[test]
fn signin_standard_set_expiration_time() {
    let mut signin_input = SigninInput::default();

    let now = SigninInput::time_now();

    let past_time = now - 300_000;
    assert_eq!(
        Some(WalletError::ExpirationInPast),
        signin_input.set_expiration_time(now, past_time).err()
    );

    signin_input.set_issued_at(now).unwrap();
    assert_eq!(
        Some(WalletError::ExpiryBeforeIssued),
        signin_input.set_expiration_time(now, past_time).err()
    );

    let valid_expiry = now + 300_000;
    assert!(signin_input.set_expiration_time(now, valid_expiry).is_ok());

    assert!(signin_input.issued_at().unwrap() > 0);

    assert!(signin_input.set_expiration_time_millis(now, 4000).is_ok());
    assert!(signin_input.set_expiration_time_seconds(now, 4).is_ok());
}

#[test]
fn signin_standard_set_not_before_time() {
    let mut signin_input = SigninInput::default();

    let now = SigninInput::time_now();

    let past_time = now - 300_000;
    assert_eq!(
        Some(WalletError::NotBeforeInPast),
        signin_input.set_not_before_time(now, past_time).err()
    );

    signin_input.set_issued_at(now).unwrap();
    let before_issued = now - 3_000_000_000;
    assert_eq!(
        Some(WalletError::NotBeforeBeforeIssued),
        signin_input.set_not_before_time(now, before_issued).err()
    );

    signin_input.set_issued_at(now).unwrap();
    let expiry = now + 30_000_000;
    signin_input.set_expiration_time(now, expiry).unwrap();
    let after_expiry = now + 3_000_000_000;
    assert_eq!(
        Some(WalletError::NotBeforeAfterExpiry),
        signin_input.set_not_before_time(now, after_expiry).err()
    );

    let valid = now + 300_000;
    assert!(signin_input.set_not_before_time(now, valid).is_ok());

    assert!(signin_input.issued_at().unwrap() > 0);

    assert!(signin_input.set_not_before_time_millis(now, 4000).is_ok());
    assert!(signin_input.set_not_before_time_seconds(now, 4).is_ok());
}

#[test]
fn nonce_length_rule() {
    let mut signin_input = SigninInput::new();

    assert_eq!(
        Some(WalletError::NonceTooShort),
        signin_input.custom_nonce("1234567").err()
    );
    assert!(signin_input.nonce().is_none());

    assert!(signin_input.custom_nonce("12345678").is_ok());
    assert_eq!(Some(&"12345678".to_string()), signin_input.nonce());
}

#[test]
fn generated_nonce_is_hex_digest() {
    let mut signin_input = SigninInput::new();
    signin_input.set_nonce();

    let nonce = signin_input.nonce().unwrap();
    assert_eq!(64, nonce.len());
    assert!(nonce.chars().all(|c| c.is_ascii_hexdigit()));
}

#[test]
fn address_must_decode_to_32_bytes() {
    let mut signin_input = SigninInput::new();

    // Not base58 at all.
    assert_eq!(
        Some(WalletError::InvalidBase58Address),
        signin_input.set_address("0OIl").err()
    );
    // Valid base58, but far fewer than 32 bytes.
    assert_eq!(
        Some(WalletError::InvalidBase58Address),
        signin_input.set_address("abc").err()
    );

    let address = bs58::encode(&[7u8; 32]).into_string();
    assert!(signin_input.set_address(&address).is_ok());
    assert_eq!(Some(&address), signin_input.address());
}

#[test]
fn relative_expiry_overflow() {
    let mut signin_input = SigninInput::new();
    let now = SigninInput::time_now();
    signin_input.set_issued_at(now).unwrap();

    assert_eq!(
        Some(WalletError::TimeOverflow),
        signin_input.set_expiration_time_millis(now, u64::MAX).err()
    );
    assert_eq!(
        Some(WalletError::TimeOverflow),
        signin_input.set_not_before_time_seconds(now, u64::MAX / 1000).err()
    );
}

#[test]
fn builder_collects_resources_in_order() {
    let mut signin_input = SigninInput::new();
    signin_input.add_resource("https://example.com/a");
    signin_input.add_resources(&["https://example.com/b", "https://example.com/c"]);

    assert_eq!(
        vec![
            "https://example.com/a".to_string(),
            "https://example.com/b".to_string(),
            "https://example.com/c".to_string(),
        ],
        signin_input.resources().to_vec()
    );
}
