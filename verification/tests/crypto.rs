//! Ed25519 verification, byte-array conversions and base58 helpers.

use ed25519_dalek::{Signer, SigningKey};
use wallet_adapter::{SigninInput, WalletCommonUtils, WalletError};

fn keypair() -> (SigningKey, [u8; 32]) {
    let signing_key = SigningKey::from_bytes(&[7u8; 32]);
    let public_key = signing_key.verifying_key().to_bytes();
    (signing_key, public_key)
}

#[test]
fn verify_accepts_valid_signature() {
    let (signing_key, public_key) = keypair();
    let message = b"example.com wants you to sign in";
    let signature = signing_key.sign(message).to_bytes();

    assert!(SigninInput::verify(public_key, message, signature).is_ok());
    assert!(WalletCommonUtils::verify(&public_key, message, &signature).is_ok());
}

#[test]
fn verify_rejects_flipped_message_bit() {
    let (signing_key, public_key) = keypair();
    let message = b"example.com wants you to sign in";
    let signature = signing_key.sign(message).to_bytes();

    let mut tampered = *message;
    tampered[0] ^= 1;
    assert_eq!(
        Some(WalletError::InvalidSignature),
        SigninInput::verify(public_key, &tampered, signature).err()
    );
}

#[test]
fn verify_rejects_flipped_signature_bit() {
    let (signing_key, public_key) = keypair();
    let message = b"example.com wants you to sign in";
    let mut signature = signing_key.sign(message).to_bytes();
    signature[2] ^= 1;

    assert_eq!(
        Some(WalletError::InvalidSignature),
        SigninInput::verify(public_key, message, signature).err()
    );
}

#[test]
fn verify_rejects_invalid_public_key_bytes() {
    let message = b"anything";
    let signature = [0u8; 64];
    // A compressed point that does not decompress: about half of all byte
    // strings are no point, so the first few candidates already hold one.
    let bad_key = (0u8..=255)
        .map(|b| {
            let mut key = [0u8; 32];
            key[0] = b;
            key
        })
        .find(|key| ed25519_dalek::VerifyingKey::from_bytes(key).is_err())
        .unwrap();
    assert_eq!(
        Some(WalletError::InvalidPublicKeyBytes),
        SigninInput::verify(bad_key, message, signature).err()
    );
}

#[test]
fn byte_array_conversions() {
    let bytes = [3u8; 32];
    assert_eq!(Ok(bytes), WalletCommonUtils::to32byte_array(&bytes));
    assert_eq!(
        Err(WalletError::InvalidPublicKeyBytes),
        WalletCommonUtils::to32byte_array(&bytes[..31])
    );

    let wide = [5u8; 64];
    assert_eq!(Ok(wide), WalletCommonUtils::to64byte_array(&wide));
    assert_eq!(
        Err(WalletError::InvalidSignatureBytes),
        WalletCommonUtils::to64byte_array(&wide[..63])
    );
}

#[test]
fn base58_of_zero_key() {
    // The base58 of 32 zero bytes is 32 ones, the well-known system address.
    assert_eq!(
        "11111111111111111111111111111111",
        WalletCommonUtils::address(&[0u8; 32])
    );
    assert_eq!(
        bs58::encode(&[9u8; 64]).into_string(),
        WalletCommonUtils::base58_signature(&[9u8; 64])
    );
}

#[test]
fn random_keys_have_the_right_length() {
    let key = WalletCommonUtils::public_key_rand();
    assert_eq!(32, key.len());
    let other = WalletCommonUtils::rand_32bytes();
    assert_eq!(32, other.len());
}

#[test]
fn shorten_base58_keeps_both_ends() {
    assert_eq!(
        "FXdl...RGd4",
        WalletCommonUtils::shorten_base58("FXdlEvmrDbsEcDdRGd4").unwrap()
    );
    assert_eq!(
        Err(WalletError::InvalidBase58Address),
        WalletCommonUtils::shorten_base58("FXdlRGd")
    );
    assert_eq!(
        "FX...d4",
        WalletCommonUtils::custom_shorten_base58("FXdlEvmrDbsEcDdRGd4", 2).unwrap()
    );
    assert_eq!(
        "FXd...Gd4",
        WalletCommonUtils::custom_shorten_address_rl("FXdlEvmrDbsEcDdRGd4", 3, 3).unwrap()
    );
}
