use vstd::prelude::*;

verus! {

/// Convenience alias for results whose error is [`WalletError`].
pub type WalletResult<T> = Result<T, WalletError>;

/// Every failure this library reports. All validation is eager: each error is
/// returned by the operation that first sees the violated constraint.
#[derive(Debug, Clone, PartialEq, Eq)]
pub enum WalletError {
    /// The supplied address is not base58, or does not decode to exactly 32 bytes.
    InvalidBase58Address,
    /// A custom nonce was shorter than the required 8 characters.
    NonceTooShort,
    /// The expiration time lies before the already-set issued-at time.
    ExpiryBeforeIssued,
    /// The expiration time lies in the past of the supplied current time.
    ExpirationInPast,
    /// The not-before time lies before the already-set issued-at time.
    NotBeforeBeforeIssued,
    /// The not-before time lies in the past of the supplied current time.
    NotBeforeInPast,
    /// The not-before time lies after the already-set expiration time.
    NotBeforeAfterExpiry,
    /// A computed instant overflowed the representable timestamp range.
    TimeOverflow,
    /// A timestamp in a parsed message is not in RFC3339 form; carries the raw text.
    InvalidTimestampFormat(String),
    /// The echoed message does not match the request that was sent.
    MessageResponseMismatch,
    /// The 32 public-key bytes do not decode to a valid Ed25519 key.
    InvalidPublicKeyBytes,
    /// The signature bytes do not have the required 64-byte length.
    InvalidSignatureBytes,
    /// The Ed25519 signature does not verify for the message and public key.
    InvalidSignature,
    /// A wallet version string is not of the `major.minor.patch` form.
    InvalidWalletVersion(String),
    /// A wallet version component is not a decimal number in `0..=255`.
    InvalidSemVerNumber(String),
}

impl WalletError {
    /// A short human-readable description of the error.
    pub fn message(&self) -> (r: &'static str)
        ensures
            r@ == self.message_spec(),
    {
        match self {
            WalletError::InvalidBase58Address => "Invalid Base58 Address",
            WalletError::NonceTooShort => "The nonce is required to be at least 8 characters long",
            WalletError::ExpiryBeforeIssued => "The expiration time is earlier than the issued time",
            WalletError::ExpirationInPast => "The expiration time is set to expire in the past",
            WalletError::NotBeforeBeforeIssued => "The not before time is earlier than the issued time",
            WalletError::NotBeforeInPast => "The not before time is set in the past",
            WalletError::NotBeforeAfterExpiry => "The not before time is later than the expiration time",
            WalletError::TimeOverflow => "Computing the instant overflowed the representable time range",
            WalletError::InvalidTimestampFormat(_) => "Expected an RFC3339 timestamp",
            WalletError::MessageResponseMismatch => "The signed message is not the message sent to the wallet",
            WalletError::InvalidPublicKeyBytes => "The bytes provided for the Ed25519 public key are invalid",
            WalletError::InvalidSignatureBytes => "The byte length of a signature must equal 64",
            WalletError::InvalidSignature => "The Ed25519 signature is invalid for the signed message and public key",
            WalletError::InvalidWalletVersion(_) => "Expected a `major.minor.patch` version string",
            WalletError::InvalidSemVerNumber(_) => "Expected a version component between 0 and 255",
        }
    }

    /// What [`Self::message`] returns, by variant.
    pub open spec fn message_spec(&self) -> Seq<char> {
        match self {
            WalletError::InvalidBase58Address => "Invalid Base58 Address"@,
            WalletError::NonceTooShort => "The nonce is required to be at least 8 characters long"@,
            WalletError::ExpiryBeforeIssued => "The expiration time is earlier than the issued time"@,
            WalletError::ExpirationInPast => "The expiration time is set to expire in the past"@,
            WalletError::NotBeforeBeforeIssued => "The not before time is earlier than the issued time"@,
            WalletError::NotBeforeInPast => "The not before time is set in the past"@,
            WalletError::NotBeforeAfterExpiry => "The not before time is later than the expiration time"@,
            WalletError::TimeOverflow => "Computing the instant overflowed the representable time range"@,
            WalletError::InvalidTimestampFormat(_) => "Expected an RFC3339 timestamp"@,
            WalletError::MessageResponseMismatch => "The signed message is not the message sent to the wallet"@,
            WalletError::InvalidPublicKeyBytes => "The bytes provided for the Ed25519 public key are invalid"@,
            WalletError::InvalidSignatureBytes => "The byte length of a signature must equal 64"@,
            WalletError::InvalidSignature => "The Ed25519 signature is invalid for the signed message and public key"@,
            WalletError::InvalidWalletVersion(_) => "Expected a `major.minor.patch` version string"@,
            WalletError::InvalidSemVerNumber(_) => "Expected a version component between 0 and 255"@,
        }
    }
}

} // verus!
