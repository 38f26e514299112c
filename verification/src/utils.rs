//! Helper utilities around keys, signatures and base58 text, and the trusted
//! boundary to the base58, hashing and Ed25519 implementations.

use vstd::prelude::*;
use vstd::string::*;

use ed25519_dalek::{Signature, Verifier, VerifyingKey};

use crate::errors::{WalletError, WalletResult};
use crate::random::RandomBytes;

verus! {

/// A 32 byte array representing a public key.
pub type PublicKeyBytes = [u8; 32];

/// A 64 byte array representing a signature.
pub type SignatureBytes = [u8; 64];

/// A 32 byte array.
pub type Byte32Array = [u8; 32];

/// A 64 byte array.
pub type Byte64Array = [u8; 64];

/// The character belongs to the Bitcoin base58 alphabet (digits and letters
/// without `0`, `I`, `O` and `l`).
pub open spec fn is_base58_char(c: char) -> bool {
    ('1' <= c && c <= '9') || ('A' <= c && c <= 'H') || ('J' <= c && c <= 'N') || ('P' <= c && c
        <= 'Z') || ('a' <= c && c <= 'k') || ('m' <= c && c <= 'z')
}

/// The base58 rendering of a byte string.
pub uninterp spec fn base58_of(bytes: Seq<u8>) -> Seq<char>;

/// The bytes a string decodes to under base58 rules, or `None` where the
/// string holds a character outside the base58 alphabet.
pub uninterp spec fn base58_decode(s: Seq<char>) -> Option<Seq<u8>>;

/// The character is a lowercase hexadecimal digit.
pub open spec fn is_lower_hex_digit(c: char) -> bool {
    ('0' <= c && c <= '9') || ('a' <= c && c <= 'f')
}

/// The lowercase hex digest, 64 characters, of the BLAKE3 hash of a byte
/// string.
pub uninterp spec fn blake3_hex_of(bytes: Seq<u8>) -> Seq<char>;

/// Whether 32 bytes decode to a valid Ed25519 public key (a compressed
/// Edwards point that decompresses).
pub uninterp spec fn ed25519_pk_valid(public_key: Seq<u8>) -> bool;

/// Whether a 64-byte signature verifies over a message under a public key,
/// by the Ed25519 equations.
pub uninterp spec fn ed25519_verifies(public_key: Seq<u8>, message: Seq<u8>, signature: Seq<u8>) -> bool;

/// Relies on `bs58::encode`: the base58 text of the bytes, a function of the
/// bytes alone; every output character comes from the Bitcoin alphabet.
#[verifier::external_body]
pub(crate) fn encode_base58(bytes: &[u8]) -> (r: String)
    ensures
        r@ == base58_of(bytes@),
        forall|i: int| 0 <= i < r@.len() ==> is_base58_char(#[trigger] r@[i]),
{
    bs58::encode(bytes).into_string()
}

/// Relies on `bs58::decode`: the bytes the text decodes to, or `None` where
/// the text holds any character outside the Bitcoin alphabet; a function of
/// the text alone.
#[verifier::external_body]
pub(crate) fn decode_base58(text: &str) -> (r: Option<Vec<u8>>)
    ensures
        match r {
            Some(bytes) => base58_decode(text@) == Some(bytes@) && (forall|i: int|
                0 <= i < text@.len() ==> is_base58_char(#[trigger] text@[i])),
            None => base58_decode(text@) is None,
        },
{
    bs58::decode(text).into_vec().ok()
}

/// Relies on `blake3::hash` and `blake3::Hash::to_hex`: the 64-character
/// lowercase hex digest of the input, a function of the input alone.
#[verifier::external_body]
pub(crate) fn blake3_hex(bytes: &[u8; 32]) -> (r: String)
    ensures
        r@ == blake3_hex_of(bytes@),
        r@.len() == 64,
        forall|i: int| 0 <= i < r@.len() ==> is_lower_hex_digit(#[trigger] r@[i]),
{
    String::from(blake3::hash(bytes).to_hex().as_str())
}

/// Relies on `ed25519_dalek::VerifyingKey::from_bytes`,
/// `ed25519_dalek::Signature::from_bytes` and
/// `ed25519_dalek::Verifier::verify`: decoding the key fails exactly where
/// the bytes are not a decompressible Edwards point, decoding a 64-byte
/// signature never fails,
/// and verification succeeds exactly where the Ed25519 equations hold; all
/// three are functions of their byte inputs alone. The three calls stand in
/// one body because the contract speaks over the raw key bytes, which the
/// decoded key type cannot carry.
#[verifier::external_body]
fn ed25519_verify(
    public_key_bytes: &[u8; 32],
    message: &[u8],
    signature_bytes: &[u8; 64],
) -> (r: WalletResult<()>)
    ensures
        match r {
            Ok(()) => ed25519_pk_valid(public_key_bytes@) && ed25519_verifies(
                public_key_bytes@,
                message@,
                signature_bytes@,
            ),
            Err(e) => if !ed25519_pk_valid(public_key_bytes@) {
                e == WalletError::InvalidPublicKeyBytes
            } else {
                !ed25519_verifies(public_key_bytes@, message@, signature_bytes@) && e
                    == WalletError::InvalidSignature
            },
        },
{
    let public_key = VerifyingKey::from_bytes(public_key_bytes)
        .or(Err(WalletError::InvalidPublicKeyBytes))?;
    let signature = Signature::from_bytes(signature_bytes);
    public_key.verify(message, &signature).or(Err(WalletError::InvalidSignature))
}

/// Base helper utilities.
pub struct BaseUtils;

impl BaseUtils {
    /// The RFC3339 rendering, with millisecond fraction, of an instant given
    /// as milliseconds since the Unix epoch.
    pub fn to_iso860(timestamp_millis: u64) -> (r: String)
        requires
            timestamp_millis <= crate::time::MAX_TIMESTAMP_MILLIS,
        ensures
            r@ == crate::time::rfc3339_millis(timestamp_millis),
    {
        crate::time::to_iso860(timestamp_millis)
    }
}

/// Helper utilities around keys, signatures and base58 text.
pub struct WalletCommonUtils;

impl WalletCommonUtils {
    /// A 32-byte value drawn from the entropy source; stands in for a public
    /// key where one is needed for exercising the library.
    pub fn public_key_rand() -> (r: [u8; 32])
        ensures
            r@.len() == 32,
    {
        Self::rand_32bytes()
    }

    /// 32 bytes drawn from the entropy source.
    pub fn rand_32bytes() -> (r: [u8; 32])
        ensures
            r@.len() == 32,
    {
        let mut buffer = [0u8; 32];
        RandomBytes::<32>::generate_with_buffer(&mut buffer);
        buffer
    }

    /// Copies a slice into a 32-byte array; fails with
    /// [`WalletError::InvalidPublicKeyBytes`] if and only if the slice does
    /// not hold exactly 32 bytes.
    pub fn to32byte_array(bytes: &[u8]) -> (r: WalletResult<[u8; 32]>)
        ensures
            match r {
                Ok(arr) => bytes@.len() == 32 && arr@ == bytes@,
                Err(e) => e == WalletError::InvalidPublicKeyBytes && bytes@.len() != 32,
            },
    {
        if bytes.len() != 32 {
            return Err(WalletError::InvalidPublicKeyBytes);
        }
        let mut arr = [0u8; 32];
        let mut i: usize = 0;
        while i < 32
            invariant
                i <= 32,
                bytes@.len() == 32,
                arr@.len() == 32,
                forall|j: int| 0 <= j < i ==> arr@[j] == bytes@[j],
            decreases 32 - i,
        {
            arr[i] = bytes[i];
            i += 1;
        }
        proof {
            assert(arr@ =~= bytes@);
        }
        Ok(arr)
    }

    /// Copies a slice into a 64-byte array; fails with
    /// [`WalletError::InvalidSignatureBytes`] if and only if the slice does
    /// not hold exactly 64 bytes.
    pub fn to64byte_array(bytes: &[u8]) -> (r: WalletResult<[u8; 64]>)
        ensures
            match r {
                Ok(arr) => bytes@.len() == 64 && arr@ == bytes@,
                Err(e) => e == WalletError::InvalidSignatureBytes && bytes@.len() != 64,
            },
    {
        if bytes.len() != 64 {
            return Err(WalletError::InvalidSignatureBytes);
        }
        let mut arr = [0u8; 64];
        let mut i: usize = 0;
        while i < 64
            invariant
                i <= 64,
                bytes@.len() == 64,
                arr@.len() == 64,
                forall|j: int| 0 <= j < i ==> arr@[j] == bytes@[j],
            decreases 64 - i,
        {
            arr[i] = bytes[i];
            i += 1;
        }
        proof {
            assert(arr@ =~= bytes@);
        }
        Ok(arr)
    }

    /// Verifies an Ed25519 signature over a message: succeeds exactly where
    /// the key bytes decode to a valid key and the signature verifies;
    /// fails with [`WalletError::InvalidPublicKeyBytes`] on an invalid key
    /// and with [`WalletError::InvalidSignature`] on a failed verification.
    pub fn verify(
        public_key_bytes: &[u8; 32],
        message_bytes: &[u8],
        signature_bytes: &[u8; 64],
    ) -> (r: WalletResult<()>)
        ensures
            r is Ok <==> ed25519_pk_valid(public_key_bytes@) && ed25519_verifies(
                public_key_bytes@,
                message_bytes@,
                signature_bytes@,
            ),
            !ed25519_pk_valid(public_key_bytes@) ==> r == Err::<(), WalletError>(
                WalletError::InvalidPublicKeyBytes,
            ),
            ed25519_pk_valid(public_key_bytes@) && !ed25519_verifies(
                public_key_bytes@,
                message_bytes@,
                signature_bytes@,
            ) ==> r == Err::<(), WalletError>(WalletError::InvalidSignature),
    {
        ed25519_verify(public_key_bytes, message_bytes, signature_bytes)
    }

    /// The RFC3339 rendering, with millisecond fraction, of an instant given
    /// as milliseconds since the Unix epoch.
    pub fn to_iso860(timestamp_millis: u64) -> (r: String)
        requires
            timestamp_millis <= crate::time::MAX_TIMESTAMP_MILLIS,
        ensures
            r@ == crate::time::rfc3339_millis(timestamp_millis),
    {
        crate::time::to_iso860(timestamp_millis)
    }

    /// The base58 rendering of a 32-byte public key.
    pub fn address(public_key: &[u8; 32]) -> (r: String)
        ensures
            r@ == base58_of(public_key@),
            forall|i: int| 0 <= i < r@.len() ==> is_base58_char(#[trigger] r@[i]),
    {
        encode_base58(public_key)
    }

    /// The base58 rendering of a 64-byte signature.
    pub fn base58_signature(signature: &[u8; 64]) -> (r: String)
        ensures
            r@ == base58_of(signature@),
            forall|i: int| 0 <= i < r@.len() ==> is_base58_char(#[trigger] r@[i]),
    {
        encode_base58(signature)
    }

    /// The first and last four characters of a base58 string around an
    /// ellipsis (`FXdl...RGd4`); fails with
    /// [`WalletError::InvalidBase58Address`] if and only if the string has
    /// fewer than 8 characters.
    pub fn shorten_base58(base58_str: &str) -> (r: WalletResult<String>)
        ensures
            match r {
                Ok(s) => base58_str@.len() >= 8 && s@ == base58_str@.take(4) + "..."@
                    + base58_str@.skip(base58_str@.len() - 4),
                Err(e) => e == WalletError::InvalidBase58Address && base58_str@.len() < 8,
            },
    {
        Self::custom_shorten_address_rl(base58_str, 4, 4)
    }

    /// As [`Self::shorten_base58`], with `take` characters kept on both
    /// sides; fails if and only if the string has fewer than `take + take`
    /// characters.
    pub fn custom_shorten_base58(base58_str: &str, take: usize) -> (r: WalletResult<String>)
        ensures
            match r {
                Ok(s) => take + take <= base58_str@.len() && s@ == base58_str@.take(take as int)
                    + "..."@ + base58_str@.skip(base58_str@.len() - take),
                Err(e) => e == WalletError::InvalidBase58Address && base58_str@.len() < take
                    + take,
            },
    {
        Self::custom_shorten_address_rl(base58_str, take, take)
    }

    /// As [`Self::shorten_base58`], with `left` characters kept before the
    /// ellipsis and `right` after; fails if and only if the string has fewer
    /// than `left + right` characters.
    pub fn custom_shorten_address_rl(base58_address: &str, left: usize, right: usize) -> (r:
        WalletResult<String>)
        ensures
            match r {
                Ok(s) => left + right <= base58_address@.len() && s@ == base58_address@.take(
                    left as int,
                ) + "..."@ + base58_address@.skip(base58_address@.len() - right),
                Err(e) => e == WalletError::InvalidBase58Address && base58_address@.len() < left
                    + right,
            },
    {
        let len = base58_address.unicode_len();
        if len < left || len < right || len - left < right {
            return Err(WalletError::InvalidBase58Address);
        }
        let first_part = base58_address.substring_char(0, left);
        let last_part = base58_address.substring_char(len - right, len);
        let mut out = first_part.to_owned();
        out.append("...");
        out.append(last_part);
        Ok(out)
    }
}

} // verus!
