//! Sign-In-With-Solana (SIWS) challenge engine.
//!
//! The library builds a sign-in request ([`SigninInput`]), renders it to the
//! canonical SIWS text message, parses a wallet's echoed message back into a
//! structured value, detects tampering by round-trip equality, and verifies
//! the wallet's Ed25519 signature over the signed bytes.

mod account;
mod cluster;
mod errors;

mod events;
mod icon;
mod message;
mod random;
mod signin;
mod strutil;
mod time;
mod utils;
mod version;

pub use cluster::{
    Cluster, ChainSupport, DEVNET, DEVNET_ENDPOINT, DEVNET_IDENTIFIER, LOCALNET,
    LOCALNET_ENDPOINT, LOCALNET_IDENTIFIER, MAINNET, MAINNET_ENDPOINT, MAINNET_IDENTIFIER,
    TESTNET, TESTNET_ENDPOINT, TESTNET_IDENTIFIER,
};
pub use account::{FeatureSupport, WalletAccountData};
pub use errors::{WalletError, WalletResult};
pub use events::{
    ClusterEnabled, Commitment, SignAndSendTransactionOutput, SignMessageInput,
    SignTransactionInput, SignTransactionOutput, SignedMessageOutput, StandardFeatures, Wallet,
    WalletAccount, WindowEvent,
};
pub use icon::{WalletIcon, WalletStandardIcon, WalletStandardIconMime};
pub use message::{
    fmt_lines, lemma_base58_line_safe, line_safe, message_of, parse_message, round_trippable,
    SigninObject,
};
pub use random::RandomBytes;
pub use signin::{SigninData, SigninInput};
pub use time::{rfc3339_millis, rfc3339_parse_millis, MAX_TIMESTAMP_MILLIS};
pub use utils::{
    BaseUtils, Byte32Array, Byte64Array, PublicKeyBytes, SignatureBytes, WalletCommonUtils,
};
pub use version::SemverVersion;
