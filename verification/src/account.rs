//! The plain data of a connected wallet account, as the wallet standard
//! defines it: address, public key, supported chains and features.

use vstd::prelude::*;
use vstd::string::*;

use crate::cluster::ChainSupport;
use crate::errors::{WalletError, WalletResult};
use crate::utils::WalletCommonUtils;

verus! {

/// Which standard features a wallet account supports.
#[derive(Debug, Default, PartialEq, Eq, Clone, Hash, Structural)]
pub struct FeatureSupport {
    /// `standard:connect`.
    pub connect: bool,
    /// `standard:disconnect`.
    pub disconnect: bool,
    /// `standard:events`.
    pub events: bool,
    /// `solana:signIn`.
    pub sign_in: bool,
    /// `solana:signMessage`.
    pub sign_message: bool,
    /// `solana:signAndSendTransaction`.
    pub sign_and_send_tx: bool,
    /// `solana:signTransaction`.
    pub sign_tx: bool,
}

/// A connected account's data. This carries no browser handles: only the
/// plain values the wallet standard exposes.
#[derive(Debug, Clone, Default, PartialEq, Eq)]
pub struct WalletAccountData {
    /// Address of the account, corresponding with a public key.
    pub address: String,
    /// Public key of the account, corresponding with a secret key to use.
    pub public_key: [u8; 32],
    /// Chains supported by the account.
    pub chains: Vec<String>,
    /// Feature names supported by the account.
    pub features: Vec<String>,
    /// Optional user-friendly label or name for the account.
    pub label: Option<String>,
    /// Optional user-friendly icon for the account, as a data URI.
    pub icon: Option<String>,
    /// Convenience field, instead of going through the `features` field.
    pub supported_features: FeatureSupport,
    /// Convenience field, instead of iterating through the `chains` field.
    pub supported_chains: ChainSupport,
}

impl WalletAccountData {
    /// Address of the account.
    pub fn address(&self) -> (r: &str)
        ensures
            r@ == self.address@,
    {
        self.address.as_str()
    }

    /// Public key of the account.
    pub fn public_key(&self) -> (r: [u8; 32])
        ensures
            r@ == self.public_key@,
    {
        self.public_key
    }

    /// Chains supported by the account.
    pub fn chains(&self) -> (r: &[String])
        ensures
            r.deep_view() == self.chains.deep_view(),
    {
        self.chains.as_slice()
    }

    /// Feature names supported by the account.
    pub fn features(&self) -> (r: &[String])
        ensures
            r.deep_view() == self.features.deep_view(),
    {
        self.features.as_slice()
    }

    /// Optional label of the account.
    pub fn label(&self) -> (r: Option<&String>)
        ensures
            match r {
                Some(s) => self.label == Some(*s),
                None => self.label is None,
            },
    {
        self.label.as_ref()
    }

    /// Optional icon of the account.
    pub fn icon(&self) -> (r: Option<&String>)
        ensures
            match r {
                Some(s) => self.icon == Some(*s),
                None => self.icon is None,
            },
    {
        self.icon.as_ref()
    }

    /// The first and last four characters of the address around an ellipsis;
    /// fails with [`WalletError::InvalidBase58Address`] if and only if the
    /// address has fewer than 8 characters.
    pub fn shorten_address(&self) -> (r: WalletResult<String>)
        ensures
            match r {
                Ok(s) => self.address@.len() >= 8 && s@ == self.address@.take(4) + "..."@
                    + self.address@.skip(self.address@.len() - 4),
                Err(e) => e == WalletError::InvalidBase58Address && self.address@.len() < 8,
            },
    {
        WalletCommonUtils::shorten_base58(self.address.as_str())
    }

    /// As [`Self::shorten_address`], keeping `take` characters on both
    /// sides.
    pub fn custom_shorten_address(&self, take: usize) -> (r: WalletResult<String>)
        ensures
            match r {
                Ok(s) => take + take <= self.address@.len() && s@ == self.address@.take(
                    take as int,
                ) + "..."@ + self.address@.skip(self.address@.len() - take),
                Err(e) => e == WalletError::InvalidBase58Address && self.address@.len() < take
                    + take,
            },
    {
        WalletCommonUtils::custom_shorten_base58(self.address.as_str(), take)
    }

    /// As [`Self::shorten_address`], keeping `left` characters before the
    /// ellipsis and `right` after.
    pub fn custom_shorten_address_rl(&self, left: usize, right: usize) -> (r: WalletResult<String>)
        ensures
            match r {
                Ok(s) => left + right <= self.address@.len() && s@ == self.address@.take(
                    left as int,
                ) + "..."@ + self.address@.skip(self.address@.len() - right),
                Err(e) => e == WalletError::InvalidBase58Address && self.address@.len() < left
                    + right,
            },
    {
        WalletCommonUtils::custom_shorten_address_rl(self.address.as_str(), left, right)
    }

    /// Whether MainNet is supported.
    pub fn mainnet(&self) -> (r: bool)
        ensures
            r == self.supported_chains.mainnet,
    {
        self.supported_chains.mainnet
    }

    /// Whether DevNet is supported.
    pub fn devnet(&self) -> (r: bool)
        ensures
            r == self.supported_chains.devnet,
    {
        self.supported_chains.devnet
    }

    /// Whether TestNet is supported.
    pub fn testnet(&self) -> (r: bool)
        ensures
            r == self.supported_chains.testnet,
    {
        self.supported_chains.testnet
    }

    /// Whether LocalNet is supported.
    pub fn localnet(&self) -> (r: bool)
        ensures
            r == self.supported_chains.localnet,
    {
        self.supported_chains.localnet
    }

    /// Whether `standard:connect` is supported.
    pub fn standard_connect(&self) -> (r: bool)
        ensures
            r == self.supported_features.connect,
    {
        self.supported_features.connect
    }

    /// Whether `standard:disconnect` is supported.
    pub fn standard_disconnect(&self) -> (r: bool)
        ensures
            r == self.supported_features.disconnect,
    {
        self.supported_features.disconnect
    }

    /// Whether `standard:events` is supported.
    pub fn standard_events(&self) -> (r: bool)
        ensures
            r == self.supported_features.events,
    {
        self.supported_features.events
    }

    /// Whether `solana:signIn` is supported.
    pub fn solana_signin(&self) -> (r: bool)
        ensures
            r == self.supported_features.sign_in,
    {
        self.supported_features.sign_in
    }

    /// Whether `solana:signMessage` is supported.
    pub fn solana_sign_message(&self) -> (r: bool)
        ensures
            r == self.supported_features.sign_message,
    {
        self.supported_features.sign_message
    }

    /// Whether `solana:signAndSendTransaction` is supported.
    pub fn solana_sign_and_send_transaction(&self) -> (r: bool)
        ensures
            r == self.supported_features.sign_and_send_tx,
    {
        self.supported_features.sign_and_send_tx
    }

    /// Whether `solana:signTransaction` is supported.
    pub fn solana_sign_transaction(&self) -> (r: bool)
        ensures
            r == self.supported_features.sign_tx,
    {
        self.supported_features.sign_tx
    }
}

} // verus!
