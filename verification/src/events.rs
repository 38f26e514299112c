//! The wallet-standard window event identifiers and the feature interfaces
//! a wallet implementation fills in.

use vstd::prelude::*;

use crate::icon::WalletStandardIcon;
use crate::utils::{Byte32Array, Byte64Array};
use crate::version::SemverVersion;

verus! {

/// The standardized window events of the wallet standard.
#[derive(Debug, PartialEq, Eq, PartialOrd, Ord, Hash, Clone, Copy, Structural)]
pub enum WindowEvent {
    /// Standard App Ready Wallet Event Identifier.
    AppReady,
    /// Standard Register Wallet Event Identifier.
    Register,
}

impl WindowEvent {
    /// What [`Self::event_identifier`] returns.
    pub open spec fn event_identifier_spec(&self) -> Seq<char> {
        match self {
            WindowEvent::AppReady => "wallet-standard:app-ready"@,
            WindowEvent::Register => "wallet-standard:register-wallet"@,
        }
    }

    /// The event identifier string the wallet standard assigns this event.
    pub fn event_identifier(&self) -> (r: &'static str)
        ensures
            r@ == self.event_identifier_spec(),
    {
        match self {
            WindowEvent::AppReady => "wallet-standard:app-ready",
            WindowEvent::Register => "wallet-standard:register-wallet",
        }
    }
}

/// Which clusters an implementation enables; everything is enabled unless an
/// implementor says otherwise.
pub trait ClusterEnabled {
    /// Whether MainNet is enabled.
    fn mainnet(&self) -> bool {
        true
    }

    /// Whether TestNet is enabled.
    fn testnet(&self) -> bool {
        true
    }

    /// Whether DevNet is enabled.
    fn devnet(&self) -> bool {
        true
    }

    /// Whether LocalNet is enabled.
    fn localnet(&self) -> bool {
        true
    }
}

/// A commitment level an implementation understands.
pub trait Commitment: Sized {
    /// The processed commitment level.
    fn processed(&self) -> Self;

    /// The confirmed commitment level.
    fn confirmed(&self) -> Self;

    /// The finalized commitment level.
    fn finalized(&self) -> Self;

    /// The commitment level a string names.
    fn into(&self, commitment_str: &str) -> Self;

    /// The commitment level as text.
    fn as_str(&self) -> &str;
}

/// The standard feature identifiers a wallet exposes.
pub trait StandardFeatures {
    /// The namespace of the wallet's features.
    fn namespace(&self) -> &str;

    /// The `standard:connect` feature identifier.
    fn connect(&self) -> &'static str {
        "standard:connect"
    }

    /// The `standard:disconnect` feature identifier.
    fn disconnect(&self) -> &'static str {
        "standard:disconnect"
    }

    /// The `standard:events` feature identifier.
    fn events(&self) -> &'static str {
        "standard:events"
    }

    /// The `standard:on` feature identifier.
    fn on(&self) -> &'static str {
        "standard:on"
    }

    /// The sign-in feature identifier, where supported.
    fn sign_in(&self) -> Option<&str>;

    /// Whether sign-in is supported.
    fn supports_sign_in(&self) -> bool;

    /// The sign-message feature identifier.
    fn sign_message(&self) -> &str;

    /// The sign-transaction feature identifier.
    fn sign_transaction(&self) -> &str;

    /// The sign-and-send-transaction feature identifier.
    fn sign_and_send_transaction(&self) -> &str;
}


/// A wallet implementation: its label, version and icon, beside the
/// standard features.
pub trait Wallet: StandardFeatures {
    /// The wallet's name.
    fn label(&self) -> &str;

    /// The wallet's version.
    fn version(&self) -> SemverVersion;

    /// The wallet's icon, where it has one.
    fn icon(&self) -> Option<WalletStandardIcon>;
}

/// A wallet account: its address, public key, icon and label, beside the
/// standard features.
pub trait WalletAccount: StandardFeatures {
    /// Address of the account.
    fn address(&self) -> &str;

    /// Public key of the account.
    fn public_key(&self) -> &Byte32Array;

    /// The account's icon, where it has one.
    fn icon(&self) -> Option<WalletStandardIcon>;

    /// The account's label, where it has one.
    fn label(&self) -> Option<&str>;
}

/// The input handed to a message-signing feature.
pub trait SignMessageInput {
    /// The raw bytes to sign.
    fn message(&self) -> &[u8];
}

/// The output of a message-signing feature.
pub trait SignedMessageOutput {
    /// The raw bytes that were signed.
    fn message(&self) -> &[u8];

    /// The public key of the signing account.
    fn public_key(&self) -> &Byte32Array;

    /// The signature over the message bytes.
    fn signature(&self) -> &Byte64Array;
}

/// The input handed to a transaction-signing feature.
pub trait SignTransactionInput {
    /// The serialized transaction bytes to sign.
    fn sign_transaction_input(&self) -> &[u8];
}

/// The output of a transaction-signing feature.
pub trait SignTransactionOutput {
    /// The signed, serialized transaction bytes.
    fn signed_transaction(&self) -> &[u8];
}

/// The output of a sign-and-send-transaction feature; its input is the same
/// as [`SignTransactionInput`].
pub trait SignAndSendTransactionOutput {
    /// The signature of the sent transaction.
    fn signature(&self) -> &Byte64Array;
}

} // verus!
