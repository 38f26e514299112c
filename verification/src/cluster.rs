//! Solana cluster identifiers: each cluster has a canonical chain identifier
//! (`solana:mainnet`), a bare name (`mainnet`) and a default RPC endpoint.

use vstd::prelude::*;

use crate::strutil::str_same;

verus! {

/// Solana Mainnet endpoint.
pub const MAINNET_ENDPOINT: &'static str = "https://api.mainnet-beta.solana.com";

/// Solana Devnet endpoint.
pub const DEVNET_ENDPOINT: &'static str = "https://api.devnet.solana.com";

/// Solana Testnet endpoint.
pub const TESTNET_ENDPOINT: &'static str = "https://api.testnet.solana.com";

/// Solana Localnet endpoint.
pub const LOCALNET_ENDPOINT: &'static str = "http://localhost:8899";

/// Solana Mainnet chain identifier.
pub const MAINNET_IDENTIFIER: &'static str = "solana:mainnet";

/// Solana Devnet chain identifier.
pub const DEVNET_IDENTIFIER: &'static str = "solana:devnet";

/// Solana Testnet chain identifier.
pub const TESTNET_IDENTIFIER: &'static str = "solana:testnet";

/// Solana Localnet chain identifier.
pub const LOCALNET_IDENTIFIER: &'static str = "solana:localnet";

/// Solana Mainnet bare name.
pub const MAINNET: &'static str = "mainnet";

/// Solana Devnet bare name.
pub const DEVNET: &'static str = "devnet";

/// Solana Testnet bare name.
pub const TESTNET: &'static str = "testnet";

/// Solana Localnet bare name.
pub const LOCALNET: &'static str = "localnet";

/// A named Solana network environment.
#[derive(Debug, PartialEq, Eq, Clone, Copy, Hash, Structural)]
pub enum Cluster {
    /// The Solana Mainnet cluster.
    MainNet,
    /// The Solana Devnet cluster.
    DevNet,
    /// The Solana Testnet cluster.
    TestNet,
    /// The Solana Localnet cluster.
    LocalNet,
}

impl Cluster {
    /// What [`Self::endpoint`] returns.
    pub open spec fn endpoint_spec(&self) -> Seq<char> {
        match self {
            Cluster::MainNet => "https://api.mainnet-beta.solana.com"@,
            Cluster::DevNet => "https://api.devnet.solana.com"@,
            Cluster::TestNet => "https://api.testnet.solana.com"@,
            Cluster::LocalNet => "http://localhost:8899"@,
        }
    }

    /// What [`Self::chain`] returns.
    pub open spec fn chain_spec(&self) -> Seq<char> {
        match self {
            Cluster::MainNet => "solana:mainnet"@,
            Cluster::DevNet => "solana:devnet"@,
            Cluster::TestNet => "solana:testnet"@,
            Cluster::LocalNet => "solana:localnet"@,
        }
    }

    /// What [`Self::display`] returns.
    pub open spec fn display_spec(&self) -> Seq<char> {
        match self {
            Cluster::MainNet => "mainnet"@,
            Cluster::DevNet => "devnet"@,
            Cluster::TestNet => "testnet"@,
            Cluster::LocalNet => "localnet"@,
        }
    }

    /// The default RPC endpoint URL of the cluster.
    pub fn endpoint(&self) -> (r: &'static str)
        ensures
            r@ == self.endpoint_spec(),
    {
        match self {
            Cluster::MainNet => MAINNET_ENDPOINT,
            Cluster::DevNet => DEVNET_ENDPOINT,
            Cluster::TestNet => TESTNET_ENDPOINT,
            Cluster::LocalNet => LOCALNET_ENDPOINT,
        }
    }

    /// The canonical chain identifier of the cluster.
    pub fn chain(&self) -> (r: &'static str)
        ensures
            r@ == self.chain_spec(),
    {
        match self {
            Cluster::MainNet => MAINNET_IDENTIFIER,
            Cluster::DevNet => DEVNET_IDENTIFIER,
            Cluster::TestNet => TESTNET_IDENTIFIER,
            Cluster::LocalNet => LOCALNET_IDENTIFIER,
        }
    }

    /// The bare name of the cluster.
    pub fn display(&self) -> (r: &'static str)
        ensures
            r@ == self.display_spec(),
    {
        match self {
            Cluster::MainNet => MAINNET,
            Cluster::DevNet => DEVNET,
            Cluster::TestNet => TESTNET,
            Cluster::LocalNet => LOCALNET,
        }
    }
}

/// The cluster a string names, by chain identifier, endpoint URL or bare
/// name. An unrecognized string maps to [`Cluster::DevNet`]: conversion never
/// fails.
pub open spec fn cluster_from_str(s: Seq<char>) -> Cluster {
    if s == "solana:mainnet"@ || s == "https://api.mainnet-beta.solana.com"@ || s == "mainnet"@ {
        Cluster::MainNet
    } else if s == "solana:testnet"@ || s == "https://api.testnet.solana.com"@ || s == "testnet"@ {
        Cluster::TestNet
    } else if s == "solana:localnet"@ || s == "http://localhost:8899"@ || s == "localnet"@ {
        Cluster::LocalNet
    } else {
        Cluster::DevNet
    }
}

impl Default for Cluster {
    /// The default cluster: DevNet.
    fn default() -> (r: Self)
        ensures
            r == Cluster::DevNet,
    {
        Cluster::DevNet
    }
}

impl From<&str> for Cluster {
    /// The cluster named by `value`, as [`cluster_from_str`] states; any
    /// unrecognized string silently maps to [`Cluster::DevNet`].
    fn from(value: &str) -> (r: Self) {
        if str_same(value, MAINNET_IDENTIFIER)
            || str_same(value, MAINNET_ENDPOINT)
            || str_same(value, MAINNET)
        {
            Cluster::MainNet
        } else if str_same(value, TESTNET_IDENTIFIER)
            || str_same(value, TESTNET_ENDPOINT)
            || str_same(value, TESTNET)
        {
            Cluster::TestNet
        } else if str_same(value, LOCALNET_IDENTIFIER)
            || str_same(value, LOCALNET_ENDPOINT)
            || str_same(value, LOCALNET)
        {
            Cluster::LocalNet
        } else {
            Cluster::DevNet
        }
    }
}

impl vstd::std_specs::convert::FromSpecImpl<&str> for Cluster {
    open spec fn obeys_from_spec() -> bool {
        true
    }

    open spec fn from_spec(v: &str) -> Self {
        cluster_from_str(v@)
    }
}

/// Which clusters a wallet supports, as the wallet standard defines them.
#[derive(Debug, Default, PartialEq, Eq, Clone, Hash, Structural)]
pub struct ChainSupport {
    /// Main Net cluster.
    pub mainnet: bool,
    /// Dev Net cluster.
    pub devnet: bool,
    /// Test Net cluster.
    pub testnet: bool,
    /// Local Net cluster.
    pub localnet: bool,
}

} // verus!
