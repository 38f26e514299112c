//! Cluster identifiers, endpoints and the never-failing string conversion.

use wallet_adapter::{
    Cluster, DEVNET_ENDPOINT, DEVNET_IDENTIFIER, LOCALNET_ENDPOINT, LOCALNET_IDENTIFIER,
    MAINNET_ENDPOINT, MAINNET_IDENTIFIER, TESTNET_ENDPOINT, TESTNET_IDENTIFIER,
};

#[test]
fn is_valid_uri() {
    assert_eq!(MAINNET_ENDPOINT, "https://api.mainnet-beta.solana.com");
    assert_eq!(DEVNET_ENDPOINT, "https://api.devnet.solana.com");
    assert_eq!(TESTNET_ENDPOINT, "https://api.testnet.solana.com");
    assert_eq!(LOCALNET_ENDPOINT, "http://localhost:8899");

    assert_eq!(MAINNET_IDENTIFIER, "solana:mainnet");
    assert_eq!(DEVNET_IDENTIFIER, "solana:devnet");
    assert_eq!(TESTNET_IDENTIFIER, "solana:testnet");
    assert_eq!(LOCALNET_IDENTIFIER, "solana:localnet");
}

#[test]
fn valid_chain() {
    assert_eq!(Cluster::MainNet, "solana:mainnet".into());
    assert_eq!(Cluster::DevNet, "solana:devnet".into());
    assert_eq!(Cluster::TestNet, "solana:testnet".into());
    assert_eq!(Cluster::LocalNet, "solana:localnet".into());
    assert!(Cluster::DevNet == "solana:localnet2".into());

    assert_eq!(
        Cluster::MainNet,
        "https://api.mainnet-beta.solana.com".into()
    );
    assert_eq!(Cluster::DevNet, "https://api.devnet.solana.com".into());
    assert_eq!(Cluster::TestNet, "https://api.testnet.solana.com".into());
    assert_eq!(Cluster::LocalNet, "http://localhost:8899".into());
    assert!(Cluster::DevNet == "https://localhost:8899".into());
    assert!(Cluster::DevNet == "https://cluster.foo".into());
}

#[test]
fn validate_endpoint() {
    assert_eq!(
        Cluster::MainNet.endpoint(),
        "https://api.mainnet-beta.solana.com"
    );
    assert_eq!(Cluster::DevNet.endpoint(), "https://api.devnet.solana.com");
    assert_eq!(
        Cluster::TestNet.endpoint(),
        "https://api.testnet.solana.com"
    );
    assert_eq!(Cluster::LocalNet.endpoint(), "http://localhost:8899");
}

#[test]
fn chain_and_display_names() {
    assert_eq!(Cluster::MainNet.chain(), "solana:mainnet");
    assert_eq!(Cluster::DevNet.chain(), "solana:devnet");
    assert_eq!(Cluster::TestNet.chain(), "solana:testnet");
    assert_eq!(Cluster::LocalNet.chain(), "solana:localnet");

    assert_eq!(Cluster::MainNet.display(), "mainnet");
    assert_eq!(Cluster::DevNet.display(), "devnet");
    assert_eq!(Cluster::TestNet.display(), "testnet");
    assert_eq!(Cluster::LocalNet.display(), "localnet");

    assert_eq!(Cluster::MainNet, "mainnet".into());
    assert_eq!(Cluster::TestNet, "testnet".into());
    assert_eq!(Cluster::LocalNet, "localnet".into());
    assert_eq!(Cluster::DevNet, "devnet".into());
}
