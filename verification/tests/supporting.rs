//! Versions, icons, random buffers, account data and error texts.

use wallet_adapter::{
    ChainSupport, FeatureSupport, RandomBytes, SemverVersion, WalletAccountData,
    WalletError, WalletStandardIcon, WalletStandardIconMime, WindowEvent,
};

#[test]
fn semver_parses_three_components() {
    let version = SemverVersion::parse("1.2.3").unwrap();
    assert_eq!(1, version.major());
    assert_eq!(2, version.minor());
    assert_eq!(3, version.patch());
    assert_eq!("1.2.3", version.stringify_version());

    let version = SemverVersion::parse("0.255.10").unwrap();
    assert_eq!("0.255.10", version.stringify_version());
}

#[test]
fn semver_rejects_malformed_versions() {
    assert_eq!(
        Some(WalletError::InvalidWalletVersion("1.2".to_string())),
        SemverVersion::parse("1.2").err()
    );
    assert_eq!(
        Some(WalletError::InvalidWalletVersion("1.2.3.4".to_string())),
        SemverVersion::parse("1.2.3.4").err()
    );
    assert_eq!(
        Some(WalletError::InvalidSemVerNumber("x".to_string())),
        SemverVersion::parse("1.2.x").err()
    );
    assert_eq!(
        Some(WalletError::InvalidSemVerNumber("300".to_string())),
        SemverVersion::parse("300.2.1").err()
    );
    assert_eq!(
        Some(WalletError::InvalidSemVerNumber("".to_string())),
        SemverVersion::parse("..").err()
    );
}

#[test]
fn icon_renders_base64_data_uri() {
    let icon = WalletStandardIcon::new_png(b"abc");
    assert_eq!("data:image/png;base64,YWJj", icon.base64());

    let icon = WalletStandardIcon::new_svg(b"abc");
    assert_eq!("data:image/svg+xml;base64,YWJj", icon.base64());

    assert_eq!("gif", WalletStandardIconMime::Gif.mime_str());
    assert_eq!("webp", WalletStandardIcon::new_webp(b"x").mime.mime_str());
    assert_eq!("jpeg", WalletStandardIcon::new_jpeg(b"x").mime.mime_str());
    assert_eq!(
        WalletStandardIconMime::Gif,
        WalletStandardIcon::new_gif(b"x").mime
    );
    assert_eq!(
        WalletStandardIconMime::Png,
        WalletStandardIcon::new(b"x", WalletStandardIconMime::Png).mime
    );
}

#[test]
fn random_bytes_generate_and_zeroize() {
    let buffer = RandomBytes::<32>::new();
    assert_eq!(&[0u8; 32], buffer.expose());

    let mut buffer = RandomBytes::<32>::generate();
    assert_eq!(32, buffer.expose().len());
    buffer.zeroize();
    assert_eq!(&[0u8; 32], buffer.expose());
}

#[test]
fn window_event_identifiers() {
    assert_eq!(
        "wallet-standard:app-ready",
        WindowEvent::AppReady.event_identifier()
    );
    assert_eq!(
        "wallet-standard:register-wallet",
        WindowEvent::Register.event_identifier()
    );
}

#[test]
fn account_data_reports_support_flags() {
    let account = WalletAccountData {
        address: "FXdlEvmrDbsEcDdRGd4".to_string(),
        public_key: [7u8; 32],
        chains: vec!["solana:mainnet".to_string()],
        features: vec!["standard:connect".to_string()],
        label: Some("main".to_string()),
        icon: None,
        supported_features: FeatureSupport {
            connect: true,
            disconnect: false,
            events: true,
            sign_in: true,
            sign_message: true,
            sign_and_send_tx: false,
            sign_tx: false,
        },
        supported_chains: ChainSupport {
            mainnet: true,
            devnet: false,
            testnet: false,
            localnet: false,
        },
    };

    assert_eq!("FXdlEvmrDbsEcDdRGd4", account.address());
    assert_eq!([7u8; 32], account.public_key());
    assert_eq!(&["solana:mainnet".to_string()], account.chains());
    assert_eq!(&["standard:connect".to_string()], account.features());
    assert_eq!(Some(&"main".to_string()), account.label());
    assert_eq!(None, account.icon());
    assert_eq!("FXdl...RGd4", account.shorten_address().unwrap());
    assert_eq!("FX...d4", account.custom_shorten_address(2).unwrap());
    assert_eq!("F...4", account.custom_shorten_address_rl(1, 1).unwrap());
    assert!(account.mainnet());
    assert!(!account.devnet());
    assert!(!account.testnet());
    assert!(!account.localnet());
    assert!(account.standard_connect());
    assert!(!account.standard_disconnect());
    assert!(account.standard_events());
    assert!(account.solana_signin());
    assert!(account.solana_sign_message());
    assert!(!account.solana_sign_and_send_transaction());
    assert!(!account.solana_sign_transaction());
}

#[test]
fn cluster_defaults_to_devnet() {
    assert_eq!(wallet_adapter::Cluster::DevNet, wallet_adapter::Cluster::default());
}

#[test]
fn signin_input_is_hashable() {
    let mut set = std::collections::HashSet::new();
    let mut signin_input = wallet_adapter::SigninInput::new();
    signin_input.set_custom_domain("example.com");
    set.insert(signin_input.clone());
    set.insert(signin_input);
    assert_eq!(1, set.len());
}

#[test]
fn error_messages_name_the_failure() {
    assert_eq!("Invalid Base58 Address", WalletError::InvalidBase58Address.message());
    assert_eq!(
        "The nonce is required to be at least 8 characters long",
        WalletError::NonceTooShort.message()
    );
}
