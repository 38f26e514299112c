//! The canonical message: byte-exact rendering, parsing an echo back, the
//! round trip, and tamper detection.

use wallet_adapter::{Cluster, SigninInput, WalletError};

const T0: u64 = 1_700_000_000_000;

fn example_address() -> String {
    bs58::encode(&[7u8; 32]).into_string()
}

#[test]
fn format_matches_template_exactly() {
    let address = example_address();
    let mut signin_input = SigninInput::new();
    signin_input.set_custom_domain("example.com");
    signin_input.set_address(&address).unwrap();
    signin_input.set_statement("Sign in to Example");
    signin_input.set_issued_at(T0).unwrap();
    signin_input.set_expiration_time_seconds(T0, 300).unwrap();

    let message = signin_input.format_message();
    let expected = format!(
        "example.com wants you to sign in with your Solana account:\n\
         {address}\n\
         \n\
         Sign in to Example\n\
         \n\
         Issued At: 2023-11-14T22:13:20.000Z\n\
         Expiration Time: 2023-11-14T22:18:20.000Z"
    );
    assert_eq!(expected, message);
    assert!(!message.contains("Not Before"));
    assert!(!message.contains("Request ID"));
    assert!(!message.contains("Resources"));

    let parsed = SigninInput::parser(&message).unwrap();
    assert_eq!(signin_input, parsed);
}

#[test]
fn round_trip_fully_populated() {
    let address = example_address();
    let mut signin_input = SigninInput::new();
    signin_input.set_custom_domain("example.com");
    signin_input.set_address(&address).unwrap();
    signin_input.set_statement("Sign in to Example");
    signin_input.set_uri("https://example.com/login");
    signin_input.set_version("1");
    signin_input.set_chain_id(Cluster::MainNet);
    signin_input.custom_nonce("a1b2c3d4e5").unwrap();
    signin_input.set_issued_at(T0).unwrap();
    signin_input.set_expiration_time(T0, T0 + 300_000).unwrap();
    signin_input.set_not_before_time(T0, T0 + 10_000).unwrap();
    signin_input.set_request_id("req-77");
    signin_input.add_resource("https://example.com/tos");
    signin_input.add_resource("ipfs://bafybeie");

    let message = signin_input.format_message();
    let parsed = SigninInput::parser(&message).unwrap();
    assert_eq!(signin_input, parsed);

    assert!(message.contains("URI: https://example.com/login"));
    assert!(message.contains("Version: 1"));
    assert!(message.contains("Chain ID: solana:mainnet"));
    assert!(message.contains("Nonce: a1b2c3d4e5"));
    assert!(message.contains("Not Before: 2023-11-14T22:13:30.000Z"));
    assert!(message.contains("Request ID: req-77"));
    assert!(message.contains("Resources:\n- https://example.com/tos\n- ipfs://bafybeie"));
}

#[test]
fn check_eq_accepts_identical_echo() {
    let address = example_address();
    let mut signin_input = SigninInput::new();
    signin_input.set_custom_domain("example.com");
    signin_input.set_address(&address).unwrap();
    signin_input.set_statement("Sign in to Example");
    signin_input.set_issued_at(T0).unwrap();

    let message = signin_input.format_message();
    assert!(signin_input.check_eq(&message).is_ok());
}

#[test]
fn check_eq_rejects_changed_address_line() {
    let address = example_address();
    let other_address = bs58::encode(&[9u8; 32]).into_string();
    let mut signin_input = SigninInput::new();
    signin_input.set_custom_domain("example.com");
    signin_input.set_address(&address).unwrap();
    signin_input.set_statement("Sign in to Example");
    signin_input.set_issued_at(T0).unwrap();

    let message = signin_input.format_message();
    let tampered = message.replace(&address, &other_address);
    assert_eq!(
        Some(WalletError::MessageResponseMismatch),
        signin_input.check_eq(&tampered).err()
    );
}

#[test]
fn parser_reports_bad_timestamp() {
    let text = "example.com wants you to sign in with your Solana account:\n\
                addr\n\
                \n\
                statement\n\
                \n\
                Issued At: yesterday";
    match SigninInput::parser(text) {
        Err(WalletError::InvalidTimestampFormat(raw)) => assert_eq!("yesterday", raw),
        other => panic!("expected a timestamp error, got {other:?}"),
    }
}

#[test]
fn parser_reads_each_labelled_line() {
    let text = "example.com wants you to sign in with your Solana account:\n\
                addr\n\
                \n\
                hello\n\
                \n\
                URI: https://example.com\n\
                Version: 1\n\
                Chain ID: solana:testnet\n\
                Nonce: 12345678\n\
                Request ID: r1\n\
                Resources:\n\
                - https://example.com/a";
    let parsed = SigninInput::parser(text).unwrap();
    assert_eq!(Some(&"example.com".to_string()), parsed.domain());
    assert_eq!(Some(&"addr".to_string()), parsed.address());
    assert_eq!(Some(&"hello".to_string()), parsed.statement());
    assert_eq!(Some(&"https://example.com".to_string()), parsed.uri());
    assert_eq!(Some(&"1".to_string()), parsed.version());
    assert_eq!(Some(&Cluster::TestNet), parsed.chain_id());
    assert_eq!(Some(&"12345678".to_string()), parsed.nonce());
    assert_eq!(Some(&"r1".to_string()), parsed.request_id());
    assert_eq!(&["https://example.com/a".to_string()], parsed.resources());
    assert!(parsed.issued_at().is_none());
}

#[test]
fn object_rendering_agrees_with_text() {
    let address = example_address();
    let mut signin_input = SigninInput::new();
    signin_input.set_custom_domain("example.com");
    signin_input.set_address(&address).unwrap();
    signin_input.set_statement("Sign in to Example");
    signin_input.set_chain_id(Cluster::DevNet);
    signin_input.set_issued_at(T0).unwrap();
    signin_input.add_resource("https://example.com/tos");

    let object = signin_input.get_object();
    assert_eq!(
        vec![
            ("domain".to_string(), "example.com".to_string()),
            ("address".to_string(), address.clone()),
            ("statement".to_string(), "Sign in to Example".to_string()),
            ("chainId".to_string(), "solana:devnet".to_string()),
            ("issuedAt".to_string(), "2023-11-14T22:13:20.000Z".to_string()),
        ],
        object.fields
    );
    assert_eq!(vec!["https://example.com/tos".to_string()], object.resources);
}

#[test]
fn iso8601_getters_render_milliseconds() {
    let mut signin_input = SigninInput::new();
    signin_input.set_issued_at(T0).unwrap();
    signin_input.set_expiration_time(T0, T0 + 1500).unwrap();
    signin_input.set_not_before_time(T0, T0 + 500).unwrap();

    assert_eq!(
        Some("2023-11-14T22:13:20.000Z".to_string()),
        signin_input.issued_at_iso8601()
    );
    assert_eq!(
        Some("2023-11-14T22:13:21.500Z".to_string()),
        signin_input.expiration_time_iso8601()
    );
    assert_eq!(
        Some("2023-11-14T22:13:20.500Z".to_string()),
        signin_input.not_before_iso8601()
    );
}

#[test]
fn timestamp_range_upper_bound() {
    let mut signin_input = SigninInput::new();
    signin_input
        .set_expiration_time(T0, wallet_adapter::MAX_TIMESTAMP_MILLIS)
        .unwrap();
    assert_eq!(
        Some("9999-12-31T23:59:59.999Z".to_string()),
        signin_input.expiration_time_iso8601()
    );
}
