//! Credential-resolution behaviour: the precedence policy, the error
//! taxonomy, and the round trip from a hex key file to a signing identity.

use ethers::signers::Signer;

use poolwatch::cli::{decide_source, KeySource, Opts};
use poolwatch::credential::{resolve_credential, resolve_options, Credential};
use poolwatch::errors::ClientParseError;

fn base_opts() -> Opts {
    Opts {
        rpc: String::from("http://localhost:8545"),
        private_key: None,
        seed_phrase: None,
        seed_phrase_index: None,
        read_only: None,
    }
}

const TEST_KEY_HEX: &str = "ac0974bec39a17e36ba4a6b4d238ff944bacb478cbed5efcae784d7bf4f2ff80";
const TEST_KEY_ADDRESS: &str = "0xf39Fd6e51aad88F6F4ce6aB8827279cffFb92266";
const TEST_MNEMONIC: &str =
    "abandon abandon abandon abandon abandon abandon abandon abandon abandon abandon abandon about";

#[test]
fn read_only_overrides_all_key_material() {
    let opts = Opts {
        private_key: Some(String::from("key.txt")),
        seed_phrase: Some(String::from("phrase.txt")),
        seed_phrase_index: Some(7),
        read_only: Some(true),
        ..base_opts()
    };
    assert!(matches!(decide_source(&opts), Ok(KeySource::ReadOnly)));
    let resolved = resolve_options(&opts, "ignored").unwrap();
    assert!(resolved.is_none());
}

#[test]
fn no_source_is_not_local_wallet() {
    let opts = base_opts();
    assert!(matches!(
        resolve_options(&opts, ""),
        Err(ClientParseError::NotLocalWallet)
    ));
    let opts_false = Opts { read_only: Some(false), ..base_opts() };
    assert!(matches!(
        resolve_options(&opts_false, ""),
        Err(ClientParseError::NotLocalWallet)
    ));
}

#[test]
fn seed_phrase_without_index_is_no_offset() {
    let opts = Opts { seed_phrase: Some(String::from("phrase.txt")), ..base_opts() };
    assert!(matches!(
        resolve_options(&opts, TEST_MNEMONIC),
        Err(ClientParseError::NoOffset)
    ));
}

#[test]
fn private_key_wins_over_seed_phrase() {
    let opts = Opts {
        private_key: Some(String::from("key.txt")),
        seed_phrase: Some(String::from("phrase.txt")),
        seed_phrase_index: Some(0),
        ..base_opts()
    };
    match decide_source(&opts) {
        Ok(KeySource::PrivateKeyFile { path }) => assert_eq!(path, "key.txt"),
        other => panic!("expected the private-key file to win, got {:?}", other),
    }
}

#[test]
fn hex_key_with_whitespace_round_trips_to_known_address() {
    let text = format!("  {}\n", TEST_KEY_HEX);
    let source = KeySource::PrivateKeyFile { path: String::from("key.txt") };
    let resolved = resolve_credential(&source, &text).unwrap().unwrap();
    let key = match resolved {
        Credential::LocalKey { key } => key,
        other => panic!("expected a local key, got {:?}", other),
    };
    assert_eq!(key.len(), 32);
    assert_eq!(key[0], 0xac);
    assert_eq!(key[1], 0x09);
    assert_eq!(key[31], 0x80);
    assert_eq!(key, hex::decode(TEST_KEY_HEX).unwrap());

    let wallet: ethers::signers::LocalWallet =
        ethers::core::k256::ecdsa::SigningKey::from_bytes(&key).unwrap().into();
    let expected: ethers::types::Address = TEST_KEY_ADDRESS.parse().unwrap();
    assert_eq!(wallet.address(), expected);
}

#[test]
fn odd_length_hex_is_a_hex_error() {
    let source = KeySource::PrivateKeyFile { path: String::from("key.txt") };
    assert!(matches!(
        resolve_credential(&source, "abc"),
        Err(ClientParseError::HexError(_))
    ));
}

#[test]
fn non_hex_text_is_a_hex_error() {
    let source = KeySource::PrivateKeyFile { path: String::from("key.txt") };
    assert!(matches!(
        resolve_credential(&source, "zz"),
        Err(ClientParseError::HexError(_))
    ));
}

#[test]
fn zero_key_bytes_are_a_key_error() {
    let source = KeySource::PrivateKeyFile { path: String::from("key.txt") };
    let zeros = "00".repeat(32);
    assert!(matches!(
        resolve_credential(&source, &zeros),
        Err(ClientParseError::KeyError(_))
    ));
}

#[test]
fn wrong_length_key_bytes_are_a_key_error() {
    let source = KeySource::PrivateKeyFile { path: String::from("key.txt") };
    assert!(matches!(
        resolve_credential(&source, "abcd"),
        Err(ClientParseError::KeyError(_))
    ));
}

#[test]
fn valid_mnemonic_resolves_to_derived_key() {
    let source = KeySource::MnemonicFile { path: String::from("phrase.txt"), index: 0 };
    let resolved = resolve_credential(&source, TEST_MNEMONIC).unwrap().unwrap();
    match resolved {
        Credential::DerivedKey { phrase, index } => {
            assert_eq!(phrase, TEST_MNEMONIC);
            assert_eq!(index, 0);
        },
        other => panic!("expected a derived key, got {:?}", other),
    }
}

#[test]
fn invalid_mnemonic_is_an_invalid_wallet_error() {
    let source = KeySource::MnemonicFile { path: String::from("phrase.txt"), index: 0 };
    assert!(matches!(
        resolve_credential(&source, "definitely not a bip39 phrase"),
        Err(ClientParseError::InvalidWallet(_))
    ));
}
