//! Error taxonomy of the shell: configuration, credential, provider and I/O
//! failures, each surfaced once and never retried.

use vstd::prelude::*;

verus! {

/// Declares url's `ParseError` so it can stand in error payloads.
#[verifier::external_type_specification]
#[verifier::external_body]
pub struct ExUrlParseError(url::ParseError);

/// Declares ethers' `WalletError` so it can stand in error payloads.
#[verifier::external_type_specification]
#[verifier::external_body]
pub struct ExWalletError(ethers::signers::WalletError);

/// Declares std's `io::Error` so it can stand in error payloads.
#[verifier::external_type_specification]
#[verifier::external_body]
pub struct ExIoError(std::io::Error);

/// Declares k256's ECDSA `Error` so it can stand in error payloads.
#[verifier::external_type_specification]
#[verifier::external_body]
pub struct ExEcdsaError(ethers::core::k256::ecdsa::Error);

/// Declares hex's `FromHexError` so it can stand in error payloads.
#[verifier::external_type_specification]
#[verifier::external_body]
pub struct ExFromHexError(hex::FromHexError);

/// Everything that can go wrong while turning options into a client:
/// a missing credential source, a missing derivation index, a malformed
/// endpoint URL, or invalid key material.
#[derive(Debug)]
pub enum ClientParseError {
    /// A seed phrase was supplied without a derivation index.
    NoOffset,
    /// No credential source was supplied and read-only mode was not chosen.
    NotLocalWallet,
    /// The endpoint was not a well-formed HTTP URL.
    NotHttp(url::ParseError),
    /// The endpoint was not a well-formed WebSocket URL.
    NotWs(url::ParseError),
    /// The mnemonic phrase or its derivation was rejected.
    InvalidWallet(ethers::signers::WalletError),
    /// A credential file could not be read.
    IoError(std::io::Error),
    /// The decoded key bytes do not form a valid signing key.
    KeyError(ethers::core::k256::ecdsa::Error),
    /// The key file did not hold a well-formed hex string.
    HexError(hex::FromHexError),
}

impl From<ethers::signers::WalletError> for ClientParseError {
    fn from(value: ethers::signers::WalletError) -> (r: Self) {
        ClientParseError::InvalidWallet(value)
    }
}

impl vstd::std_specs::convert::FromSpecImpl<ethers::signers::WalletError> for ClientParseError {
    open spec fn obeys_from_spec() -> bool {
        true
    }

    open spec fn from_spec(value: ethers::signers::WalletError) -> Self {
        ClientParseError::InvalidWallet(value)
    }
}

impl From<std::io::Error> for ClientParseError {
    fn from(value: std::io::Error) -> (r: Self) {
        ClientParseError::IoError(value)
    }
}

impl vstd::std_specs::convert::FromSpecImpl<std::io::Error> for ClientParseError {
    open spec fn obeys_from_spec() -> bool {
        true
    }

    open spec fn from_spec(value: std::io::Error) -> Self {
        ClientParseError::IoError(value)
    }
}

impl From<ethers::core::k256::ecdsa::Error> for ClientParseError {
    fn from(value: ethers::core::k256::ecdsa::Error) -> (r: Self) {
        ClientParseError::KeyError(value)
    }
}

impl vstd::std_specs::convert::FromSpecImpl<ethers::core::k256::ecdsa::Error> for ClientParseError {
    open spec fn obeys_from_spec() -> bool {
        true
    }

    open spec fn from_spec(value: ethers::core::k256::ecdsa::Error) -> Self {
        ClientParseError::KeyError(value)
    }
}

impl From<hex::FromHexError> for ClientParseError {
    fn from(value: hex::FromHexError) -> (r: Self) {
        ClientParseError::HexError(value)
    }
}

impl vstd::std_specs::convert::FromSpecImpl<hex::FromHexError> for ClientParseError {
    open spec fn obeys_from_spec() -> bool {
        true
    }

    open spec fn from_spec(value: hex::FromHexError) -> Self {
        ClientParseError::HexError(value)
    }
}

/// Declares ethers' `ProviderError` so it can stand in error payloads.
#[verifier::external_type_specification]
#[verifier::external_body]
pub struct ExProviderError(ethers::providers::ProviderError);

/// Represents global errors emitted from the bot process itself.
#[derive(Debug)]
pub enum BotError {
    /// Error parsing the client from the provided arguments.
    ClientOptsError(ClientParseError),
    /// Error in blockchain interaction.
    ProviderError(ethers::providers::ProviderError),
    /// Error in I/O.
    IOError(std::io::Error),
}

impl From<ClientParseError> for BotError {
    fn from(value: ClientParseError) -> (r: Self) {
        BotError::ClientOptsError(value)
    }
}

impl vstd::std_specs::convert::FromSpecImpl<ClientParseError> for BotError {
    open spec fn obeys_from_spec() -> bool {
        true
    }

    open spec fn from_spec(value: ClientParseError) -> Self {
        BotError::ClientOptsError(value)
    }
}

impl From<ethers::providers::ProviderError> for BotError {
    fn from(value: ethers::providers::ProviderError) -> (r: Self) {
        BotError::ProviderError(value)
    }
}

impl vstd::std_specs::convert::FromSpecImpl<ethers::providers::ProviderError> for BotError {
    open spec fn obeys_from_spec() -> bool {
        true
    }

    open spec fn from_spec(value: ethers::providers::ProviderError) -> Self {
        BotError::ProviderError(value)
    }
}

impl From<std::io::Error> for BotError {
    fn from(value: std::io::Error) -> (r: Self) {
        BotError::IOError(value)
    }
}

impl vstd::std_specs::convert::FromSpecImpl<std::io::Error> for BotError {
    open spec fn obeys_from_spec() -> bool {
        true
    }

    open spec fn from_spec(value: std::io::Error) -> Self {
        BotError::IOError(value)
    }
}

} // verus!
