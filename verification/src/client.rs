//! Blockchain interaction API: a single, coherent handle that pairs an
//! optional signing credential with a shared provider, and constructs a
//! fresh signing middleware on demand instead of caching one.

use vstd::prelude::*;

use crate::cli::Opts;
use crate::credential::{
    resolve_options, resolution_spec, wallet_from_mnemonic, wallet_from_raw_key, Credential,
    SigningWallet,
};
use crate::errors::ClientParseError;

verus! {

/// Declares ethers' `Provider` so the handle can stand in fields.
#[verifier::external_type_specification]
#[verifier::external_body]
#[verifier::reject_recursive_types(P)]
pub struct ExProvider<P>(ethers::providers::Provider<P>);

/// Declares ethers' `Http` transport so `Provider<Http>` can be named.
#[verifier::external_type_specification]
#[verifier::external_body]
pub struct ExHttp(ethers::providers::Http);

/// Whether ethers accepts this endpoint string as an HTTP provider URL.
pub uninterp spec fn rpc_url_ok(s: Seq<char>) -> bool;

/// Relies on ethers' `TryFrom<&str>` for `Provider<Http>`, which parses the
/// endpoint with url's `Url::parse`: success depends on the string alone.
#[verifier::external_body]
fn connect_http(rpc: &str) -> (r: Result<
    ethers::providers::Provider<ethers::providers::Http>,
    url::ParseError,
>)
    ensures
        r is Ok <==> rpc_url_ok(rpc@),
{
    ethers::providers::Provider::<ethers::providers::Http>::try_from(rpc)
}

/// Relies on `Provider`'s derived `Clone`: the handle is shareable and
/// cloning it is how one hands out another reference to the same endpoint.
/// Nothing is claimed of the copy, which Verus treats as opaque.
pub assume_specification<P: core::clone::Clone>[
    <ethers::providers::Provider<P> as core::clone::Clone>::clone
](p: &ethers::providers::Provider<P>) -> ethers::providers::Provider<P>;

/// ethers' `SignerMiddleware` pairing the provider with a derived wallet,
/// capable of both reading and submitting signed transactions. Held opaque
/// for the same reason as `SigningWallet`.
#[verifier::external_body]
pub struct SigningMiddleware {
    pub(crate) inner: ethers::middleware::SignerMiddleware<
        ethers::providers::Provider<ethers::providers::Http>,
        ethers::signers::LocalWallet,
    >,
}

/// Relies on `SignerMiddleware::new`: it pairs the provider with the wallet.
#[verifier::external_body]
fn new_signer_middleware(
    p: ethers::providers::Provider<ethers::providers::Http>,
    w: SigningWallet,
) -> (r: SigningMiddleware) {
    SigningMiddleware { inner: ethers::middleware::SignerMiddleware::new(p, w.inner) }
}

/// Represents a single, coherent API for blockchain interaction by wrapping
/// both signers (optionally) and providers.
#[derive(Clone, Debug)]
pub struct Client {
    /// Optional signing credential (read-only clients hold none).
    pub signer: Option<Credential>,
    /// Provider handle over the HTTP transport.
    pub provider: ethers::providers::Provider<ethers::providers::Http>,
}

impl Client {
    /// Constructs a new instance from an optional credential and a provider.
    pub fn new(
        signer: Option<Credential>,
        provider: ethers::providers::Provider<ethers::providers::Http>,
    ) -> (r: Self)
        ensures
            r.signer == signer,
            r.provider == provider,
    {
        Client { signer, provider }
    }

    /// Hands out an immutable reference to the underlying credential if it
    /// exists.
    pub fn signer(&self) -> (r: Option<&Credential>)
        ensures
            r is Some <==> self.signer is Some,
            r matches Some(c) ==> (self.signer matches Some(s) && *c == s),
    {
        self.signer.as_ref()
    }

    /// Hands out an immutable reference to the underlying provider.
    pub fn provider(&self) -> (r: &ethers::providers::Provider<ethers::providers::Http>)
        ensures
            *r == self.provider,
    {
        &self.provider
    }

    /// Constructs a fresh middleware from the underlying credential and
    /// provider on every call, trading a small allocation for the absence of
    /// a stale-middleware bug class. A client without a credential — and one
    /// whose credential the signing library rejects — gets nothing.
    pub fn middleware(&self) -> (r: Option<SigningMiddleware>)
        ensures
            r is Some <==> (self.signer matches Some(c) && c.wf()),
    {
        match &self.signer {
            None => None,
            Some(Credential::LocalKey { key }) => match wallet_from_raw_key(key.as_slice()) {
                Ok(w) => Some(new_signer_middleware(self.provider.clone(), w)),
                Err(_) => None,
            },
            Some(Credential::DerivedKey { phrase, index }) => match wallet_from_mnemonic(
                phrase.as_str(),
                *index,
            ) {
                Ok(w) => Some(new_signer_middleware(self.provider.clone(), w)),
                Err(_) => None,
            },
        }
    }
}

/// Builds the whole client from the options: the endpoint URL is parsed
/// first, so a malformed URL wins over any credential error; then the
/// credential is resolved from `key_text`, the contents of whichever key
/// file the precedence policy named (ignored when none is needed).
pub fn client_from_options(o: &Opts, key_text: &str) -> (r: Result<Client, ClientParseError>)
    ensures
        !rpc_url_ok(o.rpc@) ==> (r matches Err(e) && e is NotHttp),
        rpc_url_ok(o.rpc@) ==> resolution_spec(
            *o,
            key_text@,
            match r {
                Ok(c) => Ok(c.signer),
                Err(e) => Err(e),
            },
        ),
{
    let provider = match connect_http(o.rpc.as_str()) {
        Ok(p) => p,
        Err(e) => {
            return Err(ClientParseError::NotHttp(e));
        },
    };
    match resolve_options(o, key_text) {
        Err(e) => Err(e),
        Ok(signer) => Ok(Client::new(signer, provider)),
    }
}

} // verus!
