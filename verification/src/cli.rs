//! Command-line options and the policy that picks a credential source from
//! them: explicit read-only intent wins over any key material, a private-key
//! file wins over a seed phrase, and a seed phrase demands a derivation index.

use vstd::prelude::*;

use crate::errors::ClientParseError;

verus! {

/// The flat options record: endpoint URL, optional key-file paths, optional
/// derivation index, optional read-only flag. Immutable once parsed and
/// consumed exactly once to build a client.
#[derive(Clone, Debug)]
pub struct Opts {
    /// RPC endpoint URL.
    pub rpc: String,
    /// Path of a file holding a hex-encoded raw private key.
    pub private_key: Option<String>,
    /// Path of a file holding a BIP-39 mnemonic.
    pub seed_phrase: Option<String>,
    /// Derivation index, required together with `seed_phrase`.
    pub seed_phrase_index: Option<u32>,
    /// If true, forces a non-signing client regardless of other flags.
    pub read_only: Option<bool>,
}

/// Which credential source the options name, once the precedence policy has
/// been applied. The paths still have to be read before a credential exists.
#[derive(Clone, Debug)]
pub enum KeySource {
    /// Observation-only: no key material is touched.
    ReadOnly,
    /// A raw private key is to be read from the file at `path`.
    PrivateKeyFile { path: String },
    /// A mnemonic is to be read from the file at `path` and the child key
    /// at `index` derived from it.
    MnemonicFile { path: String, index: u32 },
}

/// True when the operator asked for observation-only mode in so many words.
pub open spec fn wants_read_only(o: Opts) -> bool {
    o.read_only matches Some(true)
}

/// Applies the precedence policy to the options: read-only intent first,
/// then a private-key file, then a seed phrase (which requires an index),
/// and an error when no source at all was named.
pub fn decide_source(o: &Opts) -> (r: Result<KeySource, ClientParseError>)
    ensures
        wants_read_only(*o) ==> (r matches Ok(s) && s is ReadOnly),
        !wants_read_only(*o) ==> (o.private_key matches Some(p) ==> (r matches Ok(
            KeySource::PrivateKeyFile { path },
        ) && path == p)),
        !wants_read_only(*o) && o.private_key is None ==> (o.seed_phrase matches Some(p)
            ==> (o.seed_phrase_index matches Some(i) ==> (r matches Ok(
            KeySource::MnemonicFile { path, index },
        ) && path == p && index == i))),
        !wants_read_only(*o) && o.private_key is None && o.seed_phrase is Some
            && o.seed_phrase_index is None ==> (r matches Err(e) && e is NoOffset),
        !wants_read_only(*o) && o.private_key is None && o.seed_phrase is None ==> (r matches Err(e)
            && e is NotLocalWallet),
{
    if let Some(read_only_mode) = o.read_only {
        if read_only_mode {
            return Ok(KeySource::ReadOnly);
        }
    }
    if let Some(path) = &o.private_key {
        Ok(KeySource::PrivateKeyFile { path: path.clone() })
    } else if let Some(path) = &o.seed_phrase {
        if let Some(index) = o.seed_phrase_index {
            Ok(KeySource::MnemonicFile { path: path.clone(), index })
        } else {
            Err(ClientParseError::NoOffset)
        }
    } else {
        Err(ClientParseError::NotLocalWallet)
    }
}

} // verus!
