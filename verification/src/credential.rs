//! Turning a chosen key source and the text read from it into a signing
//! credential: trim the text, hex-decode a raw key or validate a mnemonic,
//! and keep the plain key material for the lifetime of the process.

use vstd::prelude::*;
use vstd::string::StringExecFns;

use crate::cli::{decide_source, wants_read_only, KeySource, Opts};
use crate::errors::ClientParseError;

verus! {

/// The characters `str::trim` removes: Unicode's white-space set.
pub open spec fn is_space_char(c: char) -> bool {
    let n = c as u32;
    (9 <= n && n <= 13) || n == 32 || n == 0x85 || n == 0xa0 || n == 0x1680 || (0x2000 <= n && n
        <= 0x200a) || n == 0x2028 || n == 0x2029 || n == 0x202f || n == 0x205f || n == 0x3000
}

/// `s` with its leading white space removed.
pub open spec fn trim_front(s: Seq<char>) -> Seq<char>
    decreases s.len(),
{
    if s.len() > 0 && is_space_char(s.first()) {
        trim_front(s.drop_first())
    } else {
        s
    }
}

/// `s` with its trailing white space removed.
pub open spec fn trim_back(s: Seq<char>) -> Seq<char>
    decreases s.len(),
{
    if s.len() > 0 && is_space_char(s.last()) {
        trim_back(s.drop_last())
    } else {
        s
    }
}

/// `s` with both leading and trailing white space removed.
pub open spec fn trim_spec(s: Seq<char>) -> Seq<char> {
    trim_back(trim_front(s))
}

/// Whether `c` is an ASCII hex digit, in either case.
pub open spec fn hex_digit_ok(c: char) -> bool {
    let n = c as u32;
    (48 <= n && n <= 57) || (97 <= n && n <= 102) || (65 <= n && n <= 70)
}

/// The value of the hex digit `c`.
pub open spec fn hex_digit_val(c: char) -> u8 {
    let n = c as u32;
    if 48 <= n && n <= 57 {
        (n - 48) as u8
    } else if 97 <= n && n <= 102 {
        (n - 87) as u8
    } else {
        (n - 55) as u8
    }
}

/// Whether `s` is a well-formed hex string: an even number of hex digits.
pub open spec fn hex_str_ok(s: Seq<char>) -> bool {
    s.len() % 2 == 0 && (forall|i: int| 0 <= i < s.len() ==> hex_digit_ok(s[i]))
}

/// The bytes a well-formed hex string encodes, one byte per digit pair.
pub open spec fn hex_bytes(s: Seq<char>) -> Seq<u8>
    decreases s.len(),
{
    if s.len() < 2 {
        Seq::empty()
    } else {
        seq![(hex_digit_val(s[0]) * 16 + hex_digit_val(s[1])) as u8] + hex_bytes(s.skip(2))
    }
}

/// Whether k256 accepts these big-endian bytes as a non-zero secret scalar.
pub uninterp spec fn key_ok(b: Seq<u8>) -> bool;

/// Whether ethers derives a wallet from this phrase at child index `index`.
pub uninterp spec fn mnemonic_key_ok(phrase: Seq<char>, index: u32) -> bool;

/// Relies on str::trim: it removes leading and trailing Unicode white space
/// and leaves the enclosed characters unchanged.
#[verifier::external_body]
fn trim_text<'a>(s: &'a str) -> (r: &'a str)
    ensures
        r@ == trim_spec(s@),
{
    s.trim()
}

/// Relies on hex::decode: it succeeds exactly on an even number of ASCII hex
/// digits and returns one byte for each pair of digits.
#[verifier::external_body]
fn decode_hex(s: &str) -> (r: Result<Vec<u8>, hex::FromHexError>)
    ensures
        r is Ok <==> hex_str_ok(s@),
        r matches Ok(v) ==> v@ == hex_bytes(s@),
{
    hex::decode(s)
}

/// A wallet derived from local key material. ethers' `Wallet<SigningKey>`
/// cannot be named in a Verus signature (its generic bound names a private
/// type of ethers-signers), so it is held behind this opaque struct.
#[verifier::external_body]
pub struct SigningWallet {
    pub(crate) inner: ethers::signers::LocalWallet,
}

/// Relies on k256's SigningKey::from_bytes (reached through ethers): whether
/// big-endian bytes form a valid non-zero secret scalar depends on the bytes
/// alone.
#[verifier::external_body]
pub(crate) fn wallet_from_raw_key(b: &[u8]) -> (r: Result<
    SigningWallet,
    ethers::core::k256::ecdsa::Error,
>)
    ensures
        r is Ok <==> key_ok(b@),
{
    let key = ethers::core::k256::ecdsa::SigningKey::from_bytes(b)?;
    Ok(SigningWallet { inner: key.into() })
}

/// Relies on ethers' MnemonicBuilder: deriving the child key at the standard
/// coin path m/44'/60'/0'/0/{index} from a phrase handed over as a string is
/// a function of the phrase and the index alone.
#[verifier::external_body]
pub(crate) fn wallet_from_mnemonic(phrase: &str, index: u32) -> (r: Result<
    SigningWallet,
    ethers::signers::WalletError,
>)
    ensures
        r is Ok <==> mnemonic_key_ok(phrase@, index),
{
    let text = ethers::core::types::PathOrString::String(phrase.to_string());
    let builder = ethers::signers::MnemonicBuilder::<
        ethers::signers::coins_bip39::English,
    >::default().phrase(text).index(index)?;
    Ok(SigningWallet { inner: builder.build()? })
}

/// A signing identity, held only in memory: either a validated raw key or a
/// mnemonic with its derivation index. A read-only client holds none at all.
#[derive(Clone, Debug)]
pub enum Credential {
    /// A raw 256-bit signing key, already hex-decoded and validated.
    LocalKey { key: Vec<u8> },
    /// A BIP-39 phrase and the index of the child key to derive from it.
    DerivedKey { phrase: String, index: u32 },
}

impl Credential {
    /// A well-formed credential holds key material that the signing library
    /// accepts, so a wallet can be derived from it at any later time.
    pub open spec fn wf(&self) -> bool {
        match self {
            Credential::LocalKey { key } => key_ok(key@),
            Credential::DerivedKey { phrase, index } => mnemonic_key_ok(phrase@, *index),
        }
    }
}

/// Turns a chosen source and the text read from its file into a credential:
/// nothing for read-only mode; trim, hex-decode and validate for a raw key
/// file; validate the derivation for a mnemonic file.
pub fn resolve_credential(source: &KeySource, key_text: &str) -> (r: Result<
    Option<Credential>,
    ClientParseError,
>)
    ensures
        source is ReadOnly ==> (r matches Ok(c) && c is None),
        source is PrivateKeyFile ==> (({
            let t = trim_spec(key_text@);
            &&& (r is Ok <==> hex_str_ok(t) && key_ok(hex_bytes(t)))
            &&& (r matches Ok(c) ==> c matches Some(Credential::LocalKey { key }) && key@
                == hex_bytes(t))
            &&& (!hex_str_ok(t) ==> (r matches Err(e) && e is HexError))
            &&& (hex_str_ok(t) && !key_ok(hex_bytes(t)) ==> (r matches Err(e) && e is KeyError))
        })),
        source matches KeySource::MnemonicFile { path, index } ==> (({
            &&& (r is Ok <==> mnemonic_key_ok(key_text@, *index))
            &&& (r matches Ok(c) ==> c matches Some(Credential::DerivedKey { phrase, index: i })
                && phrase@ == key_text@ && i == index)
            &&& (!mnemonic_key_ok(key_text@, *index) ==> (r matches Err(e) && e is InvalidWallet))
        })),
        r matches Ok(c) ==> (c matches Some(cr) ==> cr.wf()),
{
    match source {
        KeySource::ReadOnly => Ok(None),
        KeySource::PrivateKeyFile { .. } => {
            let trimmed = trim_text(key_text);
            match decode_hex(trimmed) {
                Err(e) => Err(ClientParseError::HexError(e)),
                Ok(key) => match wallet_from_raw_key(key.as_slice()) {
                    Err(e) => Err(ClientParseError::KeyError(e)),
                    Ok(_) => Ok(Some(Credential::LocalKey { key })),
                },
            }
        },
        KeySource::MnemonicFile { index, .. } => {
            match wallet_from_mnemonic(key_text, *index) {
                Err(e) => Err(ClientParseError::InvalidWallet(e)),
                Ok(_) => Ok(
                    Some(Credential::DerivedKey { phrase: String::from_str(key_text), index: *index }),
                ),
            }
        },
    }
}

/// The complete case analysis of the credential policy: what resolving the
/// options `o` against the key-file text `text` must yield.
pub open spec fn resolution_spec(
    o: Opts,
    text: Seq<char>,
    r: Result<Option<Credential>, ClientParseError>,
) -> bool {
    &&& (wants_read_only(o) ==> (r matches Ok(c) && c is None))
    &&& (!wants_read_only(o) && o.private_key is None && o.seed_phrase is None ==> (r matches Err(
        e,
    ) && e is NotLocalWallet))
    &&& (!wants_read_only(o) && o.private_key is None && o.seed_phrase is Some
        && o.seed_phrase_index is None ==> (r matches Err(e) && e is NoOffset))
    &&& (!wants_read_only(o) && o.private_key is Some ==> (({
        let t = trim_spec(text);
        &&& (r is Ok <==> hex_str_ok(t) && key_ok(hex_bytes(t)))
        &&& (r matches Ok(c) ==> c matches Some(Credential::LocalKey { key }) && key@
            == hex_bytes(t))
        &&& (!hex_str_ok(t) ==> (r matches Err(e) && e is HexError))
        &&& (hex_str_ok(t) && !key_ok(hex_bytes(t)) ==> (r matches Err(e) && e is KeyError))
    })))
    &&& (!wants_read_only(o) && o.private_key is None && o.seed_phrase is Some ==> ((
    o.seed_phrase_index matches Some(i) ==> ({
        &&& (r is Ok <==> mnemonic_key_ok(text, i))
        &&& (r matches Ok(c) ==> c matches Some(Credential::DerivedKey { phrase, index })
            && phrase@ == text && index == i)
        &&& (!mnemonic_key_ok(text, i) ==> (r matches Err(e) && e is InvalidWallet))
    }))))
    &&& (r matches Ok(c) ==> (c matches Some(cr) ==> cr.wf()))
}

/// Resolves a credential straight from the options: applies the precedence
/// policy, then interprets `key_text`, the contents of whichever key file
/// the policy named (ignored when none is needed).
pub fn resolve_options(o: &Opts, key_text: &str) -> (r: Result<Option<Credential>, ClientParseError>)
    ensures
        resolution_spec(*o, key_text@, r),
{
    match decide_source(o) {
        Err(e) => Err(e),
        Ok(source) => resolve_credential(&source, key_text),
    }
}

/// Law: explicit read-only intent always yields an empty credential,
/// regardless of any key material also present in the options.
pub proof fn lemma_read_only_overrides(
    o: Opts,
    text: Seq<char>,
    r: Result<Option<Credential>, ClientParseError>,
)
    requires
        resolution_spec(o, text, r),
        o.read_only matches Some(true),
    ensures
        r matches Ok(c) && c is None,
{
}

/// Law: with no key path at all and read-only mode not chosen, resolution
/// fails for want of a wallet source.
pub proof fn lemma_no_source_fails(
    o: Opts,
    text: Seq<char>,
    r: Result<Option<Credential>, ClientParseError>,
)
    requires
        resolution_spec(o, text, r),
        !(o.read_only matches Some(true)),
        o.private_key is None,
        o.seed_phrase is None,
    ensures
        r matches Err(e) && e is NotLocalWallet,
{
}

/// Law: a seed phrase without a derivation index fails for want of the
/// offset, whatever the phrase file holds.
pub proof fn lemma_missing_offset_fails(
    o: Opts,
    text: Seq<char>,
    r: Result<Option<Credential>, ClientParseError>,
)
    requires
        resolution_spec(o, text, r),
        !(o.read_only matches Some(true)),
        o.private_key is None,
        o.seed_phrase is Some,
        o.seed_phrase_index is None,
    ensures
        r matches Err(e) && e is NoOffset,
{
}

} // verus!

