//! Trusted boundary to the outside cryptographic crates.
//!
//! Each result that is a pure function of the arguments is given a name by
//! an uninterpreted spec function; the wrappers' contracts speak of those
//! names and nothing more, so every caller's own guarantee is proved from
//! exactly what the outside crates are relied on for.

use vstd::prelude::*;

use alloy_signer::SignerSync;
use hmac::Mac;

verus! {

/// The Keccak-256 digest of a byte sequence.
pub uninterp spec fn keccak256_of(data: Seq<u8>) -> Seq<u8>;

/// Relies on `alloy_primitives::keccak256`: the 32-byte Keccak-256 digest,
/// a function of the input bytes alone.
#[verifier::external_body]
pub(crate) fn keccak256(data: &[u8]) -> (r: [u8; 32])
    ensures
        r@ == keccak256_of(data@),
{
    alloy_primitives::keccak256(data).0
}

/// The HMAC-SHA256 tag over `msg` under `key`.
pub uninterp spec fn hmac_sha256_of(key: Seq<u8>, msg: Seq<u8>) -> Seq<u8>;

/// Relies on `hmac::Hmac<sha2::Sha256>`: the 32-byte HMAC-SHA256 tag, a
/// function of the key and message alone; HMAC accepts keys of any length.
#[verifier::external_body]
pub(crate) fn hmac_sha256(key: &[u8], msg: &[u8]) -> (r: [u8; 32])
    ensures
        r@ == hmac_sha256_of(key@, msg@),
{
    let mut mac = match <hmac::Hmac<sha2::Sha256> as hmac::KeyInit>::new_from_slice(key) {
        Ok(m) => m,
        Err(_) => return [0u8; 32],
    };
    mac.update(msg);
    mac.finalize().into_bytes().into()
}

/// The padded URL-safe base64 rendering of a byte sequence.
pub uninterp spec fn base64url_of(data: Seq<u8>) -> Seq<char>;

/// Relies on base64's `URL_SAFE` engine: padded URL-safe encoding, a
/// function of the input bytes alone.
#[verifier::external_body]
pub(crate) fn base64url_encode(data: &[u8]) -> (r: String)
    ensures
        r@ == base64url_of(data@),
{
    base64::Engine::encode(&base64::engine::general_purpose::URL_SAFE, data)
}

/// What the URL-safe base64 decoder yields for a string: the decoded bytes,
/// or `None` where the string is not valid URL-safe base64.
pub uninterp spec fn base64url_decoded(s: Seq<char>) -> Option<Seq<u8>>;

/// Relies on base64's `URL_SAFE_PAD_INDIFFERENT` engine: whether a string
/// decodes, and to what bytes, depends on its characters alone; padding may
/// be present or absent.
#[verifier::external_body]
pub(crate) fn base64url_decode(s: &str) -> (r: Option<Vec<u8>>)
    ensures
        (r is Some) == (base64url_decoded(s@) is Some),
        r matches Some(v) ==> base64url_decoded(s@) == Some(v@),
{
    base64::Engine::decode(&base64::engine::general_purpose::URL_SAFE_PAD_INDIFFERENT, s).ok()
}

/// What ECDSA signing yields for a private key and a 32-byte digest: the
/// 65-byte `r ‖ s ‖ v` signature, or `None` where the key bytes are not a
/// valid secp256k1 secret scalar.
pub uninterp spec fn ecdsa_sign_of(key: Seq<u8>, digest: Seq<u8>) -> Option<Seq<u8>>;

/// Relies on `alloy_signer_local::PrivateKeySigner`: RFC 6979 deterministic
/// ECDSA over secp256k1, so for a given key and digest the signature — and
/// whether signing succeeds at all — is a function of the two alone.
/// `from_slice` refuses byte strings that are not a valid secret scalar.
#[verifier::external_body]
pub(crate) fn ecdsa_sign(key: &[u8; 32], digest: &[u8; 32]) -> (r: Option<[u8; 65]>)
    ensures
        (r is Some) == (ecdsa_sign_of(key@, digest@) is Some),
        r matches Some(s) ==> ecdsa_sign_of(key@, digest@) == Some(s@),
{
    let signer = match alloy_signer_local::PrivateKeySigner::from_slice(key) {
        Ok(s) => s,
        Err(_) => return None,
    };
    match signer.sign_hash_sync(&alloy_primitives::B256::new(*digest)) {
        Ok(sig) => Some(sig.as_bytes()),
        Err(_) => None,
    }
}

/// The 20-byte address belonging to a secp256k1 private key, or `None`
/// where the key bytes are not a valid secret scalar.
pub uninterp spec fn ecdsa_address_of(key: Seq<u8>) -> Option<Seq<u8>>;

/// Relies on `alloy_signer_local::PrivateKeySigner`: the signer's address
/// is derived from the public key of the given scalar, a function of the
/// key alone; `from_slice` refuses invalid scalars.
#[verifier::external_body]
pub(crate) fn ecdsa_address(key: &[u8; 32]) -> (r: Option<[u8; 20]>)
    ensures
        (r is Some) == (ecdsa_address_of(key@) is Some),
        r matches Some(a) ==> ecdsa_address_of(key@) == Some(a@),
{
    match alloy_signer_local::PrivateKeySigner::from_slice(key) {
        Ok(s) => Some(s.address().0.0),
        Err(_) => None,
    }
}

/// Relies on `getrandom::fill`: fills the buffer from the operating
/// system's cryptographically secure random source. Nothing is assumed of
/// the value, so no caller can prove anything about which salt it gets.
#[verifier::external_body]
pub(crate) fn random_bytes32() -> (r: Option<[u8; 32]>) {
    let mut buf = [0u8; 32];
    match getrandom::fill(&mut buf) {
        Ok(()) => Some(buf),
        Err(_) => None,
    }
}

} // verus!
