//! The typed-data hasher: deterministic 32-byte digests over a domain
//! separator and a schema-tagged field set, following the standard
//! `0x19 0x01 ‖ hash(domain) ‖ hash(struct)` structured-signing convention.
//!
//! Two schemas are produced here and by the order builder: the
//! authentication challenge for L1 credential derivation, and the order
//! record. Field order is fixed by the schema strings below; reordering
//! them would change every digest.

use vstd::prelude::*;
use vstd::string::StringSliceAdditionalSpecFns;

use crate::crypto::{keccak256, keccak256_of};
use crate::encode::{be_u64_32, be_u64_32_bytes, dec_digits, extend_bytes, u64_dec_bytes, zeros};
use crate::types::Address;

verus! {

/// The domain schema used for order signing, which names a verifying
/// contract.
pub open spec fn domain_type_bytes() -> Seq<u8> {
    "EIP712Domain(string name,string version,uint256 chainId,address verifyingContract)".spec_bytes()
}

/// The domain schema used for the authentication challenge, which names no
/// contract.
pub open spec fn auth_domain_type_bytes() -> Seq<u8> {
    "EIP712Domain(string name,string version,uint256 chainId)".spec_bytes()
}

/// The exchange's signing-domain name.
pub open spec fn exchange_domain_name_bytes() -> Seq<u8> {
    "Polymarket CTF Exchange".spec_bytes()
}

/// The authentication signing-domain name.
pub open spec fn auth_domain_name_bytes() -> Seq<u8> {
    "ClobAuthDomain".spec_bytes()
}

/// Both domains carry version `1`.
pub open spec fn domain_version_bytes() -> Seq<u8> {
    "1".spec_bytes()
}

/// The authentication challenge schema.
pub open spec fn auth_type_bytes() -> Seq<u8> {
    "ClobAuth(address address,string timestamp,uint256 nonce,string message)".spec_bytes()
}

/// The constant attestation message of the authentication challenge.
pub open spec fn auth_message_bytes() -> Seq<u8> {
    "This message attests that I control the given wallet".spec_bytes()
}

/// An address as a 32-byte word: twelve zero bytes, then the address.
pub open spec fn addr_word(a: Seq<u8>) -> Seq<u8> {
    zeros(12) + a
}

/// A single byte as a 32-byte word: thirty-one zero bytes, then the byte.
pub open spec fn u8_word(x: u8) -> Seq<u8> {
    zeros(31) + seq![x]
}

/// The final signing pre-image: `0x19 0x01`, the domain separator, the
/// struct hash.
pub open spec fn digest_preimage(dom_sep: Seq<u8>, struct_hash: Seq<u8>) -> Seq<u8> {
    seq![0x19u8, 0x01u8] + dom_sep + struct_hash
}

/// The typed-data digest for a domain separator and a struct hash.
pub open spec fn typed_digest(dom_sep: Seq<u8>, struct_hash: Seq<u8>) -> Seq<u8> {
    keccak256_of(digest_preimage(dom_sep, struct_hash))
}

/// The encoded exchange domain: type hash, name hash, version hash, chain
/// id, verifying contract.
pub open spec fn exchange_domain_preimage(chain_id: u64, exchange: Seq<u8>) -> Seq<u8> {
    keccak256_of(domain_type_bytes()) + keccak256_of(exchange_domain_name_bytes()) + keccak256_of(
        domain_version_bytes(),
    ) + be_u64_32(chain_id) + addr_word(exchange)
}

/// The exchange domain separator under which orders are hashed.
pub open spec fn exchange_domain_separator(chain_id: u64, exchange: Seq<u8>) -> Seq<u8> {
    keccak256_of(exchange_domain_preimage(chain_id, exchange))
}

/// The encoded authentication domain: type hash, name hash, version hash,
/// chain id.
pub open spec fn auth_domain_preimage(chain_id: u64) -> Seq<u8> {
    keccak256_of(auth_domain_type_bytes()) + keccak256_of(auth_domain_name_bytes())
        + keccak256_of(domain_version_bytes()) + be_u64_32(chain_id)
}

/// The authentication domain separator.
pub open spec fn auth_domain_separator(chain_id: u64) -> Seq<u8> {
    keccak256_of(auth_domain_preimage(chain_id))
}

/// The encoded authentication challenge: type hash, then the four fields
/// {address, timestamp as decimal string, nonce, constant message}, each as
/// a 32-byte word (dynamic fields by their hash).
pub open spec fn auth_struct_preimage(address: Seq<u8>, timestamp: u64, nonce: u64) -> Seq<u8> {
    keccak256_of(auth_type_bytes()) + addr_word(address) + keccak256_of(
        dec_digits(timestamp as nat),
    ) + be_u64_32(nonce) + keccak256_of(auth_message_bytes())
}

/// The authentication challenge digest that the L1 flow signs: a pure
/// function of signer address, chain id, timestamp and nonce.
pub open spec fn auth_challenge_digest(
    address: Seq<u8>,
    chain_id: u64,
    timestamp: u64,
    nonce: u64,
) -> Seq<u8> {
    typed_digest(
        auth_domain_separator(chain_id),
        keccak256_of(auth_struct_preimage(address, timestamp, nonce)),
    )
}

/// The Keccak-256 digest of a string's bytes.
pub(crate) fn hash_str(s: &str) -> (r: [u8; 32])
    ensures
        r@ == keccak256_of(s.spec_bytes()),
{
    keccak256(s.as_bytes())
}

/// Append an address as a 32-byte word.
pub(crate) fn push_addr_word(out: &mut Vec<u8>, a: &Address)
    ensures
        final(out)@ == old(out)@ + addr_word(a@),
{
    let ghost pre = out@;
    let mut i: usize = 0;
    while i < 12
        invariant
            i <= 12,
            out@ == pre + zeros(i as nat),
        decreases 12 - i,
    {
        out.push(0);
        proof {
            assert(pre + zeros(i as nat) + seq![0u8] =~= pre + zeros((i + 1) as nat));
        }
        i += 1;
    }
    extend_bytes(out, &a.0);
    proof {
        assert(pre + zeros(12) + a@ =~= pre + addr_word(a@));
    }
}

/// Append the final `0x19 0x01 ‖ domain ‖ struct hash` pre-image and hash
/// it.
pub(crate) fn hash_final(dom_sep: &[u8; 32], struct_hash: &[u8; 32]) -> (r: [u8; 32])
    ensures
        r@ == typed_digest(dom_sep@, struct_hash@),
{
    let mut out: Vec<u8> = Vec::new();
    out.push(0x19);
    out.push(0x01);
    extend_bytes(&mut out, dom_sep);
    extend_bytes(&mut out, struct_hash);
    proof {
        assert(out@ =~= digest_preimage(dom_sep@, struct_hash@));
    }
    keccak256(out.as_slice())
}

/// The exchange domain separator for a chain and verifying contract.
pub fn compute_exchange_domain_separator(chain_id: u64, exchange: &Address) -> (r: [u8; 32])
    ensures
        r@ == exchange_domain_separator(chain_id, exchange@),
{
    let th = hash_str("EIP712Domain(string name,string version,uint256 chainId,address verifyingContract)");
    let nh = hash_str("Polymarket CTF Exchange");
    let vh = hash_str("1");
    let mut out: Vec<u8> = Vec::new();
    extend_bytes(&mut out, &th);
    extend_bytes(&mut out, &nh);
    extend_bytes(&mut out, &vh);
    let mut cid = be_u64_32_bytes(chain_id);
    out.append(&mut cid);
    push_addr_word(&mut out, exchange);
    proof {
        assert(out@ =~= exchange_domain_preimage(chain_id, exchange@));
    }
    keccak256(out.as_slice())
}

/// The authentication challenge digest for the L1 credential flow.
pub fn compute_auth_challenge_digest(
    address: &Address,
    chain_id: u64,
    timestamp: u64,
    nonce: u64,
) -> (r: [u8; 32])
    ensures
        r@ == auth_challenge_digest(address@, chain_id, timestamp, nonce),
{
    // domain separator
    let th = hash_str("EIP712Domain(string name,string version,uint256 chainId)");
    let nh = hash_str("ClobAuthDomain");
    let vh = hash_str("1");
    let mut dom: Vec<u8> = Vec::new();
    extend_bytes(&mut dom, &th);
    extend_bytes(&mut dom, &nh);
    extend_bytes(&mut dom, &vh);
    let mut cid = be_u64_32_bytes(chain_id);
    dom.append(&mut cid);
    proof {
        assert(dom@ =~= auth_domain_preimage(chain_id));
    }
    let dom_sep = keccak256(dom.as_slice());

    // struct hash
    let ath = hash_str("ClobAuth(address address,string timestamp,uint256 nonce,string message)");
    let ts_bytes = u64_dec_bytes(timestamp);
    let ts_hash = keccak256(ts_bytes.as_slice());
    let mh = hash_str("This message attests that I control the given wallet");
    let mut st: Vec<u8> = Vec::new();
    extend_bytes(&mut st, &ath);
    push_addr_word(&mut st, address);
    extend_bytes(&mut st, &ts_hash);
    let mut nb = be_u64_32_bytes(nonce);
    st.append(&mut nb);
    extend_bytes(&mut st, &mh);
    proof {
        assert(st@ =~= auth_struct_preimage(address@, timestamp, nonce));
    }
    let struct_hash = keccak256(st.as_slice());

    hash_final(&dom_sep, &struct_hash)
}

/// Equal domain pre-images force equal verifying contracts: hashing under
/// the primary and the negative-risk exchange domain can never collide at
/// the pre-image level.
pub proof fn lemma_domain_preimage_separates(chain_id: u64, ex1: Seq<u8>, ex2: Seq<u8>)
    requires
        ex1.len() == ex2.len(),
        ex1 != ex2,
    ensures
        exchange_domain_preimage(chain_id, ex1) != exchange_domain_preimage(chain_id, ex2),
{
    if exchange_domain_preimage(chain_id, ex1) == exchange_domain_preimage(chain_id, ex2) {
        let head = keccak256_of(domain_type_bytes()) + keccak256_of(exchange_domain_name_bytes())
            + keccak256_of(domain_version_bytes()) + be_u64_32(chain_id);
        assert(exchange_domain_preimage(chain_id, ex1) =~= head + addr_word(ex1));
        assert(exchange_domain_preimage(chain_id, ex2) =~= head + addr_word(ex2));
        crate::encode::lemma_concat_cancel(head, addr_word(ex1), head, addr_word(ex2));
        crate::encode::lemma_concat_cancel(zeros(12), ex1, zeros(12), ex2);
    }
}

/// Distinct domain separators give distinct signing pre-images for any one
/// struct hash, and a distinct struct hash gives distinct pre-images under
/// any one domain.
pub proof fn lemma_digest_preimage_separates(
    d1: Seq<u8>,
    d2: Seq<u8>,
    s1: Seq<u8>,
    s2: Seq<u8>,
)
    requires
        d1.len() == d2.len(),
        (d1, s1) != (d2, s2),
    ensures
        digest_preimage(d1, s1) != digest_preimage(d2, s2),
{
    if digest_preimage(d1, s1) == digest_preimage(d2, s2) {
        assert(digest_preimage(d1, s1) =~= (seq![0x19u8, 0x01u8] + d1) + s1);
        assert(digest_preimage(d2, s2) =~= (seq![0x19u8, 0x01u8] + d2) + s2);
        crate::encode::lemma_concat_cancel(
            seq![0x19u8, 0x01u8] + d1,
            s1,
            seq![0x19u8, 0x01u8] + d2,
            s2,
        );
        crate::encode::lemma_concat_cancel(seq![0x19u8, 0x01u8], d1, seq![0x19u8, 0x01u8], d2);
    }
}

} // verus!
