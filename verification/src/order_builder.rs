//! The order builder and signer: assembles the canonical order record
//! from trade parameters, hashes it under the domain selected by the
//! negative-risk flag, and signs it, yielding an exchange-verifiable
//! signed order ready for submission.

use vstd::prelude::*;
use vstd::string::{StringExecFns, StringSliceAdditionalSpecFns};

use crate::auth::Signer;
use crate::crypto::{ecdsa_sign_of, keccak256, keccak256_of, random_bytes32};
use crate::eip712::{
    addr_word, compute_exchange_domain_separator, exchange_domain_separator, hash_final, hash_str,
    push_addr_word, typed_digest, u8_word,
};
use crate::encode::{
    be_u64_32, be_u64_32_bytes, extend_bytes, lemma_be_u64_32_injective, lemma_concat_cancel,
    zeros,
};
use crate::error::Error;
use crate::types::{side_code, sig_type_code, Address, Side, SignatureType, U256};

verus! {

/// The canonical order record. Immutable once hashed: any field change
/// invalidates a prior signature and requires re-signing.
#[derive(Debug, Clone, Copy, PartialEq, Eq)]
pub struct Order {
    /// Fresh random value defeating hash collisions between otherwise
    /// identical orders.
    pub salt: U256,
    /// The account whose funds the order commits.
    pub maker: Address,
    /// The account that signs; differs from `maker` only for delegated
    /// signing setups.
    pub signer: Address,
    /// The counterparty; the zero address marks an open order.
    pub taker: Address,
    /// The market or outcome being traded.
    pub token_id: U256,
    pub maker_amount: U256,
    pub taker_amount: U256,
    /// Unix expiration timestamp; zero means no expiry.
    pub expiration: u64,
    pub nonce: u64,
    pub fee_rate_bps: u64,
    pub side: Side,
    pub signature_type: SignatureType,
}

/// Trade parameters handed to the builder; addresses and salt are supplied
/// separately.
#[derive(Debug, Clone, Copy, PartialEq, Eq)]
pub struct OrderArgs {
    pub side: Side,
    pub token_id: U256,
    pub maker_amount: U256,
    pub taker_amount: U256,
    /// Unix expiration timestamp; zero means no expiry.
    pub expiration: u64,
    /// Defaults to zero; supply a fresh one to avoid replaying a prior
    /// cancelled order over the same fields.
    pub nonce: u64,
    pub fee_rate_bps: u64,
}

impl OrderArgs {
    /// Parameters for a plain order of `side` in market `token_id`: no
    /// expiry, zero nonce, zero fee.
    pub fn new(side: Side, token_id: U256, maker_amount: U256, taker_amount: U256) -> (r:
        OrderArgs)
        ensures
            r == (OrderArgs {
                side,
                token_id,
                maker_amount,
                taker_amount,
                expiration: 0u64,
                nonce: 0u64,
                fee_rate_bps: 0u64,
            }),
    {
        OrderArgs {
            side,
            token_id,
            maker_amount,
            taker_amount,
            expiration: 0,
            nonce: 0,
            fee_rate_bps: 0,
        }
    }
}

/// The order schema. The field order is fixed; reordering it would change
/// every order hash.
pub open spec fn order_type_bytes() -> Seq<u8> {
    "Order(uint256 salt,address maker,address signer,address taker,uint256 tokenId,uint256 makerAmount,uint256 takerAmount,uint256 expiration,uint256 nonce,uint256 feeRateBps,uint8 side,uint8 signatureType)".spec_bytes()
}

/// The encoded order record: the schema hash, then the twelve fields in
/// declared order, each as a 32-byte word.
pub open spec fn order_preimage(o: Order) -> Seq<u8> {
    keccak256_of(order_type_bytes()) + o.salt@ + addr_word(o.maker@) + addr_word(o.signer@)
        + addr_word(o.taker@) + o.token_id@ + o.maker_amount@ + o.taker_amount@ + be_u64_32(
        o.expiration,
    ) + be_u64_32(o.nonce) + be_u64_32(o.fee_rate_bps) + u8_word(side_code(o.side)) + u8_word(
        sig_type_code(o.signature_type),
    )
}

/// The order's struct hash.
pub open spec fn order_struct_hash(o: Order) -> Seq<u8> {
    keccak256_of(order_preimage(o))
}

/// The order digest signed and verified on-chain, under the domain of
/// `chain_id` and the verifying `exchange` contract.
pub open spec fn order_digest(o: Order, chain_id: u64, exchange: Seq<u8>) -> Seq<u8> {
    typed_digest(exchange_domain_separator(chain_id, exchange), order_struct_hash(o))
}

impl Order {
    /// Assemble the canonical order record from trade parameters and an
    /// injected salt. Deterministic: equal arguments give the identical
    /// record, hence the identical hash.
    pub fn build(
        args: &OrderArgs,
        maker: Address,
        signer: Address,
        taker: Address,
        signature_type: SignatureType,
        salt: U256,
    ) -> (r: Order)
        ensures
            r == (Order {
                salt,
                maker,
                signer,
                taker,
                token_id: args.token_id,
                maker_amount: args.maker_amount,
                taker_amount: args.taker_amount,
                expiration: args.expiration,
                nonce: args.nonce,
                fee_rate_bps: args.fee_rate_bps,
                side: args.side,
                signature_type,
            }),
    {
        Order {
            salt,
            maker,
            signer,
            taker,
            token_id: args.token_id,
            maker_amount: args.maker_amount,
            taker_amount: args.taker_amount,
            expiration: args.expiration,
            nonce: args.nonce,
            fee_rate_bps: args.fee_rate_bps,
            side: args.side,
            signature_type,
        }
    }

    /// Assemble an order with a salt drawn fresh from the operating
    /// system's cryptographically secure source. Every field but the salt
    /// is pinned; nothing can be assumed of the salt value itself.
    pub fn build_with_fresh_salt(
        args: &OrderArgs,
        maker: Address,
        signer: Address,
        taker: Address,
        signature_type: SignatureType,
    ) -> (r: Result<Order, Error>)
        ensures
            r matches Ok(o) ==> o.maker == maker
                && o.signer == signer && o.taker == taker && o.token_id == args.token_id
                && o.maker_amount == args.maker_amount && o.taker_amount == args.taker_amount
                && o.expiration == args.expiration && o.nonce == args.nonce && o.fee_rate_bps
                == args.fee_rate_bps && o.side == args.side && o.signature_type == signature_type,
            r matches Err(e) ==> e is Config,
    {
        match random_bytes32() {
            Some(bytes) => Ok(
                Order::build(args, maker, signer, taker, signature_type, U256::from_bytes(bytes)),
            ),
            None => Err(
                Error::Config { message: String::from_str("no secure randomness available") },
            ),
        }
    }

    /// The order's typed-data digest under the domain of the chain and
    /// verifying exchange contract. The caller must pick the contract
    /// matching the market's domain: the wrong one yields a well-formed
    /// but exchange-rejected signature that nothing here can detect.
    pub fn digest(&self, chain_id: u64, exchange: &Address) -> (r: [u8; 32])
        ensures
            r@ == order_digest(*self, chain_id, exchange@),
    {
        let dom_sep = compute_exchange_domain_separator(chain_id, exchange);
        let th = hash_str(
            "Order(uint256 salt,address maker,address signer,address taker,uint256 tokenId,uint256 makerAmount,uint256 takerAmount,uint256 expiration,uint256 nonce,uint256 feeRateBps,uint8 side,uint8 signatureType)",
        );
        let mut enc: Vec<u8> = Vec::new();
        extend_bytes(&mut enc, &th);
        extend_bytes(&mut enc, &self.salt.0);
        push_addr_word(&mut enc, &self.maker);
        push_addr_word(&mut enc, &self.signer);
        push_addr_word(&mut enc, &self.taker);
        extend_bytes(&mut enc, &self.token_id.0);
        extend_bytes(&mut enc, &self.maker_amount.0);
        extend_bytes(&mut enc, &self.taker_amount.0);
        let mut exp = be_u64_32_bytes(self.expiration);
        enc.append(&mut exp);
        let mut non = be_u64_32_bytes(self.nonce);
        enc.append(&mut non);
        let mut fee = be_u64_32_bytes(self.fee_rate_bps);
        enc.append(&mut fee);
        push_u8_word(&mut enc, side_byte(self.side));
        push_u8_word(&mut enc, sig_type_byte(self.signature_type));
        proof {
            assert(enc@ =~= order_preimage(*self));
        }
        let struct_hash = keccak256(enc.as_slice());
        hash_final(&dom_sep, &struct_hash)
    }
}

/// The wire code of an order side.
pub fn side_byte(s: Side) -> (r: u8)
    ensures
        r == side_code(s),
{
    match s {
        Side::Buy => 0,
        Side::Sell => 1,
    }
}

/// The wire code of a signature scheme.
pub fn sig_type_byte(t: SignatureType) -> (r: u8)
    ensures
        r == sig_type_code(t),
{
    match t {
        SignatureType::Eoa => 0,
        SignatureType::PolyProxy => 1,
        SignatureType::PolyGnosisSafe => 2,
    }
}

/// Append a single byte as a 32-byte word.
fn push_u8_word(out: &mut Vec<u8>, x: u8)
    ensures
        final(out)@ == old(out)@ + u8_word(x),
{
    let ghost pre = out@;
    let mut i: usize = 0;
    while i < 31
        invariant
            i <= 31,
            out@ == pre + zeros(i as nat),
        decreases 31 - i,
    {
        out.push(0);
        proof {
            assert(pre + zeros(i as nat) + seq![0u8] =~= pre + zeros((i + 1) as nat));
        }
        i += 1;
    }
    out.push(x);
    proof {
        assert(pre + zeros(31) + seq![x] =~= pre + u8_word(x));
    }
}

/// An order, the 65-byte signature over its digest, and the domain it was
/// signed under. Never mutated after creation; this is the unit handed to
/// transport.
#[derive(Debug, Clone, Copy, PartialEq, Eq)]
pub struct SignedOrder {
    pub order: Order,
    pub signature: [u8; 65],
    pub chain_id: u64,
    pub exchange: Address,
}

/// Hash the order under the domain of `chain_id` and `exchange` and sign
/// it with the signer's key. The signer should be the order's declared
/// `signer` address: a signature from another key is well-formed but the
/// exchange rejects it at submission, and this layer does not verify its
/// own output.
pub fn sign_order(signer: &Signer, order: &Order, chain_id: u64, exchange: &Address) -> (r: Result<
    SignedOrder,
    Error,
>)
    ensures
        (r is Ok) <==> (ecdsa_sign_of(
            signer.key_seq(),
            order_digest(*order, chain_id, exchange@),
        ) is Some),
        r matches Ok(so) ==> {
            &&& so.order == *order
            &&& so.chain_id == chain_id
            &&& so.exchange == *exchange
            &&& ecdsa_sign_of(signer.key_seq(), order_digest(*order, chain_id, exchange@)) == Some(
                so.signature@,
            )
        },
        r matches Err(e) ==> e is Signing,
{
    let digest = order.digest(chain_id, exchange);
    match signer.sign_digest(&digest) {
        Ok(signature) => Ok(
            SignedOrder { order: *order, signature, chain_id, exchange: *exchange },
        ),
        Err(e) => Err(e),
    }
}

/// Hash and sign under the domain the negative-risk flag selects for the
/// chain; fails with a configuration error on a chain this library is not
/// configured for.
pub fn sign_order_for_chain(signer: &Signer, order: &Order, chain_id: u64, neg_risk: bool) -> (r:
    Result<SignedOrder, Error>)
    ensures
        (crate::spec_contract_config(chain_id, neg_risk) is None) ==> (r matches Err(e)
            && e is Config),
        crate::spec_contract_config(chain_id, neg_risk) matches Some(cfg) ==> {
            &&& (r is Ok) <==> (ecdsa_sign_of(
                signer.key_seq(),
                order_digest(*order, chain_id, cfg.0),
            ) is Some)
            &&& r matches Ok(so) ==> {
                &&& so.order == *order
                &&& so.chain_id == chain_id
                &&& so.exchange@ == cfg.0
                &&& ecdsa_sign_of(signer.key_seq(), order_digest(*order, chain_id, cfg.0)) == Some(
                    so.signature@,
                )
            }
            &&& r matches Err(e) ==> e is Signing
        },
{
    match crate::contract_config(chain_id, neg_risk) {
        Some(cfg) => sign_order(signer, order, chain_id, &cfg.exchange),
        None => Err(
            Error::Config { message: String::from_str("no contract configuration for this chain") },
        ),
    }
}

/// Law: the encoded order pins every field — two orders with equal
/// pre-images are equal, so changing any single field (or the salt alone)
/// changes the pre-image that is hashed and signed.
pub proof fn lemma_order_preimage_injective(o1: Order, o2: Order)
    requires
        order_preimage(o1) == order_preimage(o2),
    ensures
        o1 == o2,
{
    let th = keccak256_of(order_type_bytes());
    let p1_2 = th + o1.salt@;
    let p1_3 = p1_2 + addr_word(o1.maker@);
    let p1_4 = p1_3 + addr_word(o1.signer@);
    let p1_5 = p1_4 + addr_word(o1.taker@);
    let p1_6 = p1_5 + o1.token_id@;
    let p1_7 = p1_6 + o1.maker_amount@;
    let p1_8 = p1_7 + o1.taker_amount@;
    let p1_9 = p1_8 + be_u64_32(o1.expiration);
    let p1_10 = p1_9 + be_u64_32(o1.nonce);
    let p1_11 = p1_10 + be_u64_32(o1.fee_rate_bps);
    let p1_12 = p1_11 + u8_word(side_code(o1.side));
    let p2_2 = th + o2.salt@;
    let p2_3 = p2_2 + addr_word(o2.maker@);
    let p2_4 = p2_3 + addr_word(o2.signer@);
    let p2_5 = p2_4 + addr_word(o2.taker@);
    let p2_6 = p2_5 + o2.token_id@;
    let p2_7 = p2_6 + o2.maker_amount@;
    let p2_8 = p2_7 + o2.taker_amount@;
    let p2_9 = p2_8 + be_u64_32(o2.expiration);
    let p2_10 = p2_9 + be_u64_32(o2.nonce);
    let p2_11 = p2_10 + be_u64_32(o2.fee_rate_bps);
    let p2_12 = p2_11 + u8_word(side_code(o2.side));
    assert(order_preimage(o1) == p1_12 + u8_word(sig_type_code(o1.signature_type)));
    assert(order_preimage(o2) == p2_12 + u8_word(sig_type_code(o2.signature_type)));
    // Peel the thirteen segments from the right, one at a time; every
    // segment after the shared schema hash is exactly 32 bytes.
    lemma_concat_cancel(
        p1_12,
        u8_word(sig_type_code(o1.signature_type)),
        p2_12,
        u8_word(sig_type_code(o2.signature_type)),
    );
    lemma_concat_cancel(p1_11, u8_word(side_code(o1.side)), p2_11, u8_word(side_code(o2.side)));
    lemma_concat_cancel(
        p1_10,
        be_u64_32(o1.fee_rate_bps),
        p2_10,
        be_u64_32(o2.fee_rate_bps),
    );
    lemma_concat_cancel(p1_9, be_u64_32(o1.nonce), p2_9, be_u64_32(o2.nonce));
    lemma_concat_cancel(p1_8, be_u64_32(o1.expiration), p2_8, be_u64_32(o2.expiration));
    lemma_concat_cancel(p1_7, o1.taker_amount@, p2_7, o2.taker_amount@);
    lemma_concat_cancel(p1_6, o1.maker_amount@, p2_6, o2.maker_amount@);
    lemma_concat_cancel(p1_5, o1.token_id@, p2_5, o2.token_id@);
    lemma_concat_cancel(p1_4, addr_word(o1.taker@), p2_4, addr_word(o2.taker@));
    lemma_concat_cancel(p1_3, addr_word(o1.signer@), p2_3, addr_word(o2.signer@));
    lemma_concat_cancel(p1_2, addr_word(o1.maker@), p2_2, addr_word(o2.maker@));
    lemma_concat_cancel(th, o1.salt@, th, o2.salt@);
    // Words back to fields.
    lemma_concat_cancel(zeros(12), o1.maker@, zeros(12), o2.maker@);
    lemma_concat_cancel(zeros(12), o1.signer@, zeros(12), o2.signer@);
    lemma_concat_cancel(zeros(12), o1.taker@, zeros(12), o2.taker@);
    lemma_be_u64_32_injective(o1.expiration, o2.expiration);
    lemma_be_u64_32_injective(o1.nonce, o2.nonce);
    lemma_be_u64_32_injective(o1.fee_rate_bps, o2.fee_rate_bps);
    lemma_concat_cancel(
        zeros(31),
        seq![side_code(o1.side)],
        zeros(31),
        seq![side_code(o2.side)],
    );
    assert(seq![side_code(o1.side)][0] == seq![side_code(o2.side)][0]);
    crate::types::lemma_side_code_injective(o1.side, o2.side);
    lemma_concat_cancel(
        zeros(31),
        seq![sig_type_code(o1.signature_type)],
        zeros(31),
        seq![sig_type_code(o2.signature_type)],
    );
    assert(seq![sig_type_code(o1.signature_type)][0] == seq![sig_type_code(o2.signature_type)][0]);
    crate::types::lemma_sig_type_code_injective(o1.signature_type, o2.signature_type);
    assert(o1.salt.0 =~= o2.salt.0);
    assert(o1.maker.0 =~= o2.maker.0);
    assert(o1.signer.0 =~= o2.signer.0);
    assert(o1.taker.0 =~= o2.taker.0);
    assert(o1.token_id.0 =~= o2.token_id.0);
    assert(o1.maker_amount.0 =~= o2.maker_amount.0);
    assert(o1.taker_amount.0 =~= o2.taker_amount.0);
    assert(o1 == o2);
}

/// Law: orders that differ in any field — in particular in the salt alone,
/// as freshly built orders do — encode to different hash pre-images.
pub proof fn lemma_distinct_orders_distinct_preimages(o1: Order, o2: Order)
    requires
        o1 != o2,
    ensures
        order_preimage(o1) != order_preimage(o2),
{
    if order_preimage(o1) == order_preimage(o2) {
        lemma_order_preimage_injective(o1, o2);
    }
}

} // verus!
