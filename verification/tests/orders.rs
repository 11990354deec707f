use std::collections::HashSet;

use alloy_signer::SignerSync;
use polymarket_client_sdk::error::Error;

use polymarket_client_sdk::auth::Signer;
use polymarket_client_sdk::order_builder::{sign_order, sign_order_for_chain, Order, OrderArgs};
use polymarket_client_sdk::types::{Address, Side, SignatureType, U256};
use polymarket_client_sdk::{contract_config, POLYGON};

fn test_signer() -> Signer {
    Signer::from_key_bytes([0x11u8; 32]).expect("a valid secp256k1 key")
}

fn test_args() -> OrderArgs {
    OrderArgs::new(
        Side::Sell,
        U256::from_u64(42),
        U256::from_u64(1000),
        U256::from_u64(500),
    )
}

fn test_order(salt: U256, args: &OrderArgs) -> Order {
    let signer = test_signer();
    let maker = signer.address();
    Order::build(args, maker, maker, Address::zero(), SignatureType::Eoa, salt)
}

/// Building an order twice with the same injected salt hashes identically;
/// changing a single field changes the hash.
#[test]
fn order_hash_round_trip() {
    let exchange = contract_config(POLYGON, false).unwrap().exchange;
    let args = test_args();
    let salt = U256::from_u64(7);
    let a = test_order(salt, &args);
    let b = test_order(salt, &args);
    assert_eq!(a.digest(POLYGON, &exchange), b.digest(POLYGON, &exchange));

    let mut changed = args;
    changed.taker_amount = U256::from_u64(501);
    let c = test_order(salt, &changed);
    assert_ne!(a.digest(POLYGON, &exchange), c.digest(POLYGON, &exchange));
}

/// Signing the same order under the primary and the negative-risk domain
/// yields two different, non-interchangeable signatures.
#[test]
fn domain_separation_changes_signature() {
    let signer = test_signer();
    let order = test_order(U256::from_u64(7), &test_args());
    let primary = sign_order_for_chain(&signer, &order, POLYGON, false).unwrap();
    let neg_risk = sign_order_for_chain(&signer, &order, POLYGON, true).unwrap();
    assert_ne!(primary.signature.to_vec(), neg_risk.signature.to_vec());
    assert_ne!(primary.exchange, neg_risk.exchange);

    let ex_primary = contract_config(POLYGON, false).unwrap().exchange;
    let ex_neg = contract_config(POLYGON, true).unwrap().exchange;
    assert_ne!(
        order.digest(POLYGON, &ex_primary),
        order.digest(POLYGON, &ex_neg)
    );
}

/// Ten thousand freshly built orders over identical fields draw ten
/// thousand distinct salts, and hash to ten thousand distinct digests.
#[test]
fn fresh_salts_are_unique() {
    let args = test_args();
    let signer = test_signer();
    let maker = signer.address();
    let exchange = contract_config(POLYGON, false).unwrap().exchange;
    let mut salts: HashSet<[u8; 32]> = HashSet::new();
    let mut digests: HashSet<[u8; 32]> = HashSet::new();
    for _ in 0..10_000 {
        let order = Order::build_with_fresh_salt(
            &args,
            maker,
            maker,
            Address::zero(),
            SignatureType::Eoa,
        )
        .unwrap();
        assert!(salts.insert(order.salt.0), "salt repeated");
        assert!(digests.insert(order.digest(POLYGON, &exchange)), "digest repeated");
    }
    assert_eq!(salts.len(), 10_000);
    assert_eq!(digests.len(), 10_000);
}

/// The signed order carries the order, domain and a 65-byte signature that
/// is exactly what the underlying local signer produces for the digest.
#[test]
fn order_signature_matches_local_signer() {
    let signer = test_signer();
    let order = test_order(U256::from_u64(9), &test_args());
    let exchange = contract_config(POLYGON, false).unwrap().exchange;
    let signed = sign_order(&signer, &order, POLYGON, &exchange).unwrap();
    assert_eq!(signed.order, order);
    assert_eq!(signed.chain_id, POLYGON);
    assert_eq!(signed.exchange, exchange);

    let digest = order.digest(POLYGON, &exchange);
    let reference = alloy_signer_local::PrivateKeySigner::from_slice(&[0x11u8; 32]).unwrap();
    let expected = reference
        .sign_hash_sync(&alloy_primitives::B256::new(digest))
        .unwrap();
    assert_eq!(signed.signature.to_vec(), expected.as_bytes().to_vec());
}

/// An unconfigured chain cannot select a signing domain.
#[test]
fn signing_on_unknown_chain_is_config_error() {
    let signer = test_signer();
    let order = test_order(U256::from_u64(7), &test_args());
    let r = sign_order_for_chain(&signer, &order, 1, false);
    assert!(matches!(r, Err(Error::Config { .. })));
}
