use alloy_signer::SignerSync;
use hmac::{KeyInit, Mac};

use polymarket_client_sdk::auth::{ApiCredential, AuthContext, Role, Scope, Signer};
use polymarket_client_sdk::error::Error;
use polymarket_client_sdk::POLYGON;

fn test_signer() -> Signer {
    Signer::from_key_bytes([0x11u8; 32]).expect("a valid secp256k1 key")
}

fn stub_credential() -> ApiCredential {
    ApiCredential::new(
        "k1".to_string(),
        "c2VjcmV0".to_string(),
        "p1".to_string(),
    )
}

/// Fixed signer key, timestamp and nonce give byte-identical challenge
/// headers across repeated derivations.
#[test]
fn l1_derivation_is_deterministic() {
    let signer = test_signer();
    let a = signer.l1_headers(POLYGON, 1_700_000_000, 0).unwrap();
    let b = signer.l1_headers(POLYGON, 1_700_000_000, 0).unwrap();
    assert_eq!(a.signature, b.signature);
    assert_eq!(a.address, b.address);
    assert_eq!(a.timestamp, "1700000000");
    assert_eq!(a.nonce, "0");
    // A different nonce must change the signature.
    let c = signer.l1_headers(POLYGON, 1_700_000_000, 1).unwrap();
    assert_ne!(a.signature, c.signature);
}

/// The library's challenge signature is exactly what the underlying local
/// signer produces for the same digest: nothing is altered in between.
#[test]
fn l1_signature_matches_local_signer() {
    let signer = test_signer();
    let headers = signer.l1_headers(POLYGON, 1_700_000_000, 0).unwrap();

    let digest = polymarket_client_sdk::eip712::compute_auth_challenge_digest(
        &signer.address(),
        POLYGON,
        1_700_000_000,
        0,
    );
    let reference = alloy_signer_local::PrivateKeySigner::from_slice(&[0x11u8; 32]).unwrap();
    assert_eq!(signer.address().0, reference.address().0 .0);
    let sig = reference
        .sign_hash_sync(&alloy_primitives::B256::new(digest))
        .unwrap();
    let mut expected = "0x".to_string();
    for byte in sig.as_bytes() {
        expected.push_str(&format!("{byte:02x}"));
    }
    assert_eq!(headers.signature, expected);
}

/// Two L2 calls at different timestamps never reuse a signature header,
/// even for identical method, path and body.
#[test]
fn l2_headers_are_fresh_per_timestamp() {
    let cred = stub_credential();
    let a = cred.l2_headers("GET", "/orders", "", 1_700_000_005).unwrap();
    let b = cred.l2_headers("GET", "/orders", "", 1_700_000_006).unwrap();
    assert_ne!(a.signature, b.signature);
    assert_eq!(a.timestamp, "1700000005");
    assert_eq!(b.timestamp, "1700000006");
}

/// The end-to-end scenario: stub credentials {k1, c2VjcmV0, p1}, then a
/// `GET /orders` call at 1700000005 MACs exactly the string
/// `1700000005GET/orders` under the decoded secret `secret`.
#[test]
fn l2_signature_is_exact_hmac() {
    let cred = stub_credential();
    let ctx = AuthContext::principal(cred);
    let headers = ctx
        .authenticated_headers(Scope::Either, "GET", "/orders", "", 1_700_000_005)
        .unwrap();

    let mut mac = hmac::Hmac::<sha2::Sha256>::new_from_slice(b"secret").unwrap();
    mac.update(b"1700000005GET/orders");
    let tag = mac.finalize().into_bytes();
    let expected = base64::Engine::encode(&base64::engine::general_purpose::URL_SAFE, tag);

    assert_eq!(headers.signature, expected);
    assert_eq!(headers.key, "k1");
    assert_eq!(headers.passphrase, "p1");
    assert_eq!(headers.timestamp, "1700000005");
}

/// A Builder-only operation under a Principal context fails with a scope
/// error before anything reaches the transport.
#[test]
fn builder_only_operation_rejected_for_principal() {
    let ctx = AuthContext::principal(stub_credential());
    let mut transport_calls = 0;
    let r = ctx.authenticated_headers(Scope::BuilderOnly, "GET", "/builder/trades", "", 1);
    if let Ok(_headers) = &r {
        // Only a successful header computation would ever be sent.
        transport_calls += 1;
    }
    assert!(matches!(
        r,
        Err(Error::Scope { required: Scope::BuilderOnly, active: Role::Principal })
    ));
    assert_eq!(transport_calls, 0);
}

/// Promoting a Principal context once succeeds; promoting the resulting
/// Builder context again fails; Builder-scoped calls use the new
/// credential's headers.
#[test]
fn promotion_is_monotonic() {
    let ctx = AuthContext::principal(stub_credential());
    let builder_cred = ApiCredential::new(
        "bk".to_string(),
        "YnVpbGRlcg==".to_string(),
        "bp".to_string(),
    );
    let promoted = ctx.promote(builder_cred).unwrap();
    assert_eq!(promoted.role, Role::Builder);

    let headers = promoted
        .authenticated_headers(Scope::BuilderOnly, "GET", "/builder/keys", "", 7)
        .unwrap();
    assert_eq!(headers.key, "bk");
    assert_eq!(headers.passphrase, "bp");

    let again = promoted.promote(ApiCredential::new(
        "bk2".to_string(),
        "YQ==".to_string(),
        "bp2".to_string(),
    ));
    assert!(matches!(again, Err(Error::Scope { .. })));
}

/// The principal credential is retained beneath a promotion.
#[test]
fn promotion_retains_principal_credential() {
    let ctx = AuthContext::principal(stub_credential());
    let promoted = ctx
        .promote(ApiCredential::new(
            "bk".to_string(),
            "YnVpbGRlcg==".to_string(),
            "bp".to_string(),
        ))
        .unwrap();
    assert_eq!(promoted.principal, stub_credential());
    assert_eq!(promoted.credential.key, "bk");
}

/// A secret that is not valid base64 is caller misuse, surfaced as a
/// configuration error rather than a panic.
#[test]
fn malformed_secret_is_config_error() {
    let cred = ApiCredential::new("k".to_string(), "!!!".to_string(), "p".to_string());
    let r = cred.l2_headers("GET", "/orders", "", 1);
    assert!(matches!(r, Err(Error::Config { .. })));
}

/// Key bytes that are not a valid secp256k1 scalar are refused.
#[test]
fn invalid_private_key_is_rejected() {
    let r = Signer::from_key_bytes([0u8; 32]);
    assert!(matches!(r, Err(Error::Config { .. })));
}

/// Each error carries a stable class tag.
#[test]
fn error_kinds_are_stable() {
    let scope_err = AuthContext::principal(stub_credential())
        .authenticated_headers(Scope::BuilderOnly, "GET", "/x", "", 1)
        .unwrap_err();
    assert_eq!(scope_err.kind(), "scope");
    let config_err = match Signer::from_key_bytes([0u8; 32]) {
        Err(e) => e,
        Ok(_) => panic!("an all-zero key is not a valid scalar"),
    };
    assert_eq!(config_err.kind(), "config");
}
