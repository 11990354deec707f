//! Client-side core for a decentralized exchange's order book API:
//! typed-data hashing, L1 credential derivation, per-request L2
//! authentication, role management, and order building and signing.

pub mod auth;
pub mod crypto;
pub mod eip712;
pub mod encode;
pub mod error;
pub mod gamma;
pub mod order_builder;
pub mod types;

use vstd::prelude::*;

use crate::types::Address;

verus! {

/// Chain id for Polygon mainnet.
pub const POLYGON: u64 = 137;

/// Chain id for the Amoy Polygon testnet.
pub const AMOY: u64 = 80002;

/// Environment variable conventionally naming the signer's private key;
/// reading it is the caller's responsibility, not this library's.
pub const PRIVATE_KEY_VAR: &'static str = "POLYMARKET_PRIVATE_KEY";

/// The deployed contract addresses relevant to one chain and domain.
#[non_exhaustive]
#[derive(Debug, Clone, Copy, PartialEq, Eq)]
pub struct ContractConfig {
    pub exchange: Address,
    pub collateral: Address,
    pub conditional_tokens: Address,
}

/// The primary exchange contract on Polygon mainnet.
pub open spec fn polygon_exchange() -> Seq<u8> {
    seq![0x4bu8, 0xfbu8, 0x41u8, 0xd5u8, 0xb3u8, 0x57u8, 0x0du8, 0xefu8, 0xd0u8, 0x3cu8, 0x39u8,
        0xa9u8, 0xa4u8, 0xd8u8, 0xdeu8, 0x6bu8, 0xd8u8, 0xb8u8, 0x98u8, 0x2eu8]
}

/// The negative-risk exchange contract on Polygon mainnet.
pub open spec fn polygon_neg_risk_exchange() -> Seq<u8> {
    seq![0xc5u8, 0xd5u8, 0x63u8, 0xa3u8, 0x6au8, 0xe7u8, 0x81u8, 0x45u8, 0xc4u8, 0x5au8, 0x50u8,
        0x13u8, 0x4du8, 0x48u8, 0xa1u8, 0x21u8, 0x52u8, 0x20u8, 0xf8u8, 0x0au8]
}

/// The collateral token on Polygon mainnet.
pub open spec fn polygon_collateral() -> Seq<u8> {
    seq![0x27u8, 0x91u8, 0xbcu8, 0xa1u8, 0xf2u8, 0xdeu8, 0x46u8, 0x61u8, 0xedu8, 0x88u8, 0xa3u8,
        0x0cu8, 0x99u8, 0xa7u8, 0xa9u8, 0x44u8, 0x9au8, 0xa8u8, 0x41u8, 0x74u8]
}

/// The conditional-tokens contract on Polygon mainnet.
pub open spec fn polygon_conditional_tokens() -> Seq<u8> {
    seq![0x4du8, 0x97u8, 0xdcu8, 0xd9u8, 0x7eu8, 0xc9u8, 0x45u8, 0xf4u8, 0x0cu8, 0xf6u8, 0x5fu8,
        0x87u8, 0x09u8, 0x7au8, 0xceu8, 0x5eu8, 0xa0u8, 0x47u8, 0x60u8, 0x45u8]
}

/// The primary exchange contract on the Amoy testnet.
pub open spec fn amoy_exchange() -> Seq<u8> {
    seq![0xdfu8, 0xe0u8, 0x2eu8, 0xb6u8, 0x73u8, 0x35u8, 0x38u8, 0xf8u8, 0xeau8, 0x35u8, 0xd5u8,
        0x85u8, 0xafu8, 0x8du8, 0xe5u8, 0x95u8, 0x8au8, 0xd9u8, 0x9eu8, 0x40u8]
}

/// The negative-risk exchange contract on the Amoy testnet.
pub open spec fn amoy_neg_risk_exchange() -> Seq<u8> {
    seq![0xd9u8, 0x1eu8, 0x80u8, 0xcfu8, 0x2eu8, 0x7bu8, 0xe2u8, 0xe1u8, 0x62u8, 0xc6u8, 0x51u8,
        0x3cu8, 0xedu8, 0x06u8, 0xf1u8, 0xddu8, 0x0du8, 0xa3u8, 0x52u8, 0x96u8]
}

/// The collateral token on the Amoy testnet.
pub open spec fn amoy_collateral() -> Seq<u8> {
    seq![0x9cu8, 0x4eu8, 0x17u8, 0x03u8, 0x47u8, 0x6eu8, 0x87u8, 0x50u8, 0x70u8, 0xeeu8, 0x25u8,
        0xb5u8, 0x6au8, 0x58u8, 0xb0u8, 0x08u8, 0xcfu8, 0xb8u8, 0xfau8, 0x78u8]
}

/// The conditional-tokens contract on the Amoy testnet.
pub open spec fn amoy_conditional_tokens() -> Seq<u8> {
    seq![0x69u8, 0x30u8, 0x8fu8, 0xb5u8, 0x12u8, 0x51u8, 0x8eu8, 0x39u8, 0xf9u8, 0xb1u8, 0x61u8,
        0x12u8, 0xfau8, 0x8du8, 0x99u8, 0x4fu8, 0x4eu8, 0x2bu8, 0xf8u8, 0xbbu8]
}

/// The contract addresses configured for a chain and domain, as byte
/// sequences: exchange, collateral, conditional tokens.
pub open spec fn spec_contract_config(chain_id: u64, is_neg_risk: bool) -> Option<
    (Seq<u8>, Seq<u8>, Seq<u8>),
> {
    if chain_id == 137 {
        if is_neg_risk {
            Some((polygon_neg_risk_exchange(), polygon_collateral(), polygon_conditional_tokens()))
        } else {
            Some((polygon_exchange(), polygon_collateral(), polygon_conditional_tokens()))
        }
    } else if chain_id == 80002 {
        if is_neg_risk {
            Some((amoy_neg_risk_exchange(), amoy_collateral(), amoy_conditional_tokens()))
        } else {
            Some((amoy_exchange(), amoy_collateral(), amoy_conditional_tokens()))
        }
    } else {
        None
    }
}

/// Given a chain id and the negative-risk flag, the relevant contract
/// configuration; `None` on a chain this library is not configured for.
pub fn contract_config(chain_id: u64, is_neg_risk: bool) -> (r: Option<ContractConfig>)
    ensures
        (r is Some) <==> (spec_contract_config(chain_id, is_neg_risk) is Some),
        r matches Some(c) ==> spec_contract_config(chain_id, is_neg_risk) == Some(
            (c.exchange@, c.collateral@, c.conditional_tokens@),
        ),
{
    if chain_id == 137 {
        let exchange = if is_neg_risk {
            Address(
                [0xc5, 0xd5, 0x63, 0xa3, 0x6a, 0xe7, 0x81, 0x45, 0xc4, 0x5a, 0x50, 0x13, 0x4d,
                    0x48, 0xa1, 0x21, 0x52, 0x20, 0xf8, 0x0a],
            )
        } else {
            Address(
                [0x4b, 0xfb, 0x41, 0xd5, 0xb3, 0x57, 0x0d, 0xef, 0xd0, 0x3c, 0x39, 0xa9, 0xa4,
                    0xd8, 0xde, 0x6b, 0xd8, 0xb8, 0x98, 0x2e],
            )
        };
        let collateral = Address(
            [0x27, 0x91, 0xbc, 0xa1, 0xf2, 0xde, 0x46, 0x61, 0xed, 0x88, 0xa3, 0x0c, 0x99, 0xa7,
                0xa9, 0x44, 0x9a, 0xa8, 0x41, 0x74],
        );
        let conditional_tokens = Address(
            [0x4d, 0x97, 0xdc, 0xd9, 0x7e, 0xc9, 0x45, 0xf4, 0x0c, 0xf6, 0x5f, 0x87, 0x09, 0x7a,
                0xce, 0x5e, 0xa0, 0x47, 0x60, 0x45],
        );
        let c = ContractConfig { exchange, collateral, conditional_tokens };
        proof {
            if is_neg_risk {
                assert(c.exchange@ =~= polygon_neg_risk_exchange());
            } else {
                assert(c.exchange@ =~= polygon_exchange());
            }
            assert(c.collateral@ =~= polygon_collateral());
            assert(c.conditional_tokens@ =~= polygon_conditional_tokens());
        }
        Some(c)
    } else if chain_id == 80002 {
        let exchange = if is_neg_risk {
            Address(
                [0xd9, 0x1e, 0x80, 0xcf, 0x2e, 0x7b, 0xe2, 0xe1, 0x62, 0xc6, 0x51, 0x3c, 0xed,
                    0x06, 0xf1, 0xdd, 0x0d, 0xa3, 0x52, 0x96],
            )
        } else {
            Address(
                [0xdf, 0xe0, 0x2e, 0xb6, 0x73, 0x35, 0x38, 0xf8, 0xea, 0x35, 0xd5, 0x85, 0xaf,
                    0x8d, 0xe5, 0x95, 0x8a, 0xd9, 0x9e, 0x40],
            )
        };
        let collateral = Address(
            [0x9c, 0x4e, 0x17, 0x03, 0x47, 0x6e, 0x87, 0x50, 0x70, 0xee, 0x25, 0xb5, 0x6a, 0x58,
                0xb0, 0x08, 0xcf, 0xb8, 0xfa, 0x78],
        );
        let conditional_tokens = Address(
            [0x69, 0x30, 0x8f, 0xb5, 0x12, 0x51, 0x8e, 0x39, 0xf9, 0xb1, 0x61, 0x12, 0xfa, 0x8d,
                0x99, 0x4f, 0x4e, 0x2b, 0xf8, 0xbb],
        );
        let c = ContractConfig { exchange, collateral, conditional_tokens };
        proof {
            if is_neg_risk {
                assert(c.exchange@ =~= amoy_neg_risk_exchange());
            } else {
                assert(c.exchange@ =~= amoy_exchange());
            }
            assert(c.collateral@ =~= amoy_collateral());
            assert(c.conditional_tokens@ =~= amoy_conditional_tokens());
        }
        Some(c)
    } else {
        None
    }
}

/// Law: on every configured chain, the primary and negative-risk domains
/// name different exchange contracts, so the two domains separate orders
/// at the signing pre-image level.
pub proof fn lemma_configured_domains_differ(chain_id: u64)
    requires
        spec_contract_config(chain_id, false) is Some,
    ensures
        spec_contract_config(chain_id, true) is Some,
        spec_contract_config(chain_id, false).unwrap().0 != spec_contract_config(
            chain_id,
            true,
        ).unwrap().0,
{
    if chain_id == 137 {
        assert(polygon_exchange()[0] == 0x4bu8);
        assert(polygon_neg_risk_exchange()[0] == 0xc5u8);
    } else {
        assert(amoy_exchange()[0] == 0xdfu8);
        assert(amoy_neg_risk_exchange()[0] == 0xd9u8);
    }
}

} // verus!
