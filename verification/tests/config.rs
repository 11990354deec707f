use polymarket_client_sdk::types::Address;
use polymarket_client_sdk::{contract_config, AMOY, POLYGON};

#[test]
fn config_contains_80002() {
    let cfg = contract_config(AMOY, false).expect("missing config");
    assert_eq!(
        cfg.exchange,
        Address::from_hex("0xdFE02Eb6733538f8Ea35D585af8DE5958AD99E40").unwrap()
    );
}

#[test]
fn config_contains_80002_neg() {
    let cfg = contract_config(AMOY, true).expect("missing config");
    assert_eq!(
        cfg.exchange,
        Address::from_hex("0xd91e80cf2e7be2e162c6513ced06f1dd0da35296").unwrap()
    );
}

#[test]
fn config_contains_137_both_domains() {
    let cfg = contract_config(POLYGON, false).expect("missing config");
    assert_eq!(
        cfg.exchange,
        Address::from_hex("0x4bFb41d5B3570DeFd03C39a9A4D8dE6Bd8B8982E").unwrap()
    );
    let neg = contract_config(POLYGON, true).expect("missing config");
    assert_eq!(
        neg.exchange,
        Address::from_hex("0xC5d563A36AE78145C45a50134d48A1215220f80a").unwrap()
    );
}

#[test]
fn primary_and_negative_risk_exchanges_differ() {
    for chain in [POLYGON, AMOY] {
        let a = contract_config(chain, false).unwrap().exchange;
        let b = contract_config(chain, true).unwrap().exchange;
        assert_ne!(a, b);
    }
}

#[test]
fn unknown_chain_has_no_config() {
    assert!(contract_config(1, false).is_none());
    assert!(contract_config(1, true).is_none());
}
