use polymarket_client_sdk::encode::u64_dec_string;
use polymarket_client_sdk::gamma::{
    related_tags_by_id_path, related_tags_by_slug_path, tag_by_id_path, tag_by_slug_path,
    tag_relationships_by_id_path, tag_relationships_by_slug_path, ListTeamsRequest,
    RelatedTagsByIdRequest, RelatedTagsBySlugRequest, RelatedTagsStatus, TagsRequest,
};
use polymarket_client_sdk::types::Address;

#[test]
fn decimal_rendering_is_exact() {
    assert_eq!(u64_dec_string(0), "0");
    assert_eq!(u64_dec_string(7), "7");
    assert_eq!(u64_dec_string(1_700_000_005), "1700000005");
    assert_eq!(u64_dec_string(u64::MAX), "18446744073709551615");
}

#[test]
fn address_hex_round_trip() {
    let a = Address::from_hex("0x4bFb41d5B3570DeFd03C39a9A4D8dE6Bd8B8982E").unwrap();
    assert_eq!(a.to_hex(), "0x4bfb41d5b3570defd03c39a9a4d8de6bd8b8982e");
    // Parsing is case-insensitive over the same digits.
    let b = Address::from_hex("0x4BFB41D5B3570DEFD03C39A9A4D8DE6BD8B8982E").unwrap();
    assert_eq!(a, b);
}

#[test]
fn address_hex_rejects_malformed_input() {
    assert!(Address::from_hex("").is_none());
    assert!(Address::from_hex("0x").is_none());
    assert!(Address::from_hex("4bFb41d5B3570DeFd03C39a9A4D8dE6Bd8B8982E").is_none());
    assert!(Address::from_hex("0x4bFb41d5B3570DeFd03C39a9A4D8dE6Bd8B8982").is_none());
    assert!(Address::from_hex("0x4bFb41d5B3570DeFd03C39a9A4D8dE6Bd8B8982Ez").is_none());
    assert!(Address::from_hex("0xzzFb41d5B3570DeFd03C39a9A4D8dE6Bd8B8982E").is_none());
}

/// The checksummed rendering mixes case exactly as the hex digest of the
/// lowercase rendering dictates.
#[test]
fn checksummed_address_rendering() {
    let a = Address::from_hex("0x5aaeb6053f3e94c9b9a09f33669435e7ef1beaed").unwrap();
    assert_eq!(a.to_checksum_hex(), "0x5aAeb6053F3E94C9b9A09f33669435E7Ef1BeAed");
    let b = Address::from_hex("0xfb6916095ca1df60bb79ce92ce3ea74c37c5d359").unwrap();
    assert_eq!(b.to_checksum_hex(), "0xfB6916095ca1df60bB79Ce92cE3Ea74c37c5d359");
}

/// A checksummed rendering is still a well-formed address string and
/// parses back to the very same address.
#[test]
fn checksummed_rendering_parses_back() {
    let a = Address::from_hex("0x4bFb41d5B3570DeFd03C39a9A4D8dE6Bd8B8982E").unwrap();
    let rendered = a.to_checksum_hex();
    assert_eq!(Address::from_hex(&rendered), Some(a));
}

#[test]
fn gamma_paths_are_exact() {
    assert_eq!(tag_by_id_path(42), "tags/42");
    assert_eq!(tag_by_slug_path("crypto"), "tags/slug/crypto");
    assert_eq!(tag_relationships_by_id_path(42), "tags/42/related-tags");
    assert_eq!(
        tag_relationships_by_slug_path("politics"),
        "tags/slug/politics/related-tags"
    );
    assert_eq!(related_tags_by_id_path(42), "tags/42/related-tags/tags");
    assert_eq!(
        related_tags_by_slug_path("politics"),
        "tags/slug/politics/related-tags/tags"
    );
}

#[test]
fn tags_request_query_pairs() {
    let mut req = TagsRequest::default();
    assert!(req.query_pairs().is_empty());
    req.limit = Some(100);
    req.ascending = Some(true);
    req.is_carousel = Some(false);
    let pairs = req.query_pairs();
    assert_eq!(
        pairs,
        vec![
            ("limit".to_string(), "100".to_string()),
            ("ascending".to_string(), "true".to_string()),
            ("is_carousel".to_string(), "false".to_string()),
        ]
    );
}

#[test]
fn list_teams_request_query_pairs() {
    let mut req = ListTeamsRequest::default();
    req.limit = Some(5);
    req.offset = Some(10);
    req.league = Some(vec!["NBA".to_string(), "NFL".to_string()]);
    let pairs = req.query_pairs();
    assert_eq!(
        pairs,
        vec![
            ("limit".to_string(), "5".to_string()),
            ("offset".to_string(), "10".to_string()),
            ("league".to_string(), "NBA".to_string()),
            ("league".to_string(), "NFL".to_string()),
        ]
    );
}

#[test]
fn related_tags_query_pairs() {
    let mut by_id = RelatedTagsByIdRequest::new(42);
    by_id.omit_empty = Some(true);
    by_id.status = Some(RelatedTagsStatus::Active);
    assert_eq!(
        by_id.query_pairs(),
        vec![
            ("omit_empty".to_string(), "true".to_string()),
            ("status".to_string(), "active".to_string()),
        ]
    );

    let mut by_slug = RelatedTagsBySlugRequest::new("politics".to_string());
    by_slug.status = Some(RelatedTagsStatus::All);
    assert_eq!(
        by_slug.query_pairs(),
        vec![("status".to_string(), "all".to_string())]
    );
}
