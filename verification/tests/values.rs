//! The wire vocabulary.

use openai::json::Json;
use openai::values::{
    AssistantPhase, CacheMode, CacheRetention, CacheTtl, ErrorType, IncompleteReason, InputRole,
    Metadata, MetadataError, ReasoningEffort, ServiceTier, Verbosity,
};

fn pairs(pairs: &[(&str, &str)]) -> Vec<(String, String)> {
    pairs.iter().map(|(key, value)| (key.to_string(), value.to_string())).collect()
}

#[test]
fn as_str_matches_the_wire() {
    assert_eq!(InputRole::Developer.as_str(), "developer");
    assert_eq!(CacheMode::Explicit.as_str(), "explicit");
    assert_eq!(CacheTtl::ThirtyMinutes.as_str(), "30m");
    assert_eq!(CacheRetention::TwentyFourHours.as_str(), "24h");
    assert_eq!(ReasoningEffort::Max.as_str(), "max");
    assert_eq!(AssistantPhase::FinalAnswer.as_str(), "final_answer");
}

#[test]
fn serializing_an_enum_yields_a_bare_string() {
    assert_eq!(Verbosity::Low.as_str(), "low");
}

#[test]
fn response_vocabulary_roundtrips() {
    for e in [
        ErrorType::InvalidRequest,
        ErrorType::Authentication,
        ErrorType::Permission,
        ErrorType::NotFound,
        ErrorType::RateLimit,
        ErrorType::ServerError,
    ] {
        assert_eq!(ErrorType::from_str(e.as_str()), Some(e));
    }
    for r in [IncompleteReason::MaxOutputTokens, IncompleteReason::ContentFilter] {
        assert_eq!(IncompleteReason::from_str(r.as_str()), Some(r));
    }
    assert_eq!(ErrorType::from_str("not_a_real_error"), None);
    assert_eq!(IncompleteReason::from_str("nonsense"), None);
}

#[test]
fn statuses_map_to_error_types() {
    assert_eq!(ErrorType::from_status(400), Some(ErrorType::InvalidRequest));
    assert_eq!(ErrorType::from_status(422), Some(ErrorType::InvalidRequest));
    assert_eq!(ErrorType::from_status(429), Some(ErrorType::RateLimit));
    assert_eq!(ErrorType::from_status(503), Some(ErrorType::ServerError));
    assert_eq!(ErrorType::from_status(200), None);
    assert_eq!(ErrorType::from_status(302), None);
}

#[test]
fn metadata_refuses_what_the_api_refuses() {
    let seventeen: Vec<(String, String)> = (0..17).map(|n| (format!("key{n}"), "v".to_owned())).collect();
    assert_eq!(Metadata::new(seventeen), Err(MetadataError::TooManyPairs { pairs: 17 }));

    let long_key = "k".repeat(65);
    assert_eq!(
        Metadata::new(pairs(&[(&long_key, "v")])),
        Err(MetadataError::KeyTooLong { key: long_key, characters: 65 })
    );

    assert_eq!(
        Metadata::new(pairs(&[("k", &"v".repeat(513))])),
        Err(MetadataError::ValueTooLong { key: "k".to_owned(), characters: 513 })
    );

    assert!(Metadata::new(pairs(&[(&"k".repeat(64), &"v".repeat(512))])).is_ok());
    let sixteen: Vec<(String, String)> = (0..16).map(|n| (format!("key{n}"), "v".to_owned())).collect();
    assert_eq!(Metadata::new(sixteen).unwrap().len(), 16);
}

#[test]
fn metadata_limits_count_characters_rather_than_bytes() {
    let key = "\u{1f600}".repeat(64);
    assert_eq!(key.len(), 256, "the key really is longer in bytes");
    assert!(Metadata::new(pairs(&[(&key, "v")])).is_ok());
}

#[test]
fn metadata_serializes_in_key_order() {
    let forwards = Metadata::new(pairs(&[("a", "1"), ("b", "2")])).unwrap();
    let backwards = Metadata::new(pairs(&[("b", "2"), ("a", "1")])).unwrap();
    assert_eq!(forwards, backwards);
    assert_eq!(
        forwards.to_json(),
        Json::Object(vec![("a".to_owned(), Json::text("1")), ("b".to_owned(), Json::text("2"))])
    );
    assert_eq!(forwards.pairs(), vec![("a", "1"), ("b", "2")]);
}

#[test]
fn the_service_tier_the_response_reports_reads_back() {
    for tier in [ServiceTier::Auto, ServiceTier::Default, ServiceTier::Flex, ServiceTier::Ultrafast] {
        assert_eq!(ServiceTier::from_str(tier.as_str()), Some(tier));
    }
    assert_eq!(ServiceTier::from_str("fast"), Some(ServiceTier::Fast));
    assert_eq!(ServiceTier::from_str("priority"), Some(ServiceTier::Priority));
    assert_eq!(ServiceTier::from_str("turbo"), None);
}
