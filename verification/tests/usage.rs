//! What a response cost.

use openai::json::Json;
use openai::model::ModelId;
use openai::usage::{InputTokensDetails, OutputTokensDetails, Usage};

/// A JSON text as the library reads it.
fn json(text: &str) -> Json {
    Json::parse(text).unwrap()
}

/// The share of input served from cache.
fn hit_rate(usage: &Usage) -> Option<f64> {
    usage.cache_hit_counts().map(|(read, whole)| f64::from(read) / f64::from(whole))
}

fn documented_usage() -> Usage {
    Usage::from_json(&json(
            r#"{
            "input_tokens": 15000,
            "input_tokens_details": {"cached_tokens": 12000, "cache_write_tokens": 3000},
            "output_tokens": 500,
            "output_tokens_details": {"reasoning_tokens": 400},
            "total_tokens": 15500
        }"#,
        ))
    .unwrap()
}

#[test]
fn the_documented_usage_shape_parses() {
    let usage = documented_usage();
    assert_eq!(usage.input_tokens, 15_000);
    assert_eq!(usage.input_tokens_details.cached_tokens, 12_000);
    assert_eq!(usage.input_tokens_details.cache_write_tokens, 3_000);
    assert_eq!(usage.output_tokens_details.reasoning_tokens, 400);
    assert_eq!(usage.total_tokens, 15_500);
}

#[test]
fn the_input_classes_partition_the_input() {
    let usage = documented_usage();
    assert_eq!(usage.uncached_input_tokens(), 0);
    assert_eq!(
        usage.uncached_input_tokens()
            + usage.input_tokens_details.cached_tokens
            + usage.input_tokens_details.cache_write_tokens,
        usage.input_tokens
    );
}

#[test]
fn absent_detail_fields_read_as_zero() {
    let usage: Usage = Usage::from_json(&json(
            r#"{
            "input_tokens": 100,
            "input_tokens_details": {"cached_tokens": 0},
            "output_tokens": 10,
            "output_tokens_details": {},
            "total_tokens": 110
        }"#,
        ))
    .unwrap();
    assert_eq!(usage.input_tokens_details.cache_write_tokens, 0);
    assert_eq!(usage.output_tokens_details.reasoning_tokens, 0);
    assert_eq!(usage.uncached_input_tokens(), 100);
}

#[test]
fn the_hit_rate_is_undefined_without_input() {
    let usage = documented_usage();
    assert_eq!(hit_rate(&usage), Some(0.8));

    let empty = Usage {
        input_tokens: 0,
        input_tokens_details: InputTokensDetails { cached_tokens: 0, cache_write_tokens: 0 },
        output_tokens: 0,
        output_tokens_details: OutputTokensDetails { reasoning_tokens: 0 },
        total_tokens: 0,
    };
    assert_eq!(hit_rate(&empty), None);
}

#[test]
fn cost_is_exact_integer_arithmetic() {
    assert_eq!(documented_usage().cost_nanodollars(ModelId::Gpt5_6Sol.pricing()), 29_800_000);
}

#[test]
fn one_write_and_nine_reads_cost_2_15x() {
    let pricing = ModelId::Gpt5_6Sol.pricing();
    let prefix = 10_000u32;
    let usage = |cached, written| Usage {
        input_tokens: prefix,
        input_tokens_details: InputTokensDetails { cached_tokens: cached, cache_write_tokens: written },
        output_tokens: 0,
        output_tokens_details: OutputTokensDetails { reasoning_tokens: 0 },
        total_tokens: prefix,
    };

    let write = usage(0, prefix).cost_nanodollars(pricing);
    let read = usage(prefix, 0).cost_nanodollars(pricing);
    let uncached = usage(0, 0).cost_nanodollars(pricing);

    assert_eq!(write * 4, uncached * 5, "a write costs 1.25x");
    assert_eq!(read * 10, uncached, "a read costs 0.1x");
    assert_eq!((write + 9 * read) * 20, uncached * 43);
}

#[test]
fn a_model_without_a_cached_discount_bills_reads_in_full() {
    let pricing = ModelId::Gpt5_5Pro.pricing();
    let cached = Usage {
        input_tokens: 1_000,
        input_tokens_details: InputTokensDetails { cached_tokens: 1_000, cache_write_tokens: 0 },
        output_tokens: 0,
        output_tokens_details: OutputTokensDetails { reasoning_tokens: 0 },
        total_tokens: 1_000,
    };
    let uncached =
        Usage { input_tokens_details: InputTokensDetails { cached_tokens: 0, cache_write_tokens: 0 }, ..cached };
    assert_eq!(cached.cost_nanodollars(pricing), uncached.cost_nanodollars(pricing));
}

#[test]
fn inconsistent_counts_saturate_rather_than_wrap() {
    let usage = Usage {
        input_tokens: 10,
        input_tokens_details: InputTokensDetails { cached_tokens: 50, cache_write_tokens: 50 },
        output_tokens: 0,
        output_tokens_details: OutputTokensDetails { reasoning_tokens: 0 },
        total_tokens: 10,
    };
    assert_eq!(usage.uncached_input_tokens(), 0);
}
