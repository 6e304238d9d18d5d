//! Every error in words.

use openai::context::{BreakpointError, BreakpointSlot, Context};
use openai::json::Json;
use openai::metadata::{Metadata, MetadataError};
use openai::model::Model;
use openai::prefix::PrefixSettings;
use openai::request::{Request, RequestError};
use openai::settle::{SettleError, Settling};
use openai::stream::{FrameError, StreamEvent};
use openai::tools::{AllowedToolsError, AllowedToolsMode, FunctionTool};
use openai::usage::Usage;

#[test]
fn breakpoint_errors_name_their_slot() {
    assert_eq!(
        BreakpointError::SlotAlreadyInUse(BreakpointSlot::S0).message(),
        "cache slot S0 already holds a breakpoint"
    );
    assert_eq!(
        BreakpointError::SlotIsAnchored(BreakpointSlot::S1).message(),
        "cache slot S1 is anchored and cannot be moved"
    );
    assert_eq!(
        BreakpointError::SlotIsEmpty(BreakpointSlot::S3).message(),
        "cache slot S3 holds no breakpoint"
    );
    assert_eq!(
        BreakpointError::NoBlockToMark.message(),
        "no content block is available to carry a cache breakpoint"
    );
    assert_eq!(
        BreakpointError::BlockAlreadyMarked.message(),
        "another slot already marks that block; one block carries one breakpoint"
    );
}

#[test]
fn allowed_tools_errors_quote_the_name() {
    let context = Context::new(vec![FunctionTool::new("read_file", Json::object(vec![]))]);
    let unknown = context.allow_tools(AllowedToolsMode::Auto, &["a \"b\"\n"]).unwrap_err();
    assert_eq!(unknown, AllowedToolsError::UnknownTool("a \"b\"\n".to_owned()));
    assert_eq!(unknown.message(), r#"tool "a \"b\"\n" is not in this context's tool array"#);
    let twice =
        context.allow_tools(AllowedToolsMode::Auto, &["read_file", "read_file"]).unwrap_err();
    assert_eq!(twice.message(), r#"tool "read_file" was allowed twice"#);
    assert_eq!(
        context.allow_tools(AllowedToolsMode::Auto, &[]).unwrap_err().message(),
        "an empty allowed set is refused; use ToolChoice::None to forbid every call"
    );
}

#[test]
fn the_first_name_at_fault_is_the_one_reported() {
    let context = Context::new(vec![FunctionTool::new("a", Json::object(vec![]))]);
    assert_eq!(
        context.allow_tools(AllowedToolsMode::Auto, &["a", "x", "a"]),
        Err(AllowedToolsError::UnknownTool("x".to_owned()))
    );
    assert_eq!(
        context.allow_tools(AllowedToolsMode::Auto, &["a", "a", "x"]),
        Err(AllowedToolsError::DuplicateTool("a".to_owned()))
    );
}

#[test]
fn metadata_errors_say_which_limit() {
    assert_eq!(
        MetadataError::TooManyPairs { pairs: 17 }.message(),
        "metadata holds 17 pairs; the API accepts at most 16"
    );
    assert_eq!(
        MetadataError::KeyTooLong { key: "k".to_owned(), characters: 65 }.message(),
        "metadata key `k` is 65 characters; the API accepts at most 64"
    );
    assert_eq!(
        MetadataError::ValueTooLong { key: "k".to_owned(), characters: 1_000 }.message(),
        "the metadata value at `k` is 1000 characters; the API accepts at most 512"
    );
}

#[test]
fn the_first_pair_over_a_limit_is_reported_before_the_count() {
    let mut pairs: Vec<(String, String)> = (0..20).map(|n| (format!("k{n}"), String::new())).collect();
    pairs[3].1 = "v".repeat(513);
    pairs[5].0 = "k".repeat(70);
    assert_eq!(
        Metadata::new(pairs),
        Err(MetadataError::ValueTooLong { key: "k3".to_owned(), characters: 513 })
    );
}

#[test]
fn request_errors_carry_their_numbers() {
    assert_eq!(
        RequestError::MaxOutputTokensOutOfRange { max_output_tokens: 0, model_maximum: 128_000 }.message(),
        "max_output_tokens (0) must be in 1..=128000 for this model"
    );
    assert_eq!(
        RequestError::TooManyExplicitBreakpoints { placed: 4, budget: 3 }.message(),
        "4 explicit cache breakpoints exceed this request's budget of 3"
    );
    let mut context = Context::new(vec![]);
    context.push_user_text("hi");
    context.roll_breakpoint(BreakpointSlot::S2).unwrap();
    let refused = Request::new(&context, PrefixSettings::new(Model::gpt_5_4())).unwrap_err();
    assert_eq!(refused.message(), "gpt-5.4 ignores explicit cache breakpoints, but 1 are placed");
}

#[test]
fn frame_errors_name_their_field() {
    assert_eq!(
        StreamEvent::decode("[]").unwrap_err().message(),
        "streamed frame is not a JSON object"
    );
    assert_eq!(StreamEvent::decode("{}").unwrap_err().message(), "streamed frame has no `type`");
    assert_eq!(
        StreamEvent::decode(r#"{"type": 3}"#).unwrap_err().message(),
        "streamed frame field `type` is not a string"
    );
    assert_eq!(
        StreamEvent::decode(r#"{"type": "response.completed", "response": {"usage": {"input_tokens": "five"}}}"#)
            .unwrap_err()
            .message(),
        "streamed `usage` object is unusable: invalid type: string \"five\", expected u32"
    );
    let not_json = StreamEvent::decode("nope").unwrap_err();
    assert!(not_json.message().starts_with("streamed frame is not JSON: expected"), "{}", not_json.message());
}

/// Why a `usage` value, as it stands in a completed response, cannot be read.
fn refused(usage: &str) -> String {
    let frame = format!(r#"{{"type": "response.completed", "response": {{"usage": {usage}}}}}"#);
    match StreamEvent::decode(&frame) {
        Err(FrameError::UndecodableUsage(error)) => error.message,
        other => panic!("{usage} decoded to {other:?}"),
    }
}

#[test]
fn usage_of_the_wrong_shape_names_what_it_should_have_been() {
    for (usage, words) in [
        ("7", "invalid type: integer `7`, expected struct Usage"),
        (r#"{"input_tokens_details": null}"#, "invalid type: null, expected struct InputTokensDetails"),
        (r#"{"output_tokens_details": "x"}"#, "invalid type: string \"x\", expected struct OutputTokensDetails"),
        (r#"{"input_tokens_details": {"cached_tokens": -1}}"#, "invalid value: integer `-1`, expected u32"),
        (
            r#"{"input_tokens_details": {"cache_write_tokens": 1.5}}"#,
            "invalid type: floating point `1.5`, expected u32",
        ),
        (r#"{"output_tokens_details": {"reasoning_tokens": {}}}"#, "invalid type: map, expected u32"),
        (r#"{"output_tokens": 4294967296}"#, "invalid value: integer `4294967296`, expected u32"),
        (r#"{"total_tokens": true}"#, "invalid type: boolean `true`, expected u32"),
    ] {
        assert_eq!(refused(usage), words, "{usage}");
    }
}

#[test]
fn a_count_is_refused_in_the_words_of_the_json_reader() {
    for count in [
        "true", "false", "-1", "-9223372036854775808", "4294967296", "18446744073709551615", "18446744073709551616",
        "1.5", "-0.0", "1e300", "5e-324", "100000000000000000000", "\"five\"", r#""a\n\"b\" é at line 1 column 2""#,
        "[]", "[1]", "{}", r#"{"a": 1}"#,
    ] {
        let value: serde_json::Value = serde_json::from_str(count).unwrap();
        let error = serde_json::from_value::<u32>(value).unwrap_err();
        assert_eq!(refused(&format!(r#"{{"input_tokens": {count}}}"#)), error.to_string());
    }
}

#[test]
fn the_first_part_that_cannot_be_read_is_the_error() {
    assert_eq!(
        refused(r#"{"total_tokens": "t", "output_tokens": "o", "input_tokens": "i"}"#),
        "invalid type: string \"i\", expected u32"
    );
    assert_eq!(
        refused(r#"{"input_tokens_details": {"cached_tokens": "r", "cache_write_tokens": "w"}}"#),
        "invalid type: string \"w\", expected u32"
    );
    assert_eq!(refused(r#"{"input_tokens_details": ["r", "w"]}"#), "invalid type: string \"r\", expected u32");
}

#[test]
fn usage_in_an_array_is_read_by_place() {
    let read = |text: &str| Usage::from_json(&Json::parse(text).unwrap());
    let held = read(r#"[10, [4, 3], 2, {"reasoning_tokens": 1}, 12]"#).unwrap();
    assert_eq!(held.input_tokens, 10);
    assert_eq!(held.input_tokens_details.cached_tokens, 4);
    assert_eq!(held.input_tokens_details.cache_write_tokens, 3);
    assert_eq!(held.output_tokens, 2);
    assert_eq!(held.output_tokens_details.reasoning_tokens, 1);
    assert_eq!(held.total_tokens, 12);
    assert_eq!(read("[10, [4], 2, [], 12]").unwrap().input_tokens_details.cache_write_tokens, 0);
    let words = |text: &str| read(text).unwrap_err().message;
    assert_eq!(words("[]"), "invalid length 0, expected struct Usage with 5 elements");
    assert_eq!(words("[1, {}]"), "invalid length 2, expected struct Usage with 5 elements");
    assert_eq!(words("[1, {}, 1, {}, 1, 1]"), "invalid length 6, expected fewer elements in array");
    assert_eq!(words("[1, [1, 1, 1], 1, {}, 1]"), "invalid length 3, expected fewer elements in array");
    assert_eq!(words("[1, {}, 1, [1, 2], 1]"), "invalid length 2, expected fewer elements in array");
    assert_eq!(words("[1, 2]"), "invalid type: integer `2`, expected struct InputTokensDetails");
}

#[test]
fn a_truncated_stream_counts_characters_and_events() {
    let mut settling = Settling::new();
    settling
        .consume_payload(r#"{"type":"response.output_text.delta","output_index":0,"content_index":0,"delta":"é😀"}"#)
        .unwrap();
    let error = settling.settle().unwrap_err();
    assert!(matches!(error, SettleError::Truncated { events: 1, text_len: 2 }));
    assert_eq!(
        error.message(),
        "stream ended without a terminal event after 1 event(s) and 2 character(s) of text"
    );
    let mut broken = Settling::new();
    assert_eq!(broken.consume_payload("[]").unwrap_err().message(), "streamed frame is not a JSON object");
}
