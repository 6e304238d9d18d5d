//! Whole response bodies.

use openai::json::Json;
use openai::response::Response;
use openai::stream::FrameError;
use openai::values::{IncompleteReason, ResponseStatus};

/// A JSON text as the library reads it.
fn json(text: &str) -> Json {
    Json::parse(text).unwrap()
}

#[test]
fn a_null_count_reports_zero_rather_than_failing() {
    let response = Response::from_json(&json(r#"{
        "id": "resp_1", "status": "completed", "output": [],
        "usage": {
            "input_tokens": null,
            "input_tokens_details": {"cached_tokens": null, "cache_write_tokens": 7, "audio_tokens": null},
            "output_tokens": 5,
            "output_tokens_details": {"reasoning_tokens": null},
            "total_tokens": null
        }
    }"#))
    .expect("nulls are absences, not errors");
    let usage = response.usage.unwrap();
    assert_eq!(usage.input_tokens, 0);
    assert_eq!(usage.input_tokens_details.cached_tokens, 0);
    assert_eq!(usage.input_tokens_details.cache_write_tokens, 7, "a real number beside a null still counts");
    assert_eq!(usage.output_tokens, 5);
    assert_eq!(usage.output_tokens_details.reasoning_tokens, 0);
}

#[test]
fn a_buffered_refusal_is_not_answer_text() {
    let response = Response::from_json(&json(r#"{
        "id": "resp_1", "status": "completed",
        "output": [{"type": "message", "id": "msg_1", "role": "assistant",
                    "content": [{"type": "refusal", "refusal": "I cannot help with that."}]}]
    }"#))
    .unwrap();
    assert_eq!(response.text(), "", "a refusal is not an answer");
    assert_eq!(response.refusal(), "I cannot help with that.");
}

#[test]
fn a_failure_and_a_truncation_each_say_why() {
    let failed = Response::from_json(&json(r#"{
        "id": "resp_1", "status": "failed",
        "error": {"code": "server_error", "message": "upstream fell over"}
    }"#))
    .unwrap();
    assert!(!failed.is_completed());
    assert_eq!(failed.status, Some(ResponseStatus::Failed));
    assert_eq!(failed.error.unwrap().message, "upstream fell over");

    let incomplete = Response::from_json(&json(r#"{
        "id": "resp_2", "status": "incomplete",
        "incomplete_details": {"reason": "max_output_tokens"}
    }"#))
    .unwrap();
    assert_eq!(incomplete.incomplete_reason, Some(IncompleteReason::MaxOutputTokens));
}

#[test]
fn a_broken_body_fails_and_an_unknown_field_does_not() {
    assert!(matches!(Response::decode("[1, 2]"), Err(FrameError::WrongType { .. })));
    assert!(matches!(Response::decode("not json"), Err(FrameError::NotJson(_))));
    assert!(Response::from_json(&json(r#"{"id": "r", "invented_next_year": {"deeply": [1]}}"#)).is_ok());
}
