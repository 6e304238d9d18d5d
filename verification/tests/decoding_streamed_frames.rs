//! One streamed frame decoded, through the public API alone.

use openai::hosted::HostedToolPhase;
use openai::items::{FunctionArguments, OutputItem, ResponseError, ResponseSnapshot};
use openai::json::{Json, Number};
use openai::stream::{data_payload, FrameError, PartBoundary, ProgressStage, StreamEvent, TextStream};
use openai::usage::Usage;
use openai::values::{AssistantPhase, HostedTool, IncompleteReason, ResponseStatus};
use serde_json::Value;

/// A JSON text as a value.
fn parsed(text: &str) -> Value {
    serde_json::from_str(text).unwrap()
}

/// A JSON text as the library reads it.
fn json(text: &str) -> Json {
    Json::parse(text).unwrap()
}

/// What the library wrote, as a value.
fn wire(json: &Json) -> Value {
    match json {
        Json::Null => Value::Null,
        Json::Bool(b) => Value::Bool(*b),
        Json::Number(Number::PosInt(n)) => Value::from(*n),
        Json::Number(Number::NegInt(n)) => Value::from(*n),
        Json::Number(Number::Float(text)) => serde_json::from_str(text).unwrap(),
        Json::Text(text) => Value::String(text.clone()),
        Json::Array(items) => Value::Array(items.iter().map(wire).collect()),
        Json::Object(fields) => {
            Value::Object(fields.iter().map(|(name, field)| (name.clone(), wire(field))).collect())
        }
    }
}

/// The share of input served from cache.
fn hit_rate(usage: &Usage) -> Option<f64> {
    usage.cache_hit_counts().map(|(read, whole)| f64::from(read) / f64::from(whole))
}

#[test]
fn only_data_lines_carry_a_payload() {
    assert_eq!(data_payload("data: {\"type\":\"x\"}"), Some("{\"type\":\"x\"}"));
    assert_eq!(data_payload("data:{\"type\":\"x\"}"), Some("{\"type\":\"x\"}"), "the space is optional");
    assert_eq!(data_payload("data:  two spaces"), Some(" two spaces"), "only one space is framing");
    assert_eq!(data_payload("event: response.completed"), None);
    assert_eq!(data_payload(": keep-alive comment"), None);
    assert_eq!(data_payload(""), None);
}

#[test]
fn a_text_delta_decodes() {
    let event = StreamEvent::decode(
        r#"{"type":"response.output_text.delta","sequence_number":7,"item_id":"msg_1",
            "output_index":0,"content_index":0,"delta":"Hel","logprobs":[]}"#,
    )
    .unwrap();
    assert_eq!(
        event,
        StreamEvent::TextDelta { stream: TextStream::Output, output_index: 0, part_index: 0, delta: "Hel".to_owned() }
    );
    assert_eq!(event.kind(), "response.output_text.delta");
    assert!(!event.is_terminal());
}

#[test]
fn a_reasoning_summary_delta_decodes() {
    let event = StreamEvent::from_json(&json(r#"{
        "type": "response.reasoning_summary_text.delta",
        "item_id": "rs_1", "output_index": 0, "summary_index": 1, "delta": "weighing",
        "sequence_number": 3
    }"#))
    .unwrap();
    assert_eq!(
        event,
        StreamEvent::TextDelta {
            stream: TextStream::ReasoningSummary,
            output_index: 0,
            part_index: 1,
            delta: "weighing".to_owned(),
        }
    );
}

#[test]
fn an_unknown_event_is_ignorable_rather_than_an_error() {
    let event = StreamEvent::decode(r#"{"type":"response.crystal_ball.delta","delta":"?"}"#).unwrap();
    assert_eq!(event, StreamEvent::Unmodeled { kind: "response.crystal_ball.delta".to_owned() });
    assert_eq!(event.kind(), "response.crystal_ball.delta");
    assert!(!event.is_terminal());
}

#[test]
fn a_documented_but_unmodeled_event_is_also_ignorable() {
    for kind in [
        "response.shell_call_command.added",
        "response.shell_call_command.delta",
        "response.shell_call_command.done",
        "response.shell_call_output_content.delta",
        "response.shell_call_output_content.done",
    ] {
        let event = StreamEvent::from_json(&json(&format!(r#"{{"type": "{kind}", "sequence_number": 1, "output_index": 0}}"#)))
            .unwrap_or_else(|error| panic!("{kind} should decode: {}", error.message()));
        assert_eq!(event, StreamEvent::Unmodeled { kind: kind.to_owned() });
        assert_eq!(event.kind(), kind);
    }
}

#[test]
fn a_broken_frame_is_an_error() {
    assert!(matches!(StreamEvent::decode("not json at all"), Err(FrameError::NotJson(_))));
    assert!(matches!(StreamEvent::decode("[1,2]"), Err(FrameError::NotAnObject)));
    assert!(matches!(StreamEvent::decode("{}"), Err(FrameError::MissingField { field: "type" })));
    assert!(matches!(
        StreamEvent::from_json(&json(r#"{"type": "response.output_text.delta", "output_index": 0}"#)),
        Err(FrameError::MissingField { field: "content_index" })
    ));
    assert!(matches!(
        StreamEvent::from_json(&json(r#"{
            "type": "response.output_text.delta", "output_index": -1, "content_index": 0, "delta": "x"
        }"#)),
        Err(FrameError::WrongType { field: "output_index", .. })
    ));
}

#[test]
fn a_function_call_item_keeps_its_arguments_as_bytes() {
    let event = StreamEvent::from_json(&json(r#"{
        "type": "response.output_item.done", "output_index": 1, "sequence_number": 12,
        "item": {
            "type": "function_call", "id": "fc_1", "call_id": "call_abc", "name": "read_file",
            "arguments": "{\"path\":\"src/lib.rs\"}", "status": "completed"
        }
    }"#))
    .unwrap();
    let StreamEvent::OutputItemDone { output_index: 1, item: OutputItem::FunctionCall(call) } = event else {
        panic!("expected a finished function call");
    };
    assert_eq!(call.call_id, "call_abc");
    assert_eq!(call.name, "read_file");
    assert_eq!(call.arguments.as_str(), r#"{"path":"src/lib.rs"}"#);
    assert_eq!(wire(&call.arguments.decode().unwrap()), parsed(r#"{"path": "src/lib.rs"}"#));
}

#[test]
fn malformed_arguments_fail_only_where_they_are_decoded() {
    let arguments = FunctionArguments::from_wire(r#"{"path": "src/lib.rs"#);
    assert_eq!(arguments.as_str(), r#"{"path": "src/lib.rs"#);
    let error = arguments.decode().unwrap_err();
    assert!(error.message.contains("EOF"), "{}", error.message);
}

#[test]
fn absent_arguments_decode_to_the_empty_object() {
    assert_eq!(wire(&FunctionArguments::default().decode().unwrap()), parsed(r#"{}"#));
    assert_eq!(wire(&FunctionArguments::from_wire("").decode().unwrap()), parsed(r#"{}"#));
    assert_eq!(wire(&FunctionArguments::from_wire("  ").decode().unwrap()), parsed(r#"{}"#));

    let event = StreamEvent::from_json(&json(r#"{
        "type": "response.output_item.added", "output_index": 0,
        "item": {"type": "function_call", "call_id": "c1", "name": "finish"}
    }"#))
    .unwrap();
    let StreamEvent::OutputItemAdded { item: OutputItem::FunctionCall(call), .. } = event else {
        panic!("expected an announced function call");
    };
    assert_eq!(call.arguments, FunctionArguments::default());
}

#[test]
fn a_hosted_tool_call_item_names_its_tool() {
    let event = StreamEvent::from_json(&json(r#"{
        "type": "response.output_item.done", "output_index": 2,
        "item": {"type": "web_search_call", "id": "ws_1", "status": "completed", "queries": ["rust"]}
    }"#))
    .unwrap();
    let StreamEvent::OutputItemDone { item: OutputItem::HostedToolCall { tool, id, status, item }, .. } = event else {
        panic!("expected a hosted tool call");
    };
    assert_eq!(tool, HostedTool::WebSearch);
    assert_eq!(id.as_deref(), Some("ws_1"));
    assert_eq!(status.as_deref(), Some("completed"));
    assert_eq!(wire(&item)["queries"], parsed(r#"["rust"]"#), "the undecoded fields survive");
}

#[test]
fn an_output_item_kind_this_crate_ignores_is_not_an_error() {
    let event = StreamEvent::from_json(&json(r#"{
        "type": "response.output_item.done", "output_index": 2,
        "item": {"type": "crystal_ball_call", "id": "cb_1"}
    }"#))
    .unwrap();
    assert_eq!(
        event,
        StreamEvent::OutputItemDone {
            output_index: 2,
            item: OutputItem::Unmodeled { kind: "crystal_ball_call".to_owned() }
        }
    );
}

#[test]
fn a_message_item_carries_its_finished_text_and_phase() {
    let event = StreamEvent::from_json(&json(r#"{
        "type": "response.output_item.done", "output_index": 0,
        "item": {
            "type": "message", "id": "msg_1", "role": "assistant", "status": "completed",
            "phase": "final_answer",
            "content": [
                {"type": "output_text", "text": "Hello ", "annotations": []},
                {"type": "output_text", "text": "world", "annotations": []},
                {"type": "refusal", "refusal": "I cannot help with that"}
            ]
        }
    }"#))
    .unwrap();
    let StreamEvent::OutputItemDone { item: OutputItem::Message { text, phase, id, .. }, .. } = event else {
        panic!("expected a finished message");
    };
    assert_eq!(text, "Hello world", "output_text blocks join; a refusal is not text");
    assert_eq!(phase, Some(AssistantPhase::FinalAnswer));
    assert_eq!(id.as_deref(), Some("msg_1"));
}

#[test]
fn the_terminal_events_carry_usage_and_their_reason() {
    let completed = StreamEvent::from_json(&json(r#"{
        "type": "response.completed", "sequence_number": 40,
        "response": {
            "id": "resp_1", "status": "completed",
            "usage": {
                "input_tokens": 15000,
                "input_tokens_details": {"cached_tokens": 12000, "cache_write_tokens": 3000},
                "output_tokens": 500, "output_tokens_details": {"reasoning_tokens": 400},
                "total_tokens": 15500
            }
        }
    }"#))
    .unwrap();
    let StreamEvent::Completed(snapshot) = completed else { panic!("expected completion") };
    assert!(StreamEvent::Completed(ResponseSnapshot::default()).is_terminal());
    assert_eq!(snapshot.id.as_deref(), Some("resp_1"));
    let usage = snapshot.usage.unwrap();
    assert_eq!(usage.input_tokens_details.cached_tokens, 12_000);
    assert_eq!(usage.input_tokens_details.cache_write_tokens, 3_000);
    assert_eq!(hit_rate(&usage), Some(0.8));

    let incomplete = StreamEvent::from_json(&json(r#"{
        "type": "response.incomplete",
        "response": {"id": "resp_2", "status": "incomplete",
                     "incomplete_details": {"reason": "max_output_tokens"}}
    }"#))
    .unwrap();
    let StreamEvent::Incomplete(snapshot) = incomplete else { panic!("expected an incomplete response") };
    assert_eq!(snapshot.incomplete_reason, Some(IncompleteReason::MaxOutputTokens));

    let failed = StreamEvent::from_json(&json(r#"{
        "type": "response.failed",
        "response": {"id": "resp_3", "status": "failed",
                     "error": {"code": "server_error", "message": "upstream fell over"}}
    }"#))
    .unwrap();
    let StreamEvent::Failed(snapshot) = failed else { panic!("expected a failure") };
    let error = snapshot.error.unwrap();
    assert_eq!(error.code.as_deref(), Some("server_error"));
    assert_eq!(error.message, "upstream fell over");
}

#[test]
fn an_unrecognized_incomplete_reason_reads_as_absent() {
    let event = StreamEvent::from_json(&json(r#"{
        "type": "response.incomplete",
        "response": {"incomplete_details": {"reason": "some_new_reason"}}
    }"#))
    .unwrap();
    let StreamEvent::Incomplete(snapshot) = event else { panic!("expected an incomplete response") };
    assert_eq!(snapshot.incomplete_reason, None);
}

#[test]
fn usage_is_absent_or_as_much_of_it_as_was_reported() {
    let null = StreamEvent::from_json(&json(r#"{"type": "response.completed", "response": {"usage": null}}"#));
    let StreamEvent::Completed(snapshot) = null.unwrap() else { panic!("expected completion") };
    assert_eq!(snapshot.usage, None);

    let missing = StreamEvent::from_json(&json(r#"{"type": "response.completed", "response": {}}"#));
    let StreamEvent::Completed(snapshot) = missing.unwrap() else { panic!("expected completion") };
    assert_eq!(snapshot.usage, None);

    let totals_only = StreamEvent::from_json(&json(r#"{
        "type": "response.completed", "response": {"usage": {"input_tokens": 5, "output_tokens": 2}}
    }"#));
    let StreamEvent::Completed(snapshot) = totals_only.unwrap() else { panic!("expected completion") };
    let usage = snapshot.usage.expect("two totals are two real numbers");
    assert_eq!(usage.input_tokens, 5);
    assert_eq!(usage.output_tokens, 2);
    assert_eq!(usage.input_tokens_details.cached_tokens, 0);

    let corrupt = StreamEvent::from_json(&json(r#"{
        "type": "response.completed", "response": {"usage": {"input_tokens": "five"}}
    }"#));
    assert!(matches!(corrupt, Err(FrameError::UndecodableUsage(_))));
}

#[test]
fn the_bare_error_event_decodes() {
    let event = StreamEvent::decode(
        r#"{"type":"error","code":"rate_limit_exceeded","message":"slow down","param":null,
            "sequence_number":2}"#,
    )
    .unwrap();
    assert_eq!(
        event,
        StreamEvent::Error(ResponseError {
            code: Some("rate_limit_exceeded".to_owned()),
            message: "slow down".to_owned(),
            param: None,
        })
    );
    assert!(event.is_terminal());
    assert_eq!(event.kind(), "error");
}

#[test]
fn every_text_stream_decodes_through_one_variant() {
    let delta = |kind: &str, index_field: &str| {
        StreamEvent::from_json(&json(&format!(
            r#"{{"type": "{kind}", "item_id": "i", "output_index": 3, "{index_field}": 2, "delta": "x",
                "sequence_number": 1}}"#
        )))
        .unwrap_or_else(|error| panic!("{kind}: {}", error.message()))
    };
    for (kind, index_field, stream) in [
        ("response.output_text.delta", "content_index", TextStream::Output),
        ("response.refusal.delta", "content_index", TextStream::Refusal),
        ("response.reasoning_summary_text.delta", "summary_index", TextStream::ReasoningSummary),
        ("response.reasoning_text.delta", "content_index", TextStream::Reasoning),
    ] {
        assert_eq!(
            delta(kind, index_field),
            StreamEvent::TextDelta { stream, output_index: 3, part_index: 2, delta: "x".to_owned() }
        );
    }

    assert_eq!(
        StreamEvent::from_json(&json(r#"{
            "type": "response.refusal.done", "output_index": 0, "content_index": 0, "refusal": "I cannot"
        }"#))
        .unwrap(),
        StreamEvent::TextDone {
            stream: TextStream::Refusal,
            output_index: 0,
            part_index: 0,
            text: "I cannot".to_owned()
        }
    );
}

#[test]
fn only_the_answer_stream_is_answer_text() {
    let of = |stream| StreamEvent::TextDelta { stream, output_index: 0, part_index: 0, delta: "x".to_owned() };
    assert_eq!(of(TextStream::Output).answer_text_delta(), Some("x"));
    for quiet in [TextStream::Refusal, TextStream::ReasoningSummary, TextStream::Reasoning] {
        assert_eq!(of(quiet).answer_text_delta(), None, "{quiet:?} is not answer text");
        assert!(!quiet.is_answer_text());
    }
    assert!(TextStream::Output.is_answer_text());
}

#[test]
fn a_hosted_tool_lifecycle_carries_its_tool_and_phase() {
    let event = StreamEvent::from_json(&json(r#"{
        "type": "response.web_search_call.searching", "output_index": 4, "item_id": "ws_9", "sequence_number": 2
    }"#))
    .unwrap();
    assert_eq!(
        event,
        StreamEvent::HostedToolLifecycle {
            tool: HostedTool::WebSearch,
            phase: HostedToolPhase::Searching,
            output_index: 4,
            item_id: Some("ws_9".to_owned()),
        }
    );
    assert!(!event.is_terminal(), "a tool running is not the end of the stream");
}

#[test]
fn an_added_part_is_announced_empty() {
    let event = StreamEvent::from_json(&json(r#"{
        "type": "response.reasoning_summary_part.added", "item_id": "rs_1", "output_index": 0,
        "summary_index": 1, "part": {"type": "summary_text", "text": ""}, "sequence_number": 1
    }"#))
    .unwrap();
    assert_eq!(
        event,
        StreamEvent::Part {
            stream: TextStream::ReasoningSummary,
            boundary: PartBoundary::Added,
            output_index: 0,
            part_index: 1,
            text: String::new(),
        }
    );
}

#[test]
fn a_message_keeps_its_refusal_apart_from_its_text() {
    let event = StreamEvent::from_json(&json(r#"{
        "type": "response.output_item.done", "output_index": 0,
        "item": {
            "type": "message", "id": "msg_1", "role": "assistant", "phase": "final_answer",
            "content": [
                {"type": "output_text", "text": "Here is what I can say. "},
                {"type": "refusal", "refusal": "I cannot help with the rest."}
            ]
        }
    }"#))
    .unwrap();
    let StreamEvent::OutputItemDone { item: OutputItem::Message { text, refusal, .. }, .. } = event else {
        panic!("expected a message");
    };
    assert_eq!(text, "Here is what I can say. ");
    assert_eq!(refusal, "I cannot help with the rest.");
}

#[test]
fn a_reasoning_item_reads_its_summary_from_its_own_array() {
    let event = StreamEvent::from_json(&json(r#"{
        "type": "response.output_item.done", "output_index": 0,
        "item": {
            "type": "reasoning", "id": "rs_1",
            "summary": [{"type": "summary_text", "text": "First I checked. "},
                        {"type": "summary_text", "text": "Then I answered."}],
            "content": []
        }
    }"#))
    .unwrap();
    let StreamEvent::OutputItemDone { item: OutputItem::Reasoning(item), .. } = event else {
        panic!("expected reasoning");
    };
    assert_eq!(item.summary, "First I checked. Then I answered.");
}

#[test]
fn a_progress_stage_survives_two_stages_sharing_one_status() {
    for stage in [ProgressStage::Created, ProgressStage::Queued, ProgressStage::InProgress] {
        let event = StreamEvent::from_json(&json(&format!(
            r#"{{"type": "{}", "response": {{"status": "queued"}}}}"#,
            stage.as_str()
        ))).unwrap();
        assert_eq!(event.kind(), stage.as_str());
        let StreamEvent::ResponseProgress { stage: decoded, .. } = event else { panic!("expected progress") };
        assert_eq!(decoded, stage);
    }
    assert_eq!(ProgressStage::Created.status(), ResponseStatus::Queued);
    assert_eq!(ProgressStage::Queued.status(), ResponseStatus::Queued);
    assert_eq!(ProgressStage::InProgress.status(), ResponseStatus::InProgress);
}

#[test]
fn a_terminal_snapshot_decodes_its_output_array() {
    let event = StreamEvent::from_json(&json(r#"{
        "type": "response.completed",
        "response": {"id": "resp_1", "output": [
            {"type": "message", "id": "msg_1", "role": "assistant",
             "content": [{"type": "output_text", "text": "done"}]},
            {"type": "function_call", "call_id": "c1", "name": "stop", "arguments": "{}"}
        ]}
    }"#))
    .unwrap();
    let StreamEvent::Completed(snapshot) = event else { panic!("expected completion") };
    assert_eq!(snapshot.output.len(), 2);
    assert!(matches!(&snapshot.output[0], OutputItem::Message { text, .. } if text == "done"));
    assert!(matches!(&snapshot.output[1], OutputItem::FunctionCall(call) if call.call_id == "c1"));
}
