//! Every modeled event type, decoded from a frame of its own.

use openai::hosted::HostedToolPhase;
use openai::items::{OutputItem, ResponseSnapshot};
use openai::json::Json;
use openai::response::Response;
use openai::stream::{AudioStream, FrameError, StreamEvent};
use openai::values::{AssistantPhase, HostedTool, ResponseStatus, ServiceTier};

/// A frame of each modeled type.
fn frames() -> Vec<(&'static str, String)> {
    let mut frames: Vec<(&'static str, String)> = Vec::new();
    let mut add = |kinds: &[&'static str], rest: &str| {
        for kind in kinds {
            frames.push((*kind, format!(r#"{{"type": "{kind}", "sequence_number": 1, {rest}}}"#)));
        }
    };
    add(
        &["response.output_text.delta", "response.refusal.delta", "response.reasoning_text.delta"],
        r#""output_index": 0, "content_index": 1, "delta": "d""#,
    );
    add(&["response.reasoning_summary_text.delta"], r#""output_index": 0, "summary_index": 1, "delta": "d""#);
    add(
        &["response.output_text.done", "response.reasoning_text.done"],
        r#""output_index": 0, "content_index": 1, "text": "t""#,
    );
    add(&["response.refusal.done"], r#""output_index": 0, "content_index": 1, "refusal": "r""#);
    add(&["response.reasoning_summary_text.done"], r#""output_index": 0, "summary_index": 1, "text": "t""#);
    add(
        &["response.content_part.added", "response.content_part.done"],
        r#""output_index": 0, "content_index": 1, "part": {"type": "output_text", "text": "t"}"#,
    );
    add(
        &["response.reasoning_summary_part.added", "response.reasoning_summary_part.done"],
        r#""output_index": 0, "summary_index": 1, "part": {"type": "summary_text", "text": "t"}"#,
    );
    add(
        &[
            "response.file_search_call.in_progress",
            "response.file_search_call.searching",
            "response.file_search_call.completed",
            "response.web_search_call.in_progress",
            "response.web_search_call.searching",
            "response.web_search_call.completed",
            "response.code_interpreter_call.in_progress",
            "response.code_interpreter_call.interpreting",
            "response.code_interpreter_call.completed",
            "response.image_generation_call.in_progress",
            "response.image_generation_call.generating",
            "response.image_generation_call.completed",
            "response.mcp_call.in_progress",
            "response.mcp_call.completed",
            "response.mcp_call.failed",
            "response.mcp_list_tools.in_progress",
            "response.mcp_list_tools.completed",
            "response.mcp_list_tools.failed",
        ],
        r#""output_index": 2, "item_id": "i""#,
    );
    add(
        &[
            "response.code_interpreter_call_code.delta",
            "response.mcp_call_arguments.delta",
            "response.custom_tool_call_input.delta",
            "response.function_call_arguments.delta",
        ],
        r#""output_index": 2, "item_id": "i", "delta": "d""#,
    );
    add(&["response.code_interpreter_call_code.done"], r#""output_index": 2, "code": "c""#);
    add(
        &["response.mcp_call_arguments.done", "response.function_call_arguments.done"],
        r#""output_index": 2, "arguments": "{}""#,
    );
    add(&["response.custom_tool_call_input.done"], r#""output_index": 2, "input": "i""#);
    add(
        &["response.audio.delta", "response.audio.transcript.delta"],
        r#""response_id": "r", "delta": "d""#,
    );
    add(&["response.audio.done", "response.audio.transcript.done"], r#""response_id": "r""#);
    add(
        &[
            "response.created",
            "response.queued",
            "response.in_progress",
            "response.completed",
            "response.failed",
            "response.incomplete",
        ],
        r#""response": {"id": "r"}"#,
    );
    add(
        &["response.output_item.added", "response.output_item.done"],
        r#""output_index": 0, "item": {"type": "message", "content": []}"#,
    );
    add(
        &["response.image_generation_call.partial_image"],
        r#""output_index": 0, "partial_image_index": 3, "partial_image_b64": "b""#,
    );
    add(
        &["response.output_text.annotation.added"],
        r#""output_index": 0, "content_index": 1, "annotation_index": 2, "annotation": {"type": "url_citation"}"#,
    );
    add(&["error"], r#""message": "m""#);
    frames
}

#[test]
fn every_modeled_event_names_its_own_type() {
    let frames = frames();
    assert_eq!(frames.len(), 53);
    for (kind, frame) in frames {
        let event = StreamEvent::decode(&frame).unwrap_or_else(|error| panic!("{kind}: {}", error.message()));
        assert!(!matches!(event, StreamEvent::Unmodeled { .. }), "{kind} is modeled");
        assert_eq!(event.kind(), kind);
        assert_eq!(event.clone(), event);
        assert_eq!(
            event.is_terminal(),
            ["response.completed", "response.failed", "response.incomplete", "error"].contains(&kind)
        );
    }
}

#[test]
fn every_required_field_is_required() {
    for (kind, frame) in frames() {
        let Json::Object(fields) = Json::parse(&frame).unwrap() else { panic!("{kind} is an object") };
        for left_out in ["output_index", "content_index", "summary_index", "delta", "response", "item", "annotation"] {
            if fields.iter().any(|(name, _)| name == left_out) {
                let rest = fields.iter().filter(|(name, _)| name != left_out).cloned().collect();
                match StreamEvent::from_json(&Json::Object(rest)) {
                    Err(FrameError::MissingField { field }) => assert_eq!(field, left_out),
                    other => panic!("{kind} without {left_out} decoded to {other:?}"),
                }
            }
        }
    }
}

fn decoded(frame: &str) -> StreamEvent {
    StreamEvent::decode(frame).unwrap()
}

#[test]
fn audio_and_images_carry_their_payload() {
    assert_eq!(
        decoded(r#"{"type": "response.audio.transcript.delta", "response_id": "r", "delta": "hello"}"#),
        StreamEvent::Audio {
            stream: AudioStream::Transcript,
            response_id: Some("r".to_owned()),
            delta: "hello".to_owned(),
            done: false,
        }
    );
    assert_eq!(
        decoded(r#"{"type": "response.audio.done", "delta": "ignored"}"#),
        StreamEvent::Audio { stream: AudioStream::Audio, response_id: None, delta: String::new(), done: true }
    );
    assert_eq!(
        decoded(
            r#"{"type": "response.image_generation_call.partial_image", "output_index": 1, "item_id": "ig",
                "partial_image_index": 2, "partial_image_b64": "AAAA"}"#
        ),
        StreamEvent::PartialImage {
            output_index: 1,
            item_id: Some("ig".to_owned()),
            partial_image_index: 2,
            partial_image_base64: "AAAA".to_owned(),
        }
    );
}

#[test]
fn composed_input_is_read_from_the_field_of_its_tool() {
    for (kind, field, tool) in [
        ("response.code_interpreter_call_code.done", "code", HostedTool::CodeInterpreter),
        ("response.mcp_call_arguments.done", "arguments", HostedTool::Mcp),
        ("response.custom_tool_call_input.done", "input", HostedTool::Custom),
    ] {
        assert_eq!(
            decoded(&format!(r#"{{"type": "{kind}", "output_index": 4, "{field}": "whole"}}"#)),
            StreamEvent::HostedToolInputDone {
                tool,
                output_index: 4,
                item_id: None,
                input: "whole".to_owned()
            }
        );
    }
}

#[test]
fn an_event_built_by_hand_for_a_pair_nobody_sends_spells_the_two_words() {
    let event = StreamEvent::HostedToolLifecycle {
        tool: HostedTool::Computer,
        phase: HostedToolPhase::Searching,
        output_index: 0,
        item_id: None,
    };
    assert_eq!(event.kind(), "response.computer.searching");
}

#[test]
fn every_hosted_call_item_names_its_tool() {
    for (kind, tool) in [
        ("file_search_call", HostedTool::FileSearch),
        ("web_search_call", HostedTool::WebSearch),
        ("code_interpreter_call", HostedTool::CodeInterpreter),
        ("image_generation_call", HostedTool::ImageGeneration),
        ("mcp_call", HostedTool::Mcp),
        ("mcp_list_tools", HostedTool::McpListTools),
        ("shell_call", HostedTool::Shell),
        ("local_shell_call", HostedTool::LocalShell),
        ("computer_call", HostedTool::Computer),
        ("apply_patch_call", HostedTool::ApplyPatch),
        ("custom_tool_call", HostedTool::Custom),
        ("tool_search_call", HostedTool::ToolSearch),
    ] {
        let event = decoded(&format!(
            r#"{{"type": "response.output_item.added", "output_index": 0, "item": {{"type": "{kind}"}}}}"#
        ));
        let StreamEvent::OutputItemAdded { item: OutputItem::HostedToolCall { tool: named, id, status, .. }, .. } =
            event
        else {
            panic!("{kind} is a hosted tool's call");
        };
        assert_eq!((named, id, status), (tool, None, None));
    }
}

#[test]
fn an_item_that_is_not_an_object_or_lacks_its_fields_is_refused() {
    let item = |item: &str| {
        StreamEvent::decode(&format!(
            r#"{{"type": "response.output_item.done", "output_index": 0, "item": {item}}}"#
        ))
    };
    assert!(matches!(item("3"), Err(FrameError::WrongType { field: "item", expected: "an object" })));
    assert!(matches!(item("{}"), Err(FrameError::MissingField { field: "type" })));
    assert!(matches!(
        item(r#"{"type": "function_call", "name": "f"}"#),
        Err(FrameError::MissingField { field: "call_id" })
    ));
    assert!(matches!(
        item(r#"{"type": "function_call", "call_id": "c"}"#),
        Err(FrameError::MissingField { field: "name" })
    ));
    assert!(matches!(item(r#"{"type": "reasoning"}"#), Err(FrameError::MissingField { field: "id" })));
    assert_eq!(
        item(r#"{"type": "message", "phase": "interlude", "content": [3, {"type": "output_text"}]}"#).unwrap(),
        StreamEvent::OutputItemDone {
            output_index: 0,
            item: OutputItem::Message { id: None, phase: None, text: String::new(), refusal: String::new() },
        }
    );
    assert!(matches!(
        item(r#"{"type": "message", "phase": "commentary"}"#).unwrap(),
        StreamEvent::OutputItemDone { item: OutputItem::Message { phase: Some(AssistantPhase::Commentary), .. }, .. }
    ));
}

#[test]
fn an_empty_response_object_is_the_default_snapshot() {
    assert_eq!(
        decoded(r#"{"type": "response.completed", "response": {}}"#),
        StreamEvent::Completed(ResponseSnapshot::default())
    );
    assert!(matches!(
        StreamEvent::decode(r#"{"type": "response.completed", "response": []}"#),
        Err(FrameError::WrongType { field: "response", expected: "an object" })
    ));
    let odd = decoded(
        r#"{"type": "response.completed", "response":
            {"id": 3, "status": "levitating", "error": "no", "service_tier": "turbo", "output": {}}}"#,
    );
    assert_eq!(odd, StreamEvent::Completed(ResponseSnapshot::default()));
}

#[test]
fn a_buffered_body_and_the_ending_that_carries_it_read_alike() {
    let body = r#"{"id": "r", "status": "incomplete", "model": "m", "service_tier": "priority",
        "incomplete_details": {"reason": "content_filter"},
        "output": [{"type": "reasoning", "id": "rs", "encrypted_content": "x"},
                   {"type": "function_call", "call_id": "c", "name": "f", "arguments": "{}"}],
        "usage": {"input_tokens": 3}}"#;
    let response = Response::decode(body).unwrap();
    for kind in ["response.completed", "response.failed", "response.incomplete"] {
        let event = decoded(&format!(r#"{{"type": "{kind}", "response": {body}}}"#));
        let (StreamEvent::Completed(snapshot) | StreamEvent::Failed(snapshot) | StreamEvent::Incomplete(snapshot)) =
            event
        else {
            panic!("{kind} ends a stream");
        };
        assert_eq!(snapshot.id, response.id);
        assert_eq!(snapshot.status, response.status);
        assert_eq!(snapshot.output, response.output);
        assert_eq!(snapshot.usage, response.usage);
        assert_eq!(snapshot.incomplete_reason, response.incomplete_reason);
        assert_eq!(snapshot.service_tier, response.service_tier);
    }
    assert_eq!(response.status, Some(ResponseStatus::Incomplete));
    assert_eq!(response.service_tier, Some(ServiceTier::Priority));
    assert_eq!(response.model.as_deref(), Some("m"));
    assert!(!response.is_completed());
    assert_eq!(response.function_calls()[0].name, "f");
    assert_eq!(response.replayable_reasoning()[0].encrypted_content, "x");
    assert_eq!(response.clone(), response);
    assert_eq!(response.raw, Json::parse(body).unwrap());
}

#[test]
fn a_buffered_body_joins_each_sort_of_text_in_order() {
    let response = Response::decode(
        r#"{"status": "completed", "output": [
            {"type": "message", "content": [{"type": "output_text", "text": "a"}, {"type": "refusal", "refusal": "no "}]},
            {"type": "reasoning", "id": "1", "summary": [{"text": "think "}]},
            {"type": "web_search_call"},
            {"type": "message", "content": [{"type": "output_text", "text": "b"}, {"type": "refusal", "refusal": "way"}]},
            {"type": "reasoning", "id": "2", "summary": [{"text": "twice"}]}]}"#,
    )
    .unwrap();
    assert!(response.is_completed());
    assert_eq!(response.text(), "ab");
    assert_eq!(response.refusal(), "no way");
    assert_eq!(response.reasoning_summary(), "think twice");
    assert!(response.replayable_reasoning().is_empty(), "nothing to replay without a payload");
    assert!(response.function_calls().is_empty());
}
