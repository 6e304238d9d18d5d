//! Content blocks and input items as they are sent.

use openai::content::{
    BreakpointableBlock, FunctionCall, FunctionCallOutput, FunctionOutput, ImageSource, InputBlock, InputItem,
    Message, OutputBlock, ReplayedReasoning,
};
use openai::json::{Json, Number};
use openai::values::{AssistantPhase, ImageDetail, InputRole};
use serde_json::Value;

/// A JSON text as a value.
fn parsed(text: &str) -> Value {
    serde_json::from_str(text).unwrap()
}

/// What the library wrote, as a value.
fn wire(json: &Json) -> Value {
    match json {
        Json::Null => Value::Null,
        Json::Bool(b) => Value::Bool(*b),
        Json::Number(Number::PosInt(n)) => Value::from(*n),
        Json::Number(Number::NegInt(n)) => Value::from(*n),
        Json::Number(Number::Float(text)) => serde_json::from_str(text).unwrap(),
        Json::Text(text) => Value::String(text.clone()),
        Json::Array(items) => Value::Array(items.iter().map(wire).collect()),
        Json::Object(fields) => {
            Value::Object(fields.iter().map(|(name, field)| (name.clone(), wire(field))).collect())
        }
    }
}

#[test]
fn a_fresh_text_block_carries_no_breakpoint() {
    let block = InputBlock::text("hello");
    assert!(!block.has_breakpoint());
    assert_eq!(wire(&block.to_json()), parsed(r#"{"type": "input_text", "text": "hello"}"#));
}

#[test]
fn an_image_emits_exactly_one_source_field() {
    let url = InputBlock::image(ImageSource::Url("https://example.test/a.png".into()), ImageDetail::High);
    assert_eq!(
        wire(&url.to_json()),
        parsed(r#"{"type": "input_image", "detail": "high", "image_url": "https://example.test/a.png"}"#)
    );

    let file = InputBlock::image(ImageSource::FileId("file-123".into()), ImageDetail::Auto);
    assert_eq!(
        wire(&file.to_json()),
        parsed(r#"{"type": "input_image", "detail": "auto", "file_id": "file-123"}"#)
    );
}

#[test]
fn an_assistant_turn_speaks_the_output_vocabulary() {
    let item = InputItem::Message(Message::Assistant {
        phase: AssistantPhase::FinalAnswer,
        content: vec![OutputBlock::text("blue")],
    });
    assert_eq!(
        wire(&item.to_json()),
        parsed(r#"{
            "type": "message",
            "role": "assistant",
            "content": [{"type": "output_text", "text": "blue"}],
            "phase": "final_answer"
        }"#)
    );
}

#[test]
fn a_refusal_is_a_thing_an_assistant_can_have_said() {
    let item = InputItem::Message(Message::Assistant {
        phase: AssistantPhase::FinalAnswer,
        content: vec![OutputBlock::refusal("I can't help with that.")],
    });
    assert_eq!(
        wire(&item.to_json()),
        parsed(r#"{
            "type": "message",
            "role": "assistant",
            "content": [{"type": "refusal", "refusal": "I can't help with that."}],
            "phase": "final_answer"
        }"#)
    );
}

#[test]
fn a_refusal_offers_no_breakpoint_site() {
    let mut item = InputItem::Message(Message::Assistant {
        phase: AssistantPhase::Commentary,
        content: vec![OutputBlock::refusal("no")],
    });
    assert_eq!(item.last_breakpoint_site(), None);
    assert!(item.breakpoint_site_mut(0).is_none());
    assert_eq!(item.breakpoint_count(), 0);
}

#[test]
fn a_message_always_uses_a_block_array() {
    let item = InputItem::Message(Message::Input { role: InputRole::User, content: vec![InputBlock::text("hi")] });
    assert_eq!(
        wire(&item.to_json()),
        parsed(r#"{"type": "message", "role": "user", "content": [{"type": "input_text", "text": "hi"}]}"#)
    );
}

#[test]
fn phase_rides_only_on_assistant_messages() {
    let assistant = InputItem::Message(Message::Assistant {
        phase: AssistantPhase::FinalAnswer,
        content: vec![OutputBlock::text("done")],
    });
    assert_eq!(wire(&assistant.to_json())["phase"], "final_answer");

    let user = InputItem::Message(Message::Input { role: InputRole::User, content: vec![InputBlock::text("hi")] });
    assert!(wire(&user.to_json()).get("phase").is_none());
}

#[test]
fn function_call_arguments_are_bytes_not_values() {
    let item = InputItem::FunctionCall(FunctionCall {
        call_id: "call_1".into(),
        name: "read_file".into(),
        arguments: r#"{"path":"a.rs"}"#.into(),
    });
    assert_eq!(
        wire(&item.to_json()),
        parsed(r#"{
            "type": "function_call",
            "call_id": "call_1",
            "name": "read_file",
            "arguments": "{\"path\":\"a.rs\"}"
        }"#)
    );
}

#[test]
fn a_function_output_can_be_a_string_or_input_blocks() {
    let text = InputItem::FunctionCallOutput(FunctionCallOutput {
        call_id: "call_1".into(),
        output: FunctionOutput::Text("42".into()),
    });
    assert_eq!(wire(&text.to_json())["output"], "42");

    let blocks = InputItem::FunctionCallOutput(FunctionCallOutput {
        call_id: "call_1".into(),
        output: FunctionOutput::Blocks(vec![InputBlock::text("42")]),
    });
    assert_eq!(wire(&blocks.to_json())["output"][0]["type"], "input_text");
}

#[test]
fn replayed_reasoning_carries_only_what_openai_returned() {
    let item = InputItem::Reasoning(ReplayedReasoning { id: "rs_1".into(), encrypted_content: "opaque".into() });
    assert_eq!(
        wire(&item.to_json()),
        parsed(r#"{"type": "reasoning", "id": "rs_1", "encrypted_content": "opaque", "summary": []}"#)
    );
}

#[test]
fn items_without_blocks_offer_no_breakpoint_site() {
    let call = InputItem::FunctionCall(FunctionCall {
        call_id: "call_1".into(),
        name: "f".into(),
        arguments: "{}".into(),
    });
    assert_eq!(call.last_breakpoint_site(), None);

    let string_output = InputItem::FunctionCallOutput(FunctionCallOutput {
        call_id: "call_1".into(),
        output: FunctionOutput::Text("ok".into()),
    });
    assert_eq!(string_output.last_breakpoint_site(), None);
}
