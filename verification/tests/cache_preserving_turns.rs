//! Two consecutive turns of one agent thread.

use openai::content::InputBlock;
use openai::context::{BreakpointSlot, Context};
use openai::json::{Json, Number};
use openai::model::{EffortNoneToMax, Model};
use openai::prefix::PrefixSettings;
use openai::request::{Request, UncacheableInstructions};
use openai::tools::{AllowedToolsMode, FunctionTool, ToolChoice};
use openai::values::{AssistantPhase, ReasoningContext, ReasoningMode};
use serde_json::Value;

/// A JSON text as a value.
fn parsed(text: &str) -> Value {
    serde_json::from_str(text).unwrap()
}

/// A JSON text as the library reads it.
fn json(text: &str) -> Json {
    Json::parse(text).unwrap()
}

/// What the library wrote, as a value.
fn wire(json: &Json) -> Value {
    match json {
        Json::Null => Value::Null,
        Json::Bool(b) => Value::Bool(*b),
        Json::Number(Number::PosInt(n)) => Value::from(*n),
        Json::Number(Number::NegInt(n)) => Value::from(*n),
        Json::Number(Number::Float(text)) => serde_json::from_str(text).unwrap(),
        Json::Text(text) => Value::String(text.clone()),
        Json::Array(items) => Value::Array(items.iter().map(wire).collect()),
        Json::Object(fields) => {
            Value::Object(fields.iter().map(|(name, field)| (name.clone(), wire(field))).collect())
        }
    }
}

fn tools() -> Vec<FunctionTool> {
    vec![
        FunctionTool::new("read_file", json(r#"{"type": "object", "properties": {"path": {"type": "string"}}}"#))
            .with_description("Read a file")
            .with_strict_arguments(),
        FunctionTool::new("write_file", json(r#"{"type": "object", "properties": {"path": {"type": "string"}}}"#))
            .with_description("Write a file")
            .with_strict_arguments(),
    ]
}

#[test]
fn the_first_turn_of_a_thread_is_exactly_this_body() {
    let mut context = Context::new(tools());
    context.push_anchored_developer_text(BreakpointSlot::S0, "You edit files. Stable instructions.").unwrap();
    context.push_user_text("Read a.rs");

    let model = Model::gpt_5_6_sol()
        .with_effort(EffortNoneToMax::Medium)
        .with_mode(ReasoningMode::Standard)
        .with_reasoning_context(ReasoningContext::AllTurns);
    let request = Request::new(&context, PrefixSettings::new(model))
        .unwrap()
        .with_prompt_cache_key("agent_v1:user_42")
        .with_max_output_tokens(8_192)
        .unwrap();

    assert_eq!(
        wire(&request.to_json()),
        parsed(r#"{
            "model": "gpt-5.6-sol",
            "tools": [
                {
                    "type": "function",
                    "name": "read_file",
                    "description": "Read a file",
                    "parameters": {"type": "object", "properties": {"path": {"type": "string"}}},
                    "strict": true
                },
                {
                    "type": "function",
                    "name": "write_file",
                    "description": "Write a file",
                    "parameters": {"type": "object", "properties": {"path": {"type": "string"}}},
                    "strict": true
                }
            ],
            "input": [
                {
                    "type": "message",
                    "role": "developer",
                    "content": [{
                        "type": "input_text",
                        "text": "You edit files. Stable instructions.",
                        "prompt_cache_breakpoint": {"mode": "explicit"}
                    }]
                },
                {
                    "type": "message",
                    "role": "user",
                    "content": [{"type": "input_text", "text": "Read a.rs"}]
                }
            ],
            "parallel_tool_calls": true,
            "text": {"format": {"type": "text"}, "verbosity": "medium"},
            "reasoning": {"effort": "medium", "mode": "standard", "context": "all_turns"},
            "tool_choice": "auto",
            "prompt_cache_options": {"mode": "implicit", "ttl": "30m"},
            "prompt_cache_key": "agent_v1:user_42",
            "max_output_tokens": 8192,
            "stream": false,
            "store": true,
            "background": false
        }"#)
    );
}

#[test]
fn the_second_turn_extends_the_first_prefix_byte_for_byte() {
    let mut context = Context::new(tools());
    context.push_anchored_developer_text(BreakpointSlot::S0, "You edit files. Stable instructions.").unwrap();
    context.push_user_text("Read a.rs");

    let prefix = PrefixSettings::new(Model::gpt_5_6_sol());
    let build = |context: &Context| -> Value {
        wire(&Request::new(context, prefix.clone())
                .unwrap()
                .with_prompt_cache_key("agent_v1:user_42")
                .with_max_output_tokens(8_192)
                .unwrap().to_json())
    };
    let first = build(&context);
    let first_item_count = first["input"].as_array().unwrap().len();

    context.push_reasoning("rs_1", "opaque-reasoning-payload");
    context.push_function_call("call_1", "read_file", r#"{"path":"a.rs"}"#);
    context.push_function_call_output_blocks("call_1", vec![InputBlock::text("fn main() {}")]);
    context.roll_breakpoint(BreakpointSlot::S1).unwrap();
    context.push_assistant_text(AssistantPhase::FinalAnswer, "It is a main function.");
    context.push_user_text("Now rename it.");

    let second = build(&context);

    let mut truncated = second.clone();
    truncated["input"] =
        Value::Array(second["input"].as_array().unwrap().iter().take(first_item_count).cloned().collect());
    assert_eq!(truncated, first, "turn two must extend turn one, not differ from it");

    let kinds: Vec<&str> = second["input"].as_array().unwrap().iter().map(|i| i["type"].as_str().unwrap()).collect();
    assert_eq!(
        kinds,
        ["message", "message", "reasoning", "function_call", "function_call_output", "message", "message"]
    );
    assert_eq!(second["input"][0]["content"][0]["prompt_cache_breakpoint"], parsed(r#"{"mode": "explicit"}"#));
    assert_eq!(second["input"][4]["output"][0]["prompt_cache_breakpoint"], parsed(r#"{"mode": "explicit"}"#));
    assert_eq!(context.breakpoint_count(), 2);
}

#[test]
fn restricting_tools_changes_one_field_and_no_prefix_byte() {
    let mut context = Context::new(tools());
    context.push_anchored_developer_text(BreakpointSlot::S0, "You edit files.").unwrap();
    context.push_user_text("Read a.rs");

    let prefix = PrefixSettings::new(Model::gpt_5_6_sol());
    let unrestricted = wire(&Request::new(&context, prefix.clone()).unwrap().to_json());

    let allowed = context.allow_tools(AllowedToolsMode::Auto, &["read_file"]).unwrap();
    let mut restricted =
        wire(&Request::new(&context, prefix).unwrap().with_tool_choice(ToolChoice::Allowed(allowed)).to_json());

    assert_eq!(
        restricted["tool_choice"],
        parsed(r#"{"type": "allowed_tools", "mode": "auto", "tools": [{"type": "function", "name": "read_file"}]}"#)
    );
    restricted["tool_choice"] = parsed(r#""auto""#);
    assert_eq!(restricted, unrestricted, "only tool_choice may differ");
}

#[test]
fn stable_and_volatile_instructions_land_in_different_places() {
    let mut context = Context::new(vec![]);
    context.push_anchored_developer_text(BreakpointSlot::S0, "Stable rubric and examples.").unwrap();
    context.push_user_text("Interaction to judge.");

    let request = Request::new(&context, PrefixSettings::new(Model::gpt_5_6_sol().with_explicit_cache_only()))
        .unwrap()
        .with_instructions(UncacheableInstructions::new("Today is 2026-08-28."));
    let v = wire(&request.to_json());

    assert_eq!(v["instructions"], "Today is 2026-08-28.");
    assert!(v["instructions"].get("prompt_cache_breakpoint").is_none());
    assert_eq!(v["input"][0]["content"][0]["prompt_cache_breakpoint"], parsed(r#"{"mode": "explicit"}"#));
    assert_eq!(v["prompt_cache_options"], parsed(r#"{"mode": "explicit", "ttl": "30m"}"#));
}
