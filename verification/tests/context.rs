//! Conversation state: the frozen tools, the items and the breakpoints.

use openai::content::{ImageSource, InputBlock, InputItem};
use openai::context::{
    BreakpointError, BreakpointSlot, Context, CACHE_READ_BREAKPOINT_LOOKBACK, CACHE_WRITE_SLOTS,
};
use openai::json::{Json, Number};
use openai::tools::{AllowedToolsError, AllowedToolsMode, FunctionTool};
use openai::values::{AssistantPhase, ImageDetail};
use serde_json::Value;

/// A JSON text as a value.
fn parsed(text: &str) -> Value {
    serde_json::from_str(text).unwrap()
}

/// A JSON text as the library reads it.
fn json(text: &str) -> Json {
    Json::parse(text).unwrap()
}

/// What the library wrote, as a value.
fn wire(json: &Json) -> Value {
    match json {
        Json::Null => Value::Null,
        Json::Bool(b) => Value::Bool(*b),
        Json::Number(Number::PosInt(n)) => Value::from(*n),
        Json::Number(Number::NegInt(n)) => Value::from(*n),
        Json::Number(Number::Float(text)) => serde_json::from_str(text).unwrap(),
        Json::Text(text) => Value::String(text.clone()),
        Json::Array(items) => Value::Array(items.iter().map(wire).collect()),
        Json::Object(fields) => {
            Value::Object(fields.iter().map(|(name, field)| (name.clone(), wire(field))).collect())
        }
    }
}

/// A context's items, as values.
fn items(context: &Context) -> Value {
    Value::Array(context.items().iter().map(|item| wire(&item.to_json())).collect())
}

fn tools() -> Vec<FunctionTool> {
    vec![
        FunctionTool::new("read_file", json(r#"{"type": "object"}"#)),
        FunctionTool::new("write_file", json(r#"{"type": "object"}"#)),
    ]
}

fn breakpoints(context: &Context) -> usize {
    context.items().iter().map(InputItem::breakpoint_count).sum()
}

#[test]
fn a_new_context_holds_its_tools_and_nothing_else() {
    let context = Context::new(tools());
    assert_eq!(context.tools().len(), 2);
    assert!(context.items().is_empty());
    assert_eq!(context.breakpoint_count(), 0);
}

#[test]
fn allowed_tools_must_name_tools_that_exist() {
    let context = Context::new(tools());
    let ok = context.allow_tools(AllowedToolsMode::Auto, &["read_file"]).unwrap();
    assert_eq!(ok.names(), ["read_file"]);
    assert_eq!(ok.mode(), AllowedToolsMode::Auto);

    assert_eq!(
        context.allow_tools(AllowedToolsMode::Auto, &["nope"]),
        Err(AllowedToolsError::UnknownTool("nope".into()))
    );
    assert_eq!(context.allow_tools(AllowedToolsMode::Auto, &[]), Err(AllowedToolsError::EmptyAllowedSet));
    assert_eq!(
        context.allow_tools(AllowedToolsMode::Auto, &["read_file", "read_file"]),
        Err(AllowedToolsError::DuplicateTool("read_file".into()))
    );
}

#[test]
fn an_anchored_developer_message_carries_the_breakpoint() {
    let mut context = Context::new(vec![]);
    context.push_anchored_developer_text(BreakpointSlot::S0, "stable").unwrap();
    assert_eq!(context.breakpoint_count(), 1);
    assert_eq!(breakpoints(&context), 1);
    assert!(context.is_anchored(BreakpointSlot::S0));

    let v = items(&context);
    assert_eq!(v[0]["role"], "developer");
    assert_eq!(v[0]["content"][0]["prompt_cache_breakpoint"], parsed(r#"{"mode": "explicit"}"#));
}

#[test]
fn anchors_refuse_to_move_or_clear() {
    let mut context = Context::new(vec![]);
    context.push_anchored_developer_text(BreakpointSlot::S0, "stable").unwrap();
    context.push_user_text("question");

    assert_eq!(
        context.roll_breakpoint(BreakpointSlot::S0),
        Err(BreakpointError::SlotIsAnchored(BreakpointSlot::S0))
    );
    assert_eq!(
        context.clear_breakpoint(BreakpointSlot::S0),
        Err(BreakpointError::SlotIsAnchored(BreakpointSlot::S0))
    );
    let v = items(&context);
    assert!(v[0]["content"][0].get("prompt_cache_breakpoint").is_some());
    assert!(v[1]["content"][0].get("prompt_cache_breakpoint").is_none());
}

#[test]
fn a_slot_is_never_silently_reused() {
    let mut context = Context::new(vec![]);
    context.push_anchored_developer_text(BreakpointSlot::S0, "stable").unwrap();
    assert_eq!(
        context.push_anchored_developer_text(BreakpointSlot::S0, "other"),
        Err(BreakpointError::SlotAlreadyInUse(BreakpointSlot::S0))
    );
    context.push_user_text("q");
    assert_eq!(
        context.anchor_breakpoint(BreakpointSlot::S0),
        Err(BreakpointError::SlotAlreadyInUse(BreakpointSlot::S0))
    );
}

#[test]
fn rolling_moves_the_mark_and_nothing_else() {
    let mut context = Context::new(vec![]);
    context.push_user_text("one");
    context.roll_breakpoint(BreakpointSlot::S1).unwrap();
    assert_eq!(breakpoints(&context), 1);

    context.push_assistant_text(AssistantPhase::FinalAnswer, "two");
    context.push_user_text("three");
    context.roll_breakpoint(BreakpointSlot::S1).unwrap();

    let v = items(&context);
    assert!(v[0]["content"][0].get("prompt_cache_breakpoint").is_none());
    assert_eq!(v[2]["content"][0]["prompt_cache_breakpoint"], parsed(r#"{"mode": "explicit"}"#));
    assert_eq!(v[0]["content"][0]["text"], "one");
    assert_eq!(v[2]["content"][0]["text"], "three");
    assert_eq!(breakpoints(&context), 1);
    assert_eq!(context.breakpoint_count(), 1);
}

#[test]
fn rolling_to_the_same_place_is_idempotent() {
    let mut context = Context::new(vec![]);
    context.push_user_text("one");
    context.roll_breakpoint(BreakpointSlot::S0).unwrap();
    context.roll_breakpoint(BreakpointSlot::S0).unwrap();
    assert_eq!(breakpoints(&context), 1);
    assert_eq!(context.breakpoint_count(), 1);
}

#[test]
fn clearing_frees_the_slot_and_the_mark() {
    let mut context = Context::new(vec![]);
    context.push_user_text("one");
    context.roll_breakpoint(BreakpointSlot::S2).unwrap();
    context.clear_breakpoint(BreakpointSlot::S2).unwrap();
    assert_eq!(context.breakpoint_count(), 0);
    assert_eq!(breakpoints(&context), 0);
    assert_eq!(context.clear_breakpoint(BreakpointSlot::S2), Err(BreakpointError::SlotIsEmpty(BreakpointSlot::S2)));
}

#[test]
fn two_slots_cannot_mark_one_block() {
    let mut context = Context::new(vec![]);
    context.push_user_text("one");
    context.roll_breakpoint(BreakpointSlot::S0).unwrap();
    assert_eq!(context.roll_breakpoint(BreakpointSlot::S1), Err(BreakpointError::BlockAlreadyMarked));
    assert_eq!(context.breakpoint_count(), 1);
}

#[test]
fn there_is_nothing_to_mark_in_an_empty_context() {
    let mut context = Context::new(vec![]);
    assert_eq!(context.roll_breakpoint(BreakpointSlot::S0), Err(BreakpointError::NoBlockToMark));
    assert_eq!(context.anchor_breakpoint(BreakpointSlot::S0), Err(BreakpointError::NoBlockToMark));
}

#[test]
fn blockless_items_are_skipped_when_looking_for_a_boundary() {
    let mut context = Context::new(tools());
    context.push_user_text("go");
    context.push_function_call("call_1", "read_file", r#"{"path":"a"}"#);
    context.push_function_call_output("call_1", "contents");
    context.roll_breakpoint(BreakpointSlot::S0).unwrap();

    let v = items(&context);
    assert_eq!(v[0]["content"][0]["prompt_cache_breakpoint"], parsed(r#"{"mode": "explicit"}"#));
    assert!(v[2].get("prompt_cache_breakpoint").is_none());
}

#[test]
fn a_block_valued_function_output_can_be_marked() {
    let mut context = Context::new(tools());
    context.push_user_text("go");
    context.push_function_call("call_1", "read_file", "{}");
    context.push_function_call_output_blocks("call_1", vec![InputBlock::text("contents")]);
    context.roll_breakpoint(BreakpointSlot::S0).unwrap();

    let v = items(&context);
    assert_eq!(v[2]["output"][0]["prompt_cache_breakpoint"], parsed(r#"{"mode": "explicit"}"#));
}

#[test]
fn a_breakpoint_can_mark_the_last_block_of_a_multi_block_message() {
    let mut context = Context::new(vec![]);
    context.push_user(vec![
        InputBlock::text("look at this"),
        InputBlock::image(ImageSource::FileId("file-1".into()), ImageDetail::Low),
    ]);
    context.roll_breakpoint(BreakpointSlot::S0).unwrap();

    let v = items(&context);
    assert!(v[0]["content"][0].get("prompt_cache_breakpoint").is_none());
    assert_eq!(v[0]["content"][1]["prompt_cache_breakpoint"], parsed(r#"{"mode": "explicit"}"#));
}

#[test]
fn four_slots_fill_and_there_is_no_fifth() {
    let mut context = Context::new(vec![]);
    for (i, slot) in BreakpointSlot::ALL.iter().enumerate() {
        context.push_user_text(&format!("turn {i}"));
        context.roll_breakpoint(*slot).unwrap();
    }
    assert_eq!(context.breakpoint_count(), CACHE_WRITE_SLOTS);
    assert_eq!(breakpoints(&context), CACHE_WRITE_SLOTS);
    assert_eq!(BreakpointSlot::ALL.len(), CACHE_WRITE_SLOTS);
}

#[test]
fn reads_look_further_back_than_writes_reach() {
    assert!(CACHE_READ_BREAKPOINT_LOOKBACK > CACHE_WRITE_SLOTS);
}
