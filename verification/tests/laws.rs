//! What holds across several calls, on concrete values.

use openai::content::{BreakpointableBlock, FunctionOutput, InputBlock, InputItem, Message, OutputBlock};
use openai::context::{BreakpointError, BreakpointSlot, Context};
use openai::items::{OutputItem, ResponseSnapshot};
use openai::json::Json;
use openai::metadata::Metadata;
use openai::model::{Gpt5_4, Gpt5_5, Gpt5_5Pro, Gpt5_6, Gpt5_6Tier, Gpt6Sol, Model, ModelId};
use openai::prefix::{PrefixSettings, TextFormat};
use openai::request::{CacheWriteBudget, Request, Transport, UncacheableInstructions};
use openai::settle::Settling;
use openai::stream::{PartBoundary, StreamEvent, TextStream};
use openai::tools::{FunctionTool, ToolChoice};
use openai::usage::{InputTokensDetails, OutputTokensDetails, Usage};
use openai::values::{
    AssistantPhase, CacheRetention, Include, InputRole, ReasoningSummary, ServiceTier, Truncation, Verbosity,
};

fn tool(name: &str) -> FunctionTool {
    FunctionTool::new(name, Json::object(vec![]))
}

/// The names of an object's fields, in order.
fn names(json: &Json) -> Vec<&str> {
    match json {
        Json::Object(fields) => fields.iter().map(|(name, _)| name.as_str()).collect(),
        other => panic!("{other:?} is not an object"),
    }
}

fn models() -> Vec<Model> {
    vec![
        Model::from(Gpt5_6::new(Gpt5_6Tier::Sol)),
        Model::from(Gpt6Sol::new()),
        Model::from(Gpt5_5::new()),
        Model::from(Gpt5_5Pro::new()),
        Model::from(Gpt5_4::new().with_retention(CacheRetention::InMemory)),
    ]
}

#[test]
fn a_body_writes_its_fields_in_prefix_order() {
    let mut context = Context::new(vec![tool("f")]);
    context.push_user_text("hi");
    let prefix = PrefixSettings::new(Model::gpt_5_6_sol())
        .with_compaction(Some(1))
        .with_reasoning_summary(ReasoningSummary::Auto);
    let request = Request::new(&context, prefix)
        .unwrap()
        .with_instructions(UncacheableInstructions::new("now"))
        .with_prompt_cache_key("k")
        .with_max_output_tokens(1)
        .unwrap()
        .with_replayable_reasoning()
        .with_service_tier(ServiceTier::Default)
        .with_metadata(Metadata::new(vec![("a".to_owned(), "b".to_owned())]).unwrap())
        .with_safety_identifier("s")
        .with_truncation(Truncation::Disabled)
        .with_max_tool_calls(2)
        .streaming_with_obfuscation(true);
    assert_eq!(
        names(&request.to_json()),
        [
            "model",
            "tools",
            "instructions",
            "input",
            "parallel_tool_calls",
            "text",
            "reasoning",
            "tool_choice",
            "prompt_cache_options",
            "prompt_cache_key",
            "context_management",
            "max_output_tokens",
            "include",
            "service_tier",
            "metadata",
            "safety_identifier",
            "truncation",
            "max_tool_calls",
            "stream",
            "stream_options",
            "store",
            "background",
        ]
    );
}

#[test]
fn a_body_carries_one_caching_field() {
    let context = Context::new(vec![]);
    for model in models() {
        let breakpoints = model.id().supports_explicit_cache_breakpoints();
        let body = Request::new(&context, PrefixSettings::new(model)).unwrap().to_json();
        assert_eq!(body.get("prompt_cache_options").is_some(), breakpoints);
        assert_eq!(body.get("prompt_cache_retention").is_some(), !breakpoints);
    }
}

#[test]
fn an_empty_object_or_list_is_never_sent() {
    let context = Context::new(vec![]);
    for model in models() {
        let body = Request::new(&context, PrefixSettings::new(model)).unwrap().to_json();
        assert!(body.get("tools").is_none());
        assert!(body.get("include").is_none());
        assert!(body.get("stream_options").is_none());
        if let Some(reasoning) = body.get("reasoning") {
            assert!(!names(reasoning).is_empty());
        }
    }
}

#[test]
fn per_call_settings_never_reach_the_prefix() {
    let mut context = Context::new(vec![tool("f"), tool("g")]);
    context.push_anchored_developer_text(BreakpointSlot::S0, "stable").unwrap();
    let prefix = PrefixSettings::new(Model::gpt_5_6_sol())
        .with_text_format(TextFormat::json_schema("s", Json::object(vec![])))
        .with_verbosity(Verbosity::High);
    let plain = Request::new(&context, prefix.clone()).unwrap().to_json();
    let varied = Request::new(&context, prefix)
        .unwrap()
        .with_tool_choice(ToolChoice::Function("g".to_owned()))
        .with_prompt_cache_key("k")
        .with_max_output_tokens(9)
        .unwrap()
        .streaming()
        .without_storage()
        .with_instructions(UncacheableInstructions::new("now"))
        .including(Include::FileSearchCallResults)
        .in_background()
        .to_json();
    for field in [
        "model",
        "tools",
        "input",
        "parallel_tool_calls",
        "text",
        "reasoning",
        "prompt_cache_options",
        "prompt_cache_retention",
        "context_management",
    ] {
        assert_eq!(plain.get(field), varied.get(field), "{field} is part of the prefix");
    }
    assert_ne!(plain.get("tool_choice"), varied.get("tool_choice"));
}

#[test]
fn a_later_turn_only_appends_input() {
    let mut context = Context::new(vec![tool("f")]);
    context.push_user_text("one");
    let first = Request::new(&context, PrefixSettings::new(Model::gpt_5_5())).unwrap().to_json();
    context.push_assistant_text(AssistantPhase::FinalAnswer, "two");
    context.push_user_text("three");
    let second = Request::new(&context, PrefixSettings::new(Model::gpt_5_5())).unwrap().to_json();
    assert_eq!(names(&first), names(&second));
    for name in names(&first) {
        if name == "input" {
            let (before, after) = (first.array_at(name).unwrap(), second.array_at(name).unwrap());
            assert_eq!((before.len(), after.len()), (1, 3));
            assert_eq!(before[..], after[..1]);
        } else {
            assert_eq!(first.get(name), second.get(name));
        }
    }
}

#[test]
fn the_budget_and_the_implicit_breakpoint_make_four_writes() {
    for model in models() {
        let budget = CacheWriteBudget::of(&model);
        if model.id().supports_explicit_cache_breakpoints() {
            assert_eq!(budget.explicit_slots + usize::from(budget.implicit_breakpoint), 4);
        } else {
            assert_eq!(budget, CacheWriteBudget { explicit_slots: 0, implicit_breakpoint: true });
        }
    }
    let explicit = Model::from(Gpt6Sol::new().with_explicit_cache_only());
    assert_eq!(
        CacheWriteBudget::of(&explicit),
        CacheWriteBudget { explicit_slots: 4, implicit_breakpoint: false }
    );
}

#[test]
fn excluding_undoes_including() {
    let context = Context::new(vec![]);
    let request = Request::new(&context, PrefixSettings::new(Model::gpt_5_6_luna()))
        .unwrap()
        .including(Include::WebSearchCallResults)
        .including(Include::MessageInputImageUrl)
        .excluding(Include::WebSearchCallResults);
    assert_eq!(request.includes, [Include::MessageInputImageUrl]);
    assert_eq!(request.excluding(Include::MessageInputImageUrl).includes, []);
    assert_eq!(Transport::default(), Transport::Buffered);
}

#[test]
fn an_anchor_stays_while_the_thread_grows() {
    let mut context = Context::new(vec![]);
    context.push_anchored_developer_text(BreakpointSlot::S0, "stable").unwrap();
    context.push_user_text("one");
    context.roll_breakpoint(BreakpointSlot::S1).unwrap();
    context.push_function_call_output_blocks("c", vec![InputBlock::text("result")]);
    context.roll_breakpoint(BreakpointSlot::S1).unwrap();
    assert!(context.is_anchored(BreakpointSlot::S0));
    assert!(!context.is_anchored(BreakpointSlot::S1));
    let marks: Vec<usize> = context.items().iter().map(InputItem::breakpoint_count).collect();
    assert_eq!(marks, [1, 0, 1]);
    assert_eq!(context.clear_breakpoint(BreakpointSlot::S0), Err(BreakpointError::SlotIsAnchored(BreakpointSlot::S0)));
    context.clear_breakpoint(BreakpointSlot::S1).unwrap();
    assert_eq!(context.breakpoint_count(), 1);
}

/// The breakpoints the items carry, added up.
fn carried(context: &Context) -> usize {
    context.items().iter().map(InputItem::breakpoint_count).sum()
}

/// The blocks of a message in the input vocabulary, as they stand.
fn blocks_of(item: &InputItem) -> Vec<InputBlock> {
    match item {
        InputItem::Message(Message::Input { content, .. }) => content.clone(),
        other => panic!("{other:?} is not an input message"),
    }
}

#[test]
fn marked_blocks_are_appended_without_their_marks() {
    let mut source = Context::new(vec![]);
    source.push_user_text("one");
    source.roll_breakpoint(BreakpointSlot::S0).unwrap();
    source.push_assistant_text(AssistantPhase::FinalAnswer, "two");
    source.roll_breakpoint(BreakpointSlot::S1).unwrap();
    assert_eq!(carried(&source), 2);

    let asked = blocks_of(&source.items()[0]);
    assert!(asked[0].has_breakpoint());
    let said = match &source.items()[1] {
        InputItem::Message(Message::Assistant { content, .. }) => content.clone(),
        other => panic!("{other:?} is not an assistant message"),
    };
    assert!(said[0].has_breakpoint());

    let mut context = Context::new(vec![]);
    context.push_developer(asked.clone());
    context.push_user(asked.clone());
    context.push_input(InputRole::User, asked.clone());
    context.push_function_call_output_blocks("c", asked);
    context.push_assistant(AssistantPhase::FinalAnswer, said.clone());
    context.push_assistant_item(AssistantPhase::Commentary, said);
    assert_eq!(context.breakpoint_count(), 0);
    assert_eq!(carried(&context), 0);
    assert_eq!(blocks_of(&context.items()[1]), [InputBlock::text("one")]);
    assert!(matches!(
        &context.items()[4],
        InputItem::Message(Message::Assistant { content, .. }) if *content == [OutputBlock::text("two")]
    ));
    assert!(Request::new(&context, PrefixSettings::new(Model::gpt_5_5())).is_ok());
}

#[test]
fn a_mark_set_by_hand_does_not_reach_a_context() {
    let mut source = Context::new(vec![]);
    source.push_user_text("one");
    source.roll_breakpoint(BreakpointSlot::S0).unwrap();
    let mut marked = source.items()[0].clone();
    let mark = *marked.breakpoint_site_mut(0).unwrap();

    let mut context = Context::new(vec![]);
    for text in ["a", "b", "c", "d", "e"] {
        let mut item = InputItem::Message(Message::Input {
            role: InputRole::User,
            content: vec![InputBlock::text(text)],
        });
        *item.breakpoint_site_mut(0).unwrap() = mark;
        assert_eq!(item.breakpoint_count(), 1);
        context.push_user(blocks_of(&item));
    }
    assert_eq!(context.breakpoint_count(), 0);
    assert_eq!(carried(&context), 0);
}

#[test]
fn the_slots_count_the_breakpoints() {
    let mut context = Context::new(vec![]);
    for (n, slot) in BreakpointSlot::ALL.into_iter().enumerate() {
        assert_eq!(context.breakpoint_count(), n);
        assert_eq!(carried(&context), n);
        let again = context.items().last().map(blocks_of).unwrap_or_else(|| vec![InputBlock::text("one")]);
        context.push_user(again);
        context.roll_breakpoint(slot).unwrap();
    }
    assert_eq!(context.breakpoint_count(), 4);
    assert_eq!(carried(&context), 4);
    context.push_user_text("two");
    for slot in BreakpointSlot::ALL {
        let _ = context.roll_breakpoint(slot);
        assert_eq!(context.breakpoint_count(), 4);
        assert_eq!(carried(&context), 4);
    }
    context.clear_breakpoint(BreakpointSlot::S2).unwrap();
    assert_eq!(context.breakpoint_count(), 3);
    assert_eq!(carried(&context), 3);
}

#[test]
fn empty_metadata_in_the_field_is_not_sent() {
    let context = Context::new(vec![]);
    let mut request = Request::new(&context, PrefixSettings::new(Model::gpt_5_6_sol())).unwrap();
    request.metadata = Some(Metadata::new(vec![]).unwrap());
    assert!(request.to_json().get("metadata").is_none());
    request.metadata = Some(Metadata::new(vec![("a".to_owned(), "b".to_owned())]).unwrap());
    assert_eq!(
        request.to_json().get("metadata"),
        Some(&Json::object(vec![("a".to_owned(), Json::text("b"))]))
    );
}

#[test]
fn clearing_undoes_a_first_roll() {
    let mut context = Context::new(vec![]);
    context.push_user_text("one");
    let before: Vec<Json> = context.items().iter().map(InputItem::to_json).collect();
    context.roll_breakpoint(BreakpointSlot::S3).unwrap();
    let marked: Vec<Json> = context.items().iter().map(InputItem::to_json).collect();
    assert_ne!(before, marked);
    context.clear_breakpoint(BreakpointSlot::S3).unwrap();
    let after: Vec<Json> = context.items().iter().map(InputItem::to_json).collect();
    assert_eq!(before, after);
}

#[test]
fn a_roll_lands_on_the_nearest_block_that_can_be_marked() {
    let mut context = Context::new(vec![]);
    context.push_assistant(
        AssistantPhase::Commentary,
        vec![OutputBlock::text("said"), OutputBlock::refusal("but not that")],
    );
    context.push_function_call("c", "f", "{}");
    context.push_reasoning("r", "opaque");
    context.push_function_call_output("c", "plain");
    context.push_user(vec![]);
    context.anchor_breakpoint(BreakpointSlot::S0).unwrap();
    let marks: Vec<usize> = context.items().iter().map(InputItem::breakpoint_count).collect();
    assert_eq!(marks, [1, 0, 0, 0, 0]);
    assert_eq!(context.items()[0].last_breakpoint_site(), Some(0));
    assert!(matches!(
        &context.items()[3],
        InputItem::FunctionCallOutput(answer) if answer.output == FunctionOutput::Text("plain".to_owned())
    ));
}

fn delta(stream: TextStream, output_index: u32, part_index: u32, delta: &str) -> StreamEvent {
    StreamEvent::TextDelta { stream, output_index, part_index, delta: delta.to_owned() }
}

#[test]
fn deltas_to_different_parts_may_arrive_in_any_order() {
    let events = [
        delta(TextStream::Output, 0, 0, "a"),
        delta(TextStream::Output, 0, 1, "b"),
        delta(TextStream::Refusal, 0, 0, "r"),
        delta(TextStream::Output, 1, 0, "c"),
    ];
    let mut forwards = Settling::default();
    let mut backwards = Settling::default();
    for event in events.iter() {
        forwards.consume(event.clone());
    }
    for event in events.iter().rev() {
        backwards.consume(event.clone());
    }
    for stream in [&mut forwards, &mut backwards] {
        stream.consume(StreamEvent::Completed(ResponseSnapshot::default()));
    }
    let (forwards, backwards) = (forwards.settle().unwrap(), backwards.settle().unwrap());
    assert_eq!(forwards, backwards);
    assert_eq!(forwards.text, "abc");
    assert_eq!(forwards.items.len(), 2);
}

#[test]
fn events_that_carry_no_answer_only_count() {
    let mut settling = Settling::new();
    settling.consume(delta(TextStream::Output, 0, 0, "answer"));
    for frame in [
        r#"{"type": "response.created", "response": {"id": "early"}}"#,
        r#"{"type": "response.function_call_arguments.delta", "output_index": 0, "delta": "{"}"#,
        r#"{"type": "response.output_text.annotation.added", "output_index": 0, "content_index": 0,
            "annotation_index": 0, "annotation": {}}"#,
        r#"{"type": "response.audio.done"}"#,
        r#"{"type": "response.shell_call_command.added"}"#,
    ] {
        settling.consume_payload(frame).unwrap();
    }
    assert_eq!(settling.text_so_far(), "answer");
    assert_eq!(settling.reasoning_summary_so_far(), "");
    assert_eq!(settling.event_count(), 6);
    settling.consume(StreamEvent::Completed(ResponseSnapshot::default()));
    let settled = settling.settle().unwrap();
    assert_eq!(settled.id, None, "an early frame does not name the response");
    assert_eq!(settled.events, 7);
    assert_eq!(settled.clone(), settled);
}

#[test]
fn a_finished_part_is_checked_like_a_finished_text() {
    let part = |boundary, text: &str| StreamEvent::Part {
        stream: TextStream::Output,
        boundary,
        output_index: 0,
        part_index: 0,
        text: text.to_owned(),
    };
    let mut settling = Settling::new();
    settling.consume(part(PartBoundary::Added, "never shown"));
    assert_eq!(settling.text_so_far(), "");
    settling.consume(delta(TextStream::Output, 0, 0, "whole"));
    settling.consume(part(PartBoundary::Done, "whole"));
    settling.consume(part(PartBoundary::Added, ""));
    settling.consume(part(PartBoundary::Done, "other"));
    settling.consume(StreamEvent::Completed(ResponseSnapshot::default()));
    let settled = settling.settle().unwrap();
    assert_eq!(settled.text, "other");
    assert_eq!(settled.part_disagreements.len(), 1);
    assert_eq!(settled.part_disagreements[0].accumulated, "whole");
    assert_eq!(settled.part_disagreements[0].reported, "other");
}

#[test]
fn the_cost_of_the_largest_usage_fits_at_every_list_price() {
    let usage = Usage {
        input_tokens: u32::MAX,
        input_tokens_details: InputTokensDetails { cached_tokens: u32::MAX, cache_write_tokens: u32::MAX },
        output_tokens: u32::MAX,
        output_tokens_details: OutputTokensDetails { reasoning_tokens: 0 },
        total_tokens: u32::MAX,
    };
    assert_eq!(usage.uncached_input_tokens(), 0);
    assert_eq!(
        usage.cost_nanodollars(ModelId::Gpt5_5Pro.pricing()),
        u64::from(u32::MAX) * (30_000 + 30_000 + 180_000)
    );
    assert_eq!(usage.cost_nanodollars(ModelId::Gpt5_6Luna.pricing()), u64::from(u32::MAX) * (20 + 250 + 1_200));
}

#[test]
fn requests_built_apart_extend_one_another() {
    let build = |context: &Context| {
        Request::new(context, PrefixSettings::new(Model::gpt_5_6_sol()))
            .unwrap()
            .with_instructions(UncacheableInstructions::new("now"))
            .with_prompt_cache_key("key")
            .with_metadata(Metadata::new(vec![("a".to_owned(), "b".to_owned())]).unwrap())
            .with_safety_identifier("someone")
            .including(Include::WebSearchCallResults)
            .to_json()
    };
    let mut context = Context::new(vec![tool("f")]);
    context.push_user_text("one");
    let earlier = build(&context);
    context.push_user_text("two");
    let later = build(&context);
    assert_eq!(names(&earlier), names(&later));
    for name in names(&earlier) {
        if name != "input" {
            assert_eq!(earlier.get(name), later.get(name));
        }
    }
    let (before, after) = (earlier.array_at("input").unwrap(), later.array_at("input").unwrap());
    assert_eq!((before.len(), after.len()), (1, 2));
    assert_eq!(before[0], after[0]);
}

#[test]
fn streamed_items_stand_in_output_order() {
    let mut settling = Settling::new();
    for event in [
        delta(TextStream::Output, 7, 0, "last"),
        delta(TextStream::Refusal, 2, 0, "no"),
        delta(TextStream::Output, 0, 0, "first"),
        delta(TextStream::Output, 7, 1, "!"),
        delta(TextStream::Reasoning, 5, 0, "hidden"),
    ] {
        settling.consume(event);
    }
    settling.consume_payload(r#"{"type": "response.completed", "response": {}}"#).unwrap();
    let texts: Vec<(String, String)> = settling
        .settle()
        .unwrap()
        .items
        .into_iter()
        .map(|item| match item {
            OutputItem::Message { text, refusal, .. } => (text, refusal),
            other => panic!("{other:?} is not a message"),
        })
        .collect();
    let pair = |text: &str, refusal: &str| (text.to_owned(), refusal.to_owned());
    assert_eq!(texts, [pair("first", ""), pair("", "no"), pair("last!", "")]);
}
