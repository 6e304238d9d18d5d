//! One `data:` payload becomes one [`StreamEvent`].
//!
//! Separate from [`crate::stream`], which states what the events *are*; this file states
//! how the bytes map onto them.
//!
//! "Required" here means required *by the wire*, which is not the same as documented.
//! `item_id` is documented on nearly every event and omitted by some gateways, so it
//! decodes as optional. `output_index` is required, because the wire always sends it.
use vstd::prelude::*;

use crate::hosted;
use crate::hosted::HostedToolPhase;
use crate::items::{
    CalledFunction, CalledFunctionView, FunctionArguments, OutputItem, OutputItemView,
    ReasoningItem, ReasoningItemView, ResponseError, ResponseErrorView, ResponseSnapshot,
    ResponseSnapshotView,
};
use crate::json;
use crate::json::{Json, JsonView};
use crate::stream;
use crate::stream::{
    AudioStream, FrameError, FrameErrorView, PartBoundary, ProgressStage, StreamEvent,
    StreamEventView, TextStream,
};
use crate::text::same;
use crate::usage;
use crate::usage::Usage;
use crate::values::{AssistantPhase, HostedTool, IncompleteReason, ResponseStatus, ServiceTier};
use crate::views;

verus! {

// Which family an event type belongs to.

/// The text stream and phase an event type names, where it names one.
pub open spec fn text_event_named(kind: Seq<char>) -> Option<(TextStream, bool)> {
    if kind == "response.output_text.delta"@ {
        Some((TextStream::Output, false))
    } else if kind == "response.output_text.done"@ {
        Some((TextStream::Output, true))
    } else if kind == "response.refusal.delta"@ {
        Some((TextStream::Refusal, false))
    } else if kind == "response.refusal.done"@ {
        Some((TextStream::Refusal, true))
    } else if kind == "response.reasoning_summary_text.delta"@ {
        Some((TextStream::ReasoningSummary, false))
    } else if kind == "response.reasoning_summary_text.done"@ {
        Some((TextStream::ReasoningSummary, true))
    } else if kind == "response.reasoning_text.delta"@ {
        Some((TextStream::Reasoning, false))
    } else if kind == "response.reasoning_text.done"@ {
        Some((TextStream::Reasoning, true))
    } else {
        None
    }
}

/// The part boundary an event type names, where it names one.
pub open spec fn part_event_named(kind: Seq<char>) -> Option<(TextStream, PartBoundary)> {
    if kind == "response.content_part.added"@ {
        Some((TextStream::Output, PartBoundary::Added))
    } else if kind == "response.content_part.done"@ {
        Some((TextStream::Output, PartBoundary::Done))
    } else if kind == "response.reasoning_summary_part.added"@ {
        Some((TextStream::ReasoningSummary, PartBoundary::Added))
    } else if kind == "response.reasoning_summary_part.done"@ {
        Some((TextStream::ReasoningSummary, PartBoundary::Done))
    } else {
        None
    }
}

/// The tool and phase of a composed-input event type, where it is one.
pub open spec fn hosted_input_named(kind: Seq<char>) -> Option<(HostedTool, bool)> {
    if kind == "response.code_interpreter_call_code.delta"@ {
        Some((HostedTool::CodeInterpreter, false))
    } else if kind == "response.code_interpreter_call_code.done"@ {
        Some((HostedTool::CodeInterpreter, true))
    } else if kind == "response.mcp_call_arguments.delta"@ {
        Some((HostedTool::Mcp, false))
    } else if kind == "response.mcp_call_arguments.done"@ {
        Some((HostedTool::Mcp, true))
    } else if kind == "response.custom_tool_call_input.delta"@ {
        Some((HostedTool::Custom, false))
    } else if kind == "response.custom_tool_call_input.done"@ {
        Some((HostedTool::Custom, true))
    } else {
        None
    }
}

/// The field that holds the whole of a tool's composed input.
pub open spec fn whole_input_field(tool: HostedTool) -> Seq<char> {
    match tool {
        HostedTool::CodeInterpreter => "code"@,
        HostedTool::Mcp => "arguments"@,
        _ => "input"@,
    }
}

/// The audio stream and phase an event type names, where it names one.
pub open spec fn audio_event_named(kind: Seq<char>) -> Option<(AudioStream, bool)> {
    if kind == "response.audio.delta"@ {
        Some((AudioStream::Audio, false))
    } else if kind == "response.audio.done"@ {
        Some((AudioStream::Audio, true))
    } else if kind == "response.audio.transcript.delta"@ {
        Some((AudioStream::Transcript, false))
    } else if kind == "response.audio.transcript.done"@ {
        Some((AudioStream::Transcript, true))
    } else {
        None
    }
}

/// The non-terminal stage an event type announces, where it announces one.
pub open spec fn progress_named(kind: Seq<char>) -> Option<ProgressStage> {
    if kind == "response.created"@ {
        Some(ProgressStage::Created)
    } else if kind == "response.queued"@ {
        Some(ProgressStage::Queued)
    } else if kind == "response.in_progress"@ {
        Some(ProgressStage::InProgress)
    } else {
        None
    }
}

/// Which hosted tool an output item's `type` names, where it names one.
pub open spec fn hosted_call_named(kind: Seq<char>) -> Option<HostedTool> {
    if kind == "file_search_call"@ {
        Some(HostedTool::FileSearch)
    } else if kind == "web_search_call"@ {
        Some(HostedTool::WebSearch)
    } else if kind == "code_interpreter_call"@ {
        Some(HostedTool::CodeInterpreter)
    } else if kind == "image_generation_call"@ {
        Some(HostedTool::ImageGeneration)
    } else if kind == "mcp_call"@ {
        Some(HostedTool::Mcp)
    } else if kind == "mcp_list_tools"@ {
        Some(HostedTool::McpListTools)
    } else if kind == "shell_call"@ {
        Some(HostedTool::Shell)
    } else if kind == "local_shell_call"@ {
        Some(HostedTool::LocalShell)
    } else if kind == "computer_call"@ {
        Some(HostedTool::Computer)
    } else if kind == "apply_patch_call"@ {
        Some(HostedTool::ApplyPatch)
    } else if kind == "custom_tool_call"@ {
        Some(HostedTool::Custom)
    } else if kind == "tool_search_call"@ {
        Some(HostedTool::ToolSearch)
    } else {
        None
    }
}

fn text_event(kind: &str) -> (named: Option<(TextStream, bool)>)
    ensures
        named == text_event_named(kind@),
{
    if same(kind, "response.output_text.delta") {
        Some((TextStream::Output, false))
    } else if same(kind, "response.output_text.done") {
        Some((TextStream::Output, true))
    } else if same(kind, "response.refusal.delta") {
        Some((TextStream::Refusal, false))
    } else if same(kind, "response.refusal.done") {
        Some((TextStream::Refusal, true))
    } else if same(kind, "response.reasoning_summary_text.delta") {
        Some((TextStream::ReasoningSummary, false))
    } else if same(kind, "response.reasoning_summary_text.done") {
        Some((TextStream::ReasoningSummary, true))
    } else if same(kind, "response.reasoning_text.delta") {
        Some((TextStream::Reasoning, false))
    } else if same(kind, "response.reasoning_text.done") {
        Some((TextStream::Reasoning, true))
    } else {
        None
    }
}

fn part_event(kind: &str) -> (named: Option<(TextStream, PartBoundary)>)
    ensures
        named == part_event_named(kind@),
{
    if same(kind, "response.content_part.added") {
        Some((TextStream::Output, PartBoundary::Added))
    } else if same(kind, "response.content_part.done") {
        Some((TextStream::Output, PartBoundary::Done))
    } else if same(kind, "response.reasoning_summary_part.added") {
        Some((TextStream::ReasoningSummary, PartBoundary::Added))
    } else if same(kind, "response.reasoning_summary_part.done") {
        Some((TextStream::ReasoningSummary, PartBoundary::Done))
    } else {
        None
    }
}

/// The tool and phase of a composed-input event, with the field of its finished form.
fn hosted_input_event(kind: &str) -> (named: Option<(HostedTool, bool, &'static str)>)
    ensures
        match named {
            Some((tool, done, field)) => hosted_input_named(kind@) == Some((tool, done))
                && field@ == whole_input_field(tool),
            None => hosted_input_named(kind@) is None,
        },
{
    if same(kind, "response.code_interpreter_call_code.delta") {
        Some((HostedTool::CodeInterpreter, false, "code"))
    } else if same(kind, "response.code_interpreter_call_code.done") {
        Some((HostedTool::CodeInterpreter, true, "code"))
    } else if same(kind, "response.mcp_call_arguments.delta") {
        Some((HostedTool::Mcp, false, "arguments"))
    } else if same(kind, "response.mcp_call_arguments.done") {
        Some((HostedTool::Mcp, true, "arguments"))
    } else if same(kind, "response.custom_tool_call_input.delta") {
        Some((HostedTool::Custom, false, "input"))
    } else if same(kind, "response.custom_tool_call_input.done") {
        Some((HostedTool::Custom, true, "input"))
    } else {
        None
    }
}

fn audio_event(kind: &str) -> (named: Option<(AudioStream, bool)>)
    ensures
        named == audio_event_named(kind@),
{
    if same(kind, "response.audio.delta") {
        Some((AudioStream::Audio, false))
    } else if same(kind, "response.audio.done") {
        Some((AudioStream::Audio, true))
    } else if same(kind, "response.audio.transcript.delta") {
        Some((AudioStream::Transcript, false))
    } else if same(kind, "response.audio.transcript.done") {
        Some((AudioStream::Transcript, true))
    } else {
        None
    }
}

fn progress_event(kind: &str) -> (named: Option<ProgressStage>)
    ensures
        named == progress_named(kind@),
{
    if same(kind, "response.created") {
        Some(ProgressStage::Created)
    } else if same(kind, "response.queued") {
        Some(ProgressStage::Queued)
    } else if same(kind, "response.in_progress") {
        Some(ProgressStage::InProgress)
    } else {
        None
    }
}

fn hosted_call_tool(kind: &str) -> (named: Option<HostedTool>)
    ensures
        named == hosted_call_named(kind@),
{
    if same(kind, "file_search_call") {
        Some(HostedTool::FileSearch)
    } else if same(kind, "web_search_call") {
        Some(HostedTool::WebSearch)
    } else if same(kind, "code_interpreter_call") {
        Some(HostedTool::CodeInterpreter)
    } else if same(kind, "image_generation_call") {
        Some(HostedTool::ImageGeneration)
    } else if same(kind, "mcp_call") {
        Some(HostedTool::Mcp)
    } else if same(kind, "mcp_list_tools") {
        Some(HostedTool::McpListTools)
    } else if same(kind, "shell_call") {
        Some(HostedTool::Shell)
    } else if same(kind, "local_shell_call") {
        Some(HostedTool::LocalShell)
    } else if same(kind, "computer_call") {
        Some(HostedTool::Computer)
    } else if same(kind, "apply_patch_call") {
        Some(HostedTool::ApplyPatch)
    } else if same(kind, "custom_tool_call") {
        Some(HostedTool::Custom)
    } else if same(kind, "tool_search_call") {
        Some(HostedTool::ToolSearch)
    } else {
        None
    }
}

// Reading fields.

/// The value under a name that has to be there.
pub open spec fn field_in(object: JsonView, key: Seq<char>) -> Result<JsonView, FrameErrorView> {
    match object.field(key) {
        Some(value) => Ok(value),
        None => Err(FrameErrorView::MissingField { field: key }),
    }
}

/// The text under a name that has to be there.
pub open spec fn text_in(object: JsonView, key: Seq<char>) -> Result<Seq<char>, FrameErrorView> {
    match field_in(object, key) {
        Err(error) => Err(error),
        Ok(value) => match value.text() {
            Some(text) => Ok(text),
            None => Err(FrameErrorView::WrongType { field: key, expected: "a string"@ }),
        },
    }
}

/// The index under a name that has to be there.
pub open spec fn index_in(object: JsonView, key: Seq<char>) -> Result<u32, FrameErrorView> {
    match field_in(object, key) {
        Err(error) => Err(error),
        Ok(value) => match value.whole() {
            Some(n) if n <= u32::MAX => Ok(n as u32),
            _ => Err(
                FrameErrorView::WrongType { field: key, expected: "a non-negative integer"@ },
            ),
        },
    }
}

/// An optional text, the empty one where it is absent.
pub open spec fn or_empty(text: Option<Seq<char>>) -> Seq<char> {
    match text {
        Some(text) => text,
        None => Seq::empty(),
    }
}

/// What an outcome with plain success holds.
pub open spec fn plain_view<T>(outcome: Result<T, FrameError>) -> Result<T, FrameErrorView> {
    match outcome {
        Ok(value) => Ok(value),
        Err(error) => Err(error@),
    }
}

fn require<'a>(object: &'a Json, field: &'static str) -> (value: Result<&'a Json, FrameError>)
    ensures
        views::result_view(value) == field_in(object@, field@),
{
    match object.get(field) {
        Some(value) => Ok(value),
        None => Err(FrameError::MissingField { field }),
    }
}

fn require_str<'a>(object: &'a Json, field: &'static str) -> (text: Result<&'a str, FrameError>)
    ensures
        views::result_view(text) == text_in(object@, field@),
{
    match require(object, field) {
        Err(error) => Err(error),
        Ok(value) => match value.as_str() {
            Some(text) => Ok(text),
            None => Err(FrameError::WrongType { field, expected: "a string" }),
        },
    }
}

fn require_string(object: &Json, field: &'static str) -> (text: Result<String, FrameError>)
    ensures
        views::result_view(text) == text_in(object@, field@),
{
    match require_str(object, field) {
        Err(error) => Err(error),
        Ok(text) => Ok(text.to_owned()),
    }
}

fn require_u32(object: &Json, field: &'static str) -> (index: Result<u32, FrameError>)
    ensures
        plain_view(index) == index_in(object@, field@),
{
    match require(object, field) {
        Err(error) => Err(error),
        Ok(value) => match value.as_u64() {
            Some(n) if n <= u32::MAX as u64 => Ok(n as u32),
            _ => Err(FrameError::WrongType { field, expected: "a non-negative integer" }),
        },
    }
}

pub(crate) fn optional_string(object: &Json, field: &str) -> (text: Option<String>)
    ensures
        views::option_view(text) == object@.text_at(field@),
{
    match object.str_at(field) {
        Some(text) => Some(text.to_owned()),
        None => None,
    }
}

fn string_or_empty(object: &Json, field: &str) -> (text: String)
    ensures
        text@ == or_empty(object@.text_at(field@)),
{
    match object.str_at(field) {
        Some(text) => text.to_owned(),
        None => String::new(),
    }
}

// Output items.

/// The text a block contributes: the text under `key`, where the block is of the wanted
/// type.
pub open spec fn piece_of(block: JsonView, block_type: Option<Seq<char>>, key: Seq<char>) -> Seq<
    char,
> {
    if block_type is Some && block.text_at("type"@) != block_type {
        Seq::empty()
    } else {
        or_empty(block.text_at(key))
    }
}

/// What the blocks of a list contribute, joined in order.
pub open spec fn pieces_of(
    blocks: Seq<JsonView>,
    block_type: Option<Seq<char>>,
    key: Seq<char>,
) -> Seq<char>
    decreases blocks.len(),
{
    if blocks.len() == 0 {
        Seq::empty()
    } else {
        pieces_of(blocks.drop_last(), block_type, key) + piece_of(blocks.last(), block_type, key)
    }
}

/// An item's `content` blocks of one type, joined.
pub open spec fn blocks_text(item: JsonView, block_type: Seq<char>, key: Seq<char>) -> Seq<char> {
    match item.items_at("content"@) {
        Some(blocks) => pieces_of(blocks, Some(block_type), key),
        None => Seq::empty(),
    }
}

/// A reasoning item's `summary` parts, joined.
pub open spec fn summary_text(item: JsonView) -> Seq<char> {
    match item.items_at("summary"@) {
        Some(parts) => pieces_of(parts, None, "text"@),
        None => Seq::empty(),
    }
}

/// A payload, where there is one and it is not empty.
pub open spec fn non_empty(text: Option<Seq<char>>) -> Option<Seq<char>> {
    match text {
        Some(text) if text.len() > 0 => Some(text),
        _ => None,
    }
}

fn joined_blocks(item: &Json, block_type: &str, text_field: &str) -> (text: String)
    ensures
        text@ == blocks_text(item@, block_type@, text_field@),
{
    let mut joined = String::new();
    match item.array_at("content") {
        None => joined,
        Some(blocks) => {
            let ghost all = views::list_view(blocks@);
            let mut i: usize = 0;
            assert(all.take(0) =~= Seq::<JsonView>::empty());
            while i < blocks.len()
                invariant
                    i <= blocks.len(),
                    all == views::list_view(blocks@),
                    joined@ == pieces_of(all.take(i as int), Some(block_type@), text_field@),
                decreases blocks.len() - i,
            {
                let block = &blocks[i];
                assert(all.take(i + 1).drop_last() =~= all.take(i as int));
                assert(all.take(i + 1).last() == block@);
                let wanted = match block.str_at("type") {
                    Some(kind) => same(kind, block_type),
                    None => false,
                };
                let ghost before = joined@;
                if wanted {
                    if let Some(text) = block.str_at(text_field) {
                        joined.append(text);
                    }
                }
                assert(joined@ =~= before + piece_of(block@, Some(block_type@), text_field@));
                i += 1;
            }
            assert(all.take(i as int) =~= all);
            joined
        },
    }
}

fn joined_summary(item: &Json) -> (text: String)
    ensures
        text@ == summary_text(item@),
{
    let mut joined = String::new();
    match item.array_at("summary") {
        None => joined,
        Some(parts) => {
            let ghost all = views::list_view(parts@);
            let mut i: usize = 0;
            assert(all.take(0) =~= Seq::<JsonView>::empty());
            while i < parts.len()
                invariant
                    i <= parts.len(),
                    all == views::list_view(parts@),
                    joined@ == pieces_of(all.take(i as int), None, "text"@),
                decreases parts.len() - i,
            {
                let part = &parts[i];
                assert(all.take(i + 1).drop_last() =~= all.take(i as int));
                assert(all.take(i + 1).last() == part@);
                let ghost before = joined@;
                if let Some(text) = part.str_at("text") {
                    joined.append(text);
                }
                assert(joined@ =~= before + piece_of(part@, None, "text"@));
                i += 1;
            }
            assert(all.take(i as int) =~= all);
            joined
        },
    }
}

/// What an entry of an `output` array, or an `item` field, decodes to.
pub open spec fn item_of(item: JsonView) -> Result<OutputItemView, FrameErrorView> {
    if !(item is Object) {
        Err(FrameErrorView::WrongType { field: "item"@, expected: "an object"@ })
    } else {
        match text_in(item, "type"@) {
            Err(error) => Err(error),
            Ok(kind) => if kind == "message"@ {
                Ok(
                    OutputItemView::Message {
                        id: item.text_at("id"@),
                        phase: match item.text_at("phase"@) {
                            Some(phase) => AssistantPhase::named(phase),
                            None => None,
                        },
                        text: blocks_text(item, "output_text"@, "text"@),
                        refusal: blocks_text(item, "refusal"@, "refusal"@),
                    },
                )
            } else if kind == "function_call"@ {
                called_of(item)
            } else if kind == "reasoning"@ {
                reasoning_of(item)
            } else {
                match hosted_call_named(kind) {
                    Some(tool) => Ok(
                        OutputItemView::HostedToolCall {
                            tool,
                            id: item.text_at("id"@),
                            status: item.text_at("status"@),
                            item,
                        },
                    ),
                    None => Ok(OutputItemView::Unmodeled { kind }),
                }
            },
        }
    }
}

/// What a function call item decodes to.
pub open spec fn called_of(item: JsonView) -> Result<OutputItemView, FrameErrorView> {
    match text_in(item, "call_id"@) {
        Err(error) => Err(error),
        Ok(call_id) => match text_in(item, "name"@) {
            Err(error) => Err(error),
            Ok(name) => Ok(
                OutputItemView::FunctionCall(
                    CalledFunctionView {
                        id: item.text_at("id"@),
                        call_id,
                        name,
                        arguments: or_empty(item.text_at("arguments"@)),
                    },
                ),
            ),
        },
    }
}

/// What a reasoning item decodes to.
pub open spec fn reasoning_of(item: JsonView) -> Result<OutputItemView, FrameErrorView> {
    match text_in(item, "id"@) {
        Err(error) => Err(error),
        Ok(id) => Ok(
            OutputItemView::Reasoning(
                ReasoningItemView {
                    id,
                    encrypted_content: non_empty(item.text_at("encrypted_content"@)),
                    summary: summary_text(item),
                },
            ),
        ),
    }
}

/// What a list of items decodes to: all of them, or the first error.
pub open spec fn items_of(items: Seq<JsonView>) -> Result<Seq<OutputItemView>, FrameErrorView>
    decreases items.len(),
{
    if items.len() == 0 {
        Ok(Seq::empty())
    } else {
        match items_of(items.drop_last()) {
            Err(error) => Err(error),
            Ok(before) => match item_of(items.last()) {
                Err(error) => Err(error),
                Ok(item) => Ok(before.push(item)),
            },
        }
    }
}

/// One entry of an `output` array, or of an `item` field.
pub(crate) fn output_item(item: &Json) -> (outcome: Result<OutputItem, FrameError>)
    ensures
        views::result_view(outcome) == item_of(item@),
{
    if !item.is_object() {
        return Err(FrameError::WrongType { field: "item", expected: "an object" });
    }
    match require_str(item, "type") {
        Err(error) => Err(error),
        Ok(kind) => {
            if same(kind, "message") {
                Ok(
                    OutputItem::Message {
                        id: optional_string(item, "id"),
                        phase: match item.str_at("phase") {
                            Some(phase) => AssistantPhase::from_str(phase),
                            None => None,
                        },
                        text: joined_blocks(item, "output_text", "text"),
                        refusal: joined_blocks(item, "refusal", "refusal"),
                    },
                )
            } else if same(kind, "function_call") {
                called_function(item)
            } else if same(kind, "reasoning") {
                reasoning_item(item)
            } else {
                match hosted_call_tool(kind) {
                    Some(tool) => Ok(
                        OutputItem::HostedToolCall {
                            tool,
                            id: optional_string(item, "id"),
                            status: optional_string(item, "status"),
                            item: item.clone(),
                        },
                    ),
                    None => Ok(OutputItem::Unmodeled { kind: kind.to_owned() }),
                }
            }
        },
    }
}

fn called_function(item: &Json) -> (outcome: Result<OutputItem, FrameError>)
    ensures
        views::result_view(outcome) == called_of(item@),
{
    match require_string(item, "call_id") {
        Err(error) => Err(error),
        Ok(call_id) => match require_string(item, "name") {
            Err(error) => Err(error),
            Ok(name) => {
                let arguments = string_or_empty(item, "arguments");
                Ok(
                    OutputItem::FunctionCall(
                        CalledFunction {
                            id: optional_string(item, "id"),
                            call_id,
                            name,
                            arguments: FunctionArguments::from_wire(arguments.as_str()),
                        },
                    ),
                )
            },
        },
    }
}

fn reasoning_item(item: &Json) -> (outcome: Result<OutputItem, FrameError>)
    ensures
        views::result_view(outcome) == reasoning_of(item@),
{
    match require_string(item, "id") {
        Err(error) => Err(error),
        Ok(id) => Ok(
            OutputItem::Reasoning(
                ReasoningItem {
                    id,
                    encrypted_content: match item.str_at("encrypted_content") {
                        Some(content) => if content.is_empty() {
                            None
                        } else {
                            Some(content.to_owned())
                        },
                        None => None,
                    },
                    summary: joined_summary(item),
                },
            ),
        ),
    }
}

fn output_items(items: &Vec<Json>) -> (outcome: Result<Vec<OutputItem>, FrameError>)
    ensures
        match outcome {
            Ok(decoded) => items_of(views::list_view(items@)) == Ok::<
                Seq<OutputItemView>,
                FrameErrorView,
            >(views::list_view(decoded@)),
            Err(error) => items_of(views::list_view(items@)) == Err::<
                Seq<OutputItemView>,
                FrameErrorView,
            >(error@),
        },
{
    let ghost all = views::list_view(items@);
    let mut decoded: Vec<OutputItem> = Vec::new();
    let mut i: usize = 0;
    assert(all.take(0) =~= Seq::<JsonView>::empty());
    assert(views::list_view(decoded@) =~= Seq::<OutputItemView>::empty());
    while i < items.len()
        invariant
            i <= items.len(),
            all == views::list_view(items@),
            items_of(all.take(i as int)) == Ok::<Seq<OutputItemView>, FrameErrorView>(
                views::list_view(decoded@),
            ),
        decreases items.len() - i,
    {
        assert(all.take(i + 1).drop_last() =~= all.take(i as int));
        assert(all.take(i + 1).last() == items@[i as int]@);
        match output_item(&items[i]) {
            Err(error) => {
                proof {
                    an_error_stays(all, i + 1);
                }
                return Err(error);
            },
            Ok(item) => {
                let ghost before = decoded@;
                decoded.push(item);
                assert(views::list_view(decoded@) =~= views::list_view(before).push(item@));
            },
        }
        i += 1;
    }
    assert(all.take(i as int) =~= all);
    Ok(decoded)
}

/// Once decoding a list has failed, the items after the failure do not change it.
proof fn an_error_stays(items: Seq<JsonView>, n: int)
    requires
        0 <= n <= items.len(),
        items_of(items.take(n)) is Err,
    ensures
        items_of(items) == items_of(items.take(n)),
    decreases items.len() - n,
{
    if n == items.len() {
        assert(items.take(n) =~= items);
    } else {
        assert(items.take(n + 1).drop_last() =~= items.take(n));
        an_error_stays(items, n + 1);
    }
}

// The response object.

/// What an error object reports.
pub open spec fn error_of(object: JsonView) -> ResponseErrorView {
    ResponseErrorView {
        code: object.text_at("code"@),
        message: or_empty(object.text_at("message"@)),
        param: object.text_at("param"@),
    }
}

/// What the `usage` of a response decodes to: nothing where it is absent or `null`.
pub open spec fn usage_of(response: JsonView) -> Result<Option<Usage>, FrameErrorView> {
    match response.field("usage"@) {
        None => Ok(None),
        Some(JsonView::Null) => Ok(None),
        Some(value) => match usage::usage_in(value) {
            Ok(usage) => Ok(Some(usage)),
            Err(error) => Err(FrameErrorView::UndecodableUsage(error)),
        },
    }
}

/// What the `output` of a response decodes to: nothing where it is not an array.
pub open spec fn output_of(response: JsonView) -> Result<Seq<OutputItemView>, FrameErrorView> {
    match response.items_at("output"@) {
        Some(items) => items_of(items),
        None => Ok(Seq::empty()),
    }
}

/// Why a response says it stopped short, where it names a known reason.
pub open spec fn incomplete_reason_of(response: JsonView) -> Option<IncompleteReason> {
    match response.field("incomplete_details"@) {
        Some(details) => match details.text_at("reason"@) {
            Some(reason) => IncompleteReason::named(reason),
            None => None,
        },
        None => None,
    }
}

/// What a `response` object decodes to.
pub open spec fn snapshot_of(response: JsonView) -> Result<ResponseSnapshotView, FrameErrorView> {
    if !(response is Object) {
        Err(FrameErrorView::WrongType { field: "response"@, expected: "an object"@ })
    } else {
        match usage_of(response) {
            Err(error) => Err(error),
            Ok(usage) => match output_of(response) {
                Err(error) => Err(error),
                Ok(output) => Ok(
                    ResponseSnapshotView {
                        id: response.text_at("id"@),
                        status: match response.text_at("status"@) {
                            Some(status) => ResponseStatus::named(status),
                            None => None,
                        },
                        usage,
                        error: match response.field("error"@) {
                            Some(error) if error is Object => Some(error_of(error)),
                            _ => None,
                        },
                        incomplete_reason: incomplete_reason_of(response),
                        service_tier: match response.text_at("service_tier"@) {
                            Some(tier) => ServiceTier::named(tier),
                            None => None,
                        },
                        output,
                    },
                ),
            },
        }
    }
}

fn error(object: &Json) -> (error: ResponseError)
    ensures
        error@ == error_of(object@),
{
    ResponseError {
        code: optional_string(object, "code"),
        message: string_or_empty(object, "message"),
        param: optional_string(object, "param"),
    }
}

fn usage_field(response: &Json) -> (outcome: Result<Option<Usage>, FrameError>)
    ensures
        plain_view(outcome) == usage_of(response@),
{
    match response.get("usage") {
        None => Ok(None),
        Some(value) => {
            if value.is_null() {
                return Ok(None);
            }
            match Usage::from_json(value) {
                Ok(usage) => Ok(Some(usage)),
                Err(error) => Err(FrameError::UndecodableUsage(error)),
            }
        },
    }
}

fn incomplete_reason(response: &Json) -> (reason: Option<IncompleteReason>)
    ensures
        reason == incomplete_reason_of(response@),
{
    match response.get("incomplete_details") {
        Some(details) => match details.str_at("reason") {
            Some(reason) => IncompleteReason::from_str(reason),
            None => None,
        },
        None => None,
    }
}

/// The `response` object a progress or terminal event carries.
pub(crate) fn snapshot(response: &Json) -> (outcome: Result<ResponseSnapshot, FrameError>)
    ensures
        views::result_view(outcome) == snapshot_of(response@),
{
    if !response.is_object() {
        return Err(FrameError::WrongType { field: "response", expected: "an object" });
    }
    let usage = match usage_field(response) {
        Ok(usage) => usage,
        Err(error) => {
            return Err(error);
        },
    };
    let output = match response.array_at("output") {
        Some(items) => match output_items(items) {
            Ok(output) => output,
            Err(error) => {
                return Err(error);
            },
        },
        None => {
            let none: Vec<OutputItem> = Vec::new();
            assert(views::list_view(none@) =~= Seq::<OutputItemView>::empty());
            none
        },
    };
    Ok(
        ResponseSnapshot {
            id: optional_string(response, "id"),
            status: match response.str_at("status") {
                Some(status) => ResponseStatus::from_str(status),
                None => None,
            },
            usage,
            error: match response.get("error") {
                Some(object) => if object.is_object() {
                    Some(error(object))
                } else {
                    None
                },
                None => None,
            },
            incomplete_reason: incomplete_reason(response),
            service_tier: match response.str_at("service_tier") {
                Some(tier) => ServiceTier::from_str(tier),
                None => None,
            },
            output,
        },
    )
}

// Events, family by family.

/// What a text delta decodes to.
pub open spec fn text_delta_in(frame: JsonView, stream: TextStream) -> Result<StreamEventView, FrameErrorView> {
    match index_in(frame, "output_index"@) {
        Err(error) => Err(error),
        Ok(output_index) => match index_in(frame, stream.index_field()) {
            Err(error) => Err(error),
            Ok(part_index) => match text_in(frame, "delta"@) {
                Err(error) => Err(error),
                Ok(delta) => Ok(StreamEventView::TextDelta { stream, output_index, part_index, delta }),
            },
        },
    }
}

fn text_delta(frame: &Json, stream: TextStream) -> (event: Result<StreamEvent, FrameError>)
    ensures
        views::result_view(event) == text_delta_in(frame@, stream),
{
    let output_index: u32 = match require_u32(frame, "output_index") {
        Ok(output_index) => output_index,
        Err(error) => {
            return Err(error);
        },
    };
    let part_index: u32 = match require_u32(frame, stream.wire_fields().1) {
        Ok(part_index) => part_index,
        Err(error) => {
            return Err(error);
        },
    };
    let delta = match require_string(frame, "delta") {
        Ok(delta) => delta,
        Err(error) => {
            return Err(error);
        },
    };
    Ok(StreamEvent::TextDelta { stream, output_index, part_index, delta })
}

/// What the end of a run of text decodes to.
pub open spec fn text_done_in(frame: JsonView, stream: TextStream) -> Result<StreamEventView, FrameErrorView> {
    match index_in(frame, "output_index"@) {
        Err(error) => Err(error),
        Ok(output_index) => match index_in(frame, stream.index_field()) {
            Err(error) => Err(error),
            Ok(part_index) => match text_in(frame, stream.text_field()) {
                Err(error) => Err(error),
                Ok(text) => Ok(StreamEventView::TextDone { stream, output_index, part_index, text }),
            },
        },
    }
}

fn text_done(frame: &Json, stream: TextStream) -> (event: Result<StreamEvent, FrameError>)
    ensures
        views::result_view(event) == text_done_in(frame@, stream),
{
    let output_index: u32 = match require_u32(frame, "output_index") {
        Ok(output_index) => output_index,
        Err(error) => {
            return Err(error);
        },
    };
    let part_index: u32 = match require_u32(frame, stream.wire_fields().1) {
        Ok(part_index) => part_index,
        Err(error) => {
            return Err(error);
        },
    };
    let text = match require_string(frame, stream.wire_fields().0) {
        Ok(text) => text,
        Err(error) => {
            return Err(error);
        },
    };
    Ok(StreamEvent::TextDone { stream, output_index, part_index, text })
}

/// The text of the `part` a part event carries, and the empty text where it carries none:
/// an `added` part is announced empty.
pub open spec fn part_text(frame: JsonView, stream: TextStream) -> Seq<char> {
    match frame.field("part"@) {
        Some(part) => or_empty(part.text_at(stream.text_field())),
        None => Seq::empty(),
    }
}

fn text_of_part(frame: &Json, stream: TextStream) -> (text: String)
    ensures
        text@ == part_text(frame@, stream),
{
    match frame.get("part") {
        Some(part) => string_or_empty(part, stream.wire_fields().0),
        None => String::new(),
    }
}

/// What a part boundary decodes to.
pub open spec fn part_in(frame: JsonView, stream: TextStream, boundary: PartBoundary) -> Result<StreamEventView, FrameErrorView> {
    match index_in(frame, "output_index"@) {
        Err(error) => Err(error),
        Ok(output_index) => match index_in(frame, stream.index_field()) {
            Err(error) => Err(error),
            Ok(part_index) => Ok(StreamEventView::Part { stream, boundary, output_index, part_index, text: part_text(frame, stream) }),
        },
    }
}

fn part(frame: &Json, stream: TextStream, boundary: PartBoundary) -> (event: Result<StreamEvent, FrameError>)
    ensures
        views::result_view(event) == part_in(frame@, stream, boundary),
{
    let output_index: u32 = match require_u32(frame, "output_index") {
        Ok(output_index) => output_index,
        Err(error) => {
            return Err(error);
        },
    };
    let part_index: u32 = match require_u32(frame, stream.wire_fields().1) {
        Ok(part_index) => part_index,
        Err(error) => {
            return Err(error);
        },
    };
    Ok(StreamEvent::Part { stream, boundary, output_index, part_index, text: text_of_part(frame, stream) })
}

/// What a hosted tool's lifecycle event decodes to.
pub open spec fn lifecycle_in(frame: JsonView, tool: HostedTool, phase: HostedToolPhase) -> Result<StreamEventView, FrameErrorView> {
    match index_in(frame, "output_index"@) {
        Err(error) => Err(error),
        Ok(output_index) => Ok(StreamEventView::HostedToolLifecycle { tool, phase, output_index, item_id: frame.text_at("item_id"@) }),
    }
}

fn lifecycle(frame: &Json, tool: HostedTool, phase: HostedToolPhase) -> (event: Result<StreamEvent, FrameError>)
    ensures
        views::result_view(event) == lifecycle_in(frame@, tool, phase),
{
    let output_index: u32 = match require_u32(frame, "output_index") {
        Ok(output_index) => output_index,
        Err(error) => {
            return Err(error);
        },
    };
    Ok(StreamEvent::HostedToolLifecycle { tool, phase, output_index, item_id: optional_string(frame, "item_id") })
}

/// What a piece of a tool's composed input decodes to.
pub open spec fn hosted_input_delta_in(frame: JsonView, tool: HostedTool) -> Result<StreamEventView, FrameErrorView> {
    match index_in(frame, "output_index"@) {
        Err(error) => Err(error),
        Ok(output_index) => match text_in(frame, "delta"@) {
            Err(error) => Err(error),
            Ok(delta) => Ok(StreamEventView::HostedToolInputDelta { tool, output_index, item_id: frame.text_at("item_id"@), delta }),
        },
    }
}

fn hosted_input_delta(frame: &Json, tool: HostedTool) -> (event: Result<StreamEvent, FrameError>)
    ensures
        views::result_view(event) == hosted_input_delta_in(frame@, tool),
{
    let output_index: u32 = match require_u32(frame, "output_index") {
        Ok(output_index) => output_index,
        Err(error) => {
            return Err(error);
        },
    };
    let delta = match require_string(frame, "delta") {
        Ok(delta) => delta,
        Err(error) => {
            return Err(error);
        },
    };
    Ok(StreamEvent::HostedToolInputDelta { tool, output_index, item_id: optional_string(frame, "item_id"), delta })
}

/// What the end of a tool's composed input decodes to.
pub open spec fn hosted_input_done_in(frame: JsonView, tool: HostedTool) -> Result<StreamEventView, FrameErrorView> {
    match index_in(frame, "output_index"@) {
        Err(error) => Err(error),
        Ok(output_index) => match text_in(frame, whole_input_field(tool)) {
            Err(error) => Err(error),
            Ok(input) => Ok(StreamEventView::HostedToolInputDone { tool, output_index, item_id: frame.text_at("item_id"@), input }),
        },
    }
}

fn hosted_input_done(frame: &Json, tool: HostedTool, whole_field: &'static str) -> (event: Result<StreamEvent, FrameError>)
    requires
        whole_field@ == whole_input_field(tool),
    ensures
        views::result_view(event) == hosted_input_done_in(frame@, tool),
{
    let output_index: u32 = match require_u32(frame, "output_index") {
        Ok(output_index) => output_index,
        Err(error) => {
            return Err(error);
        },
    };
    let input = match require_string(frame, whole_field) {
        Ok(input) => input,
        Err(error) => {
            return Err(error);
        },
    };
    Ok(StreamEvent::HostedToolInputDone { tool, output_index, item_id: optional_string(frame, "item_id"), input })
}

/// What a piece of audio or transcript decodes to.
pub open spec fn audio_delta_in(frame: JsonView, stream: AudioStream) -> Result<StreamEventView, FrameErrorView> {
    match text_in(frame, "delta"@) {
        Err(error) => Err(error),
        Ok(delta) => Ok(StreamEventView::Audio { stream, response_id: frame.text_at("response_id"@), delta, done: false }),
    }
}

fn audio_delta(frame: &Json, stream: AudioStream) -> (event: Result<StreamEvent, FrameError>)
    ensures
        views::result_view(event) == audio_delta_in(frame@, stream),
{
    let delta = match require_string(frame, "delta") {
        Ok(delta) => delta,
        Err(error) => {
            return Err(error);
        },
    };
    Ok(StreamEvent::Audio { stream, response_id: optional_string(frame, "response_id"), delta, done: false })
}

/// What a progress event decodes to.
pub open spec fn progress_in(frame: JsonView, stage: ProgressStage) -> Result<StreamEventView, FrameErrorView> {
    match field_in(frame, "response"@) {
        Err(error) => Err(error),
        Ok(value) => match snapshot_of(value) {
            Err(error) => Err(error),
            Ok(response) => Ok(StreamEventView::ResponseProgress { stage, response }),
        },
    }
}

fn progress(frame: &Json, stage: ProgressStage) -> (event: Result<StreamEvent, FrameError>)
    ensures
        views::result_view(event) == progress_in(frame@, stage),
{
    let value = match require(frame, "response") {
        Ok(value) => value,
        Err(error) => {
            return Err(error);
        },
    };
    let response = match snapshot(value) {
        Ok(response) => response,
        Err(error) => {
            return Err(error);
        },
    };
    Ok(StreamEvent::ResponseProgress { stage, response })
}

/// What the announcement of an item decodes to.
pub open spec fn item_added_in(frame: JsonView) -> Result<StreamEventView, FrameErrorView> {
    match index_in(frame, "output_index"@) {
        Err(error) => Err(error),
        Ok(output_index) => match field_in(frame, "item"@) {
            Err(error) => Err(error),
            Ok(value) => match item_of(value) {
                Err(error) => Err(error),
                Ok(item) => Ok(StreamEventView::OutputItemAdded { output_index, item }),
            },
        },
    }
}

fn item_added(frame: &Json) -> (event: Result<StreamEvent, FrameError>)
    ensures
        views::result_view(event) == item_added_in(frame@),
{
    let output_index: u32 = match require_u32(frame, "output_index") {
        Ok(output_index) => output_index,
        Err(error) => {
            return Err(error);
        },
    };
    let value = match require(frame, "item") {
        Ok(value) => value,
        Err(error) => {
            return Err(error);
        },
    };
    let item = match output_item(value) {
        Ok(item) => item,
        Err(error) => {
            return Err(error);
        },
    };
    Ok(StreamEvent::OutputItemAdded { output_index, item })
}

/// What the end of an item decodes to.
pub open spec fn item_done_in(frame: JsonView) -> Result<StreamEventView, FrameErrorView> {
    match index_in(frame, "output_index"@) {
        Err(error) => Err(error),
        Ok(output_index) => match field_in(frame, "item"@) {
            Err(error) => Err(error),
            Ok(value) => match item_of(value) {
                Err(error) => Err(error),
                Ok(item) => Ok(StreamEventView::OutputItemDone { output_index, item }),
            },
        },
    }
}

fn item_done(frame: &Json) -> (event: Result<StreamEvent, FrameError>)
    ensures
        views::result_view(event) == item_done_in(frame@),
{
    let output_index: u32 = match require_u32(frame, "output_index") {
        Ok(output_index) => output_index,
        Err(error) => {
            return Err(error);
        },
    };
    let value = match require(frame, "item") {
        Ok(value) => value,
        Err(error) => {
            return Err(error);
        },
    };
    let item = match output_item(value) {
        Ok(item) => item,
        Err(error) => {
            return Err(error);
        },
    };
    Ok(StreamEvent::OutputItemDone { output_index, item })
}

/// What a piece of a function call's arguments decodes to.
pub open spec fn arguments_delta_in(frame: JsonView) -> Result<StreamEventView, FrameErrorView> {
    match index_in(frame, "output_index"@) {
        Err(error) => Err(error),
        Ok(output_index) => match text_in(frame, "delta"@) {
            Err(error) => Err(error),
            Ok(delta) => Ok(StreamEventView::FunctionArgumentsDelta { output_index, item_id: frame.text_at("item_id"@), delta }),
        },
    }
}

fn arguments_delta(frame: &Json) -> (event: Result<StreamEvent, FrameError>)
    ensures
        views::result_view(event) == arguments_delta_in(frame@),
{
    let output_index: u32 = match require_u32(frame, "output_index") {
        Ok(output_index) => output_index,
        Err(error) => {
            return Err(error);
        },
    };
    let delta = match require_string(frame, "delta") {
        Ok(delta) => delta,
        Err(error) => {
            return Err(error);
        },
    };
    Ok(StreamEvent::FunctionArgumentsDelta { output_index, item_id: optional_string(frame, "item_id"), delta })
}

/// What the end of a function call's arguments decodes to.
pub open spec fn arguments_done_in(frame: JsonView) -> Result<StreamEventView, FrameErrorView> {
    match index_in(frame, "output_index"@) {
        Err(error) => Err(error),
        Ok(output_index) => match text_in(frame, "arguments"@) {
            Err(error) => Err(error),
            Ok(arguments) => Ok(StreamEventView::FunctionArgumentsDone { output_index, item_id: frame.text_at("item_id"@), arguments }),
        },
    }
}

fn arguments_done(frame: &Json) -> (event: Result<StreamEvent, FrameError>)
    ensures
        views::result_view(event) == arguments_done_in(frame@),
{
    let output_index: u32 = match require_u32(frame, "output_index") {
        Ok(output_index) => output_index,
        Err(error) => {
            return Err(error);
        },
    };
    let arguments = match require_str(frame, "arguments") {
        Ok(arguments) => arguments,
        Err(error) => {
            return Err(error);
        },
    };
    Ok(StreamEvent::FunctionArgumentsDone { output_index, item_id: optional_string(frame, "item_id"), arguments: FunctionArguments::from_wire(arguments) })
}

/// What a partial image decodes to.
pub open spec fn partial_image_in(frame: JsonView) -> Result<StreamEventView, FrameErrorView> {
    match index_in(frame, "output_index"@) {
        Err(error) => Err(error),
        Ok(output_index) => match index_in(frame, "partial_image_index"@) {
            Err(error) => Err(error),
            Ok(partial_image_index) => match text_in(frame, "partial_image_b64"@) {
                Err(error) => Err(error),
                Ok(partial_image_base64) => Ok(StreamEventView::PartialImage { output_index, item_id: frame.text_at("item_id"@), partial_image_index, partial_image_base64 }),
            },
        },
    }
}

fn partial_image(frame: &Json) -> (event: Result<StreamEvent, FrameError>)
    ensures
        views::result_view(event) == partial_image_in(frame@),
{
    let output_index: u32 = match require_u32(frame, "output_index") {
        Ok(output_index) => output_index,
        Err(error) => {
            return Err(error);
        },
    };
    let partial_image_index: u32 = match require_u32(frame, "partial_image_index") {
        Ok(partial_image_index) => partial_image_index,
        Err(error) => {
            return Err(error);
        },
    };
    let partial_image_base64 = match require_string(frame, "partial_image_b64") {
        Ok(partial_image_base64) => partial_image_base64,
        Err(error) => {
            return Err(error);
        },
    };
    Ok(StreamEvent::PartialImage { output_index, item_id: optional_string(frame, "item_id"), partial_image_index, partial_image_base64 })
}

/// What an annotation decodes to.
pub open spec fn annotation_in(frame: JsonView) -> Result<StreamEventView, FrameErrorView> {
    match index_in(frame, "output_index"@) {
        Err(error) => Err(error),
        Ok(output_index) => match index_in(frame, "content_index"@) {
            Err(error) => Err(error),
            Ok(content_index) => match index_in(frame, "annotation_index"@) {
                Err(error) => Err(error),
                Ok(annotation_index) => match field_in(frame, "annotation"@) {
                    Err(error) => Err(error),
                    Ok(annotation) => Ok(StreamEventView::Annotation { output_index, content_index, annotation_index, annotation }),
                },
            },
        },
    }
}

fn annotation(frame: &Json) -> (event: Result<StreamEvent, FrameError>)
    ensures
        views::result_view(event) == annotation_in(frame@),
{
    let output_index: u32 = match require_u32(frame, "output_index") {
        Ok(output_index) => output_index,
        Err(error) => {
            return Err(error);
        },
    };
    let content_index: u32 = match require_u32(frame, "content_index") {
        Ok(content_index) => content_index,
        Err(error) => {
            return Err(error);
        },
    };
    let annotation_index: u32 = match require_u32(frame, "annotation_index") {
        Ok(annotation_index) => annotation_index,
        Err(error) => {
            return Err(error);
        },
    };
    let annotation = match require(frame, "annotation") {
        Ok(annotation) => annotation,
        Err(error) => {
            return Err(error);
        },
    };
    Ok(StreamEvent::Annotation { output_index, content_index, annotation_index, annotation: annotation.clone() })
}

/// What `response.completed` decodes to.
pub open spec fn completed_in(frame: JsonView) -> Result<StreamEventView, FrameErrorView> {
    match field_in(frame, "response"@) {
        Err(error) => Err(error),
        Ok(value) => match snapshot_of(value) {
            Err(error) => Err(error),
            Ok(response) => Ok(StreamEventView::Completed(response)),
        },
    }
}

fn completed(frame: &Json) -> (event: Result<StreamEvent, FrameError>)
    ensures
        views::result_view(event) == completed_in(frame@),
{
    let value = match require(frame, "response") {
        Ok(value) => value,
        Err(error) => {
            return Err(error);
        },
    };
    let response = match snapshot(value) {
        Ok(response) => response,
        Err(error) => {
            return Err(error);
        },
    };
    Ok(StreamEvent::Completed(response))
}

/// What `response.failed` decodes to.
pub open spec fn failed_in(frame: JsonView) -> Result<StreamEventView, FrameErrorView> {
    match field_in(frame, "response"@) {
        Err(error) => Err(error),
        Ok(value) => match snapshot_of(value) {
            Err(error) => Err(error),
            Ok(response) => Ok(StreamEventView::Failed(response)),
        },
    }
}

fn failed(frame: &Json) -> (event: Result<StreamEvent, FrameError>)
    ensures
        views::result_view(event) == failed_in(frame@),
{
    let value = match require(frame, "response") {
        Ok(value) => value,
        Err(error) => {
            return Err(error);
        },
    };
    let response = match snapshot(value) {
        Ok(response) => response,
        Err(error) => {
            return Err(error);
        },
    };
    Ok(StreamEvent::Failed(response))
}

/// What `response.incomplete` decodes to.
pub open spec fn incomplete_in(frame: JsonView) -> Result<StreamEventView, FrameErrorView> {
    match field_in(frame, "response"@) {
        Err(error) => Err(error),
        Ok(value) => match snapshot_of(value) {
            Err(error) => Err(error),
            Ok(response) => Ok(StreamEventView::Incomplete(response)),
        },
    }
}

fn incomplete(frame: &Json) -> (event: Result<StreamEvent, FrameError>)
    ensures
        views::result_view(event) == incomplete_in(frame@),
{
    let value = match require(frame, "response") {
        Ok(value) => value,
        Err(error) => {
            return Err(error);
        },
    };
    let response = match snapshot(value) {
        Ok(response) => response,
        Err(error) => {
            return Err(error);
        },
    };
    Ok(StreamEvent::Incomplete(response))
}

/// Whether an event type is one of those this crate models.
pub open spec fn modeled(kind: Seq<char>) -> bool {
    ||| text_event_named(kind) is Some
    ||| part_event_named(kind) is Some
    ||| hosted::lifecycle_named(kind) is Some
    ||| hosted_input_named(kind) is Some
    ||| audio_event_named(kind) is Some
    ||| progress_named(kind) is Some
    ||| single_named(kind)
}

/// Whether an event type is one of those that are a kind by themselves.
pub open spec fn single_named(kind: Seq<char>) -> bool {
    ||| kind == "response.output_item.added"@
    ||| kind == "response.output_item.done"@
    ||| kind == "response.function_call_arguments.delta"@
    ||| kind == "response.function_call_arguments.done"@
    ||| kind == "response.image_generation_call.partial_image"@
    ||| kind == "response.output_text.annotation.added"@
    ||| kind == "response.completed"@
    ||| kind == "response.failed"@
    ||| kind == "response.incomplete"@
    ||| kind == "error"@
}

/// What a frame of one of the event types that are a kind by themselves decodes to, and of
/// a type this crate does not model.
pub open spec fn single_in(frame: JsonView, kind: Seq<char>) -> Result<
    StreamEventView,
    FrameErrorView,
> {
    if kind == "response.output_item.added"@ {
        item_added_in(frame)
    } else if kind == "response.output_item.done"@ {
        item_done_in(frame)
    } else if kind == "response.function_call_arguments.delta"@ {
        arguments_delta_in(frame)
    } else if kind == "response.function_call_arguments.done"@ {
        arguments_done_in(frame)
    } else if kind == "response.image_generation_call.partial_image"@ {
        partial_image_in(frame)
    } else if kind == "response.output_text.annotation.added"@ {
        annotation_in(frame)
    } else if kind == "response.completed"@ {
        completed_in(frame)
    } else if kind == "response.failed"@ {
        failed_in(frame)
    } else if kind == "response.incomplete"@ {
        incomplete_in(frame)
    } else if kind == "error"@ {
        Ok(StreamEventView::Error(error_of(frame)))
    } else {
        Ok(StreamEventView::Unmodeled { kind })
    }
}

/// What a frame of a type decodes to.
pub open spec fn event_in(frame: JsonView, kind: Seq<char>) -> Result<
    StreamEventView,
    FrameErrorView,
> {
    if let Some((stream, done)) = text_event_named(kind) {
        if done {
            text_done_in(frame, stream)
        } else {
            text_delta_in(frame, stream)
        }
    } else if let Some((stream, boundary)) = part_event_named(kind) {
        part_in(frame, stream, boundary)
    } else if let Some((tool, phase)) = hosted::lifecycle_named(kind) {
        lifecycle_in(frame, tool, phase)
    } else if let Some((tool, done)) = hosted_input_named(kind) {
        if done {
            hosted_input_done_in(frame, tool)
        } else {
            hosted_input_delta_in(frame, tool)
        }
    } else if let Some((stream, done)) = audio_event_named(kind) {
        if done {
            Ok(
                StreamEventView::Audio {
                    stream,
                    response_id: frame.text_at("response_id"@),
                    delta: Seq::empty(),
                    done: true,
                },
            )
        } else {
            audio_delta_in(frame, stream)
        }
    } else if let Some(stage) = progress_named(kind) {
        progress_in(frame, stage)
    } else {
        single_in(frame, kind)
    }
}

/// What a frame decodes to. A frame that is not an object, has no `type`, or whose `type`
/// is not a string is refused; a type this crate does not model is an event like any other.
pub open spec fn event_of(frame: JsonView) -> Result<StreamEventView, FrameErrorView> {
    if !(frame is Object) {
        Err(FrameErrorView::NotAnObject)
    } else {
        match text_in(frame, "type"@) {
            Err(error) => Err(error),
            Ok(kind) => event_in(frame, kind),
        }
    }
}

/// What a payload decodes to.
pub open spec fn payload_event(payload: Seq<char>) -> Result<StreamEventView, FrameErrorView> {
    match json::parsed(payload) {
        Ok(frame) => event_of(frame),
        Err(error) => Err(FrameErrorView::NotJson(error)),
    }
}

fn single_event(frame: &Json, kind: &str) -> (event: Result<StreamEvent, FrameError>)
    ensures
        views::result_view(event) == single_in(frame@, kind@),
{
    if same(kind, "response.output_item.added") {
        item_added(frame)
    } else if same(kind, "response.output_item.done") {
        item_done(frame)
    } else if same(kind, "response.function_call_arguments.delta") {
        arguments_delta(frame)
    } else if same(kind, "response.function_call_arguments.done") {
        arguments_done(frame)
    } else if same(kind, "response.image_generation_call.partial_image") {
        partial_image(frame)
    } else if same(kind, "response.output_text.annotation.added") {
        annotation(frame)
    } else if same(kind, "response.completed") {
        completed(frame)
    } else if same(kind, "response.failed") {
        failed(frame)
    } else if same(kind, "response.incomplete") {
        incomplete(frame)
    } else if same(kind, "error") {
        Ok(StreamEvent::Error(error(frame)))
    } else {
        Ok(StreamEvent::Unmodeled { kind: kind.to_owned() })
    }
}

/// One frame, decoded. Text deltas dominate a real stream, so they are matched first.
pub(crate) fn event_from_json(frame: &Json) -> (event: Result<StreamEvent, FrameError>)
    ensures
        views::result_view(event) == event_of(frame@),
{
    if !frame.is_object() {
        return Err(FrameError::NotAnObject);
    }
    let kind = match require_str(frame, "type") {
        Ok(kind) => kind,
        Err(error) => {
            return Err(error);
        },
    };
    if let Some((stream, done)) = text_event(kind) {
        return if done {
            text_done(frame, stream)
        } else {
            text_delta(frame, stream)
        };
    }
    if let Some((stream, boundary)) = part_event(kind) {
        return part(frame, stream, boundary);
    }
    if let Some((tool, phase)) = hosted::lifecycle_of(kind) {
        return lifecycle(frame, tool, phase);
    }
    if let Some((tool, done, whole_field)) = hosted_input_event(kind) {
        return if done {
            hosted_input_done(frame, tool, whole_field)
        } else {
            hosted_input_delta(frame, tool)
        };
    }
    if let Some((stream, done)) = audio_event(kind) {
        return if done {
            Ok(
                StreamEvent::Audio {
                    stream,
                    response_id: optional_string(frame, "response_id"),
                    delta: String::new(),
                    done: true,
                },
            )
        } else {
            audio_delta(frame, stream)
        };
    }
    if let Some(stage) = progress_event(kind) {
        return progress(frame, stage);
    }
    single_event(frame, kind)
}

impl StreamEvent {
    /// One raw `data:` payload, decoded.
    pub fn decode(payload: &str) -> (event: Result<Self, FrameError>)
        ensures
            views::result_view(event) == payload_event(payload@),
    {
        match Json::parse(payload) {
            Ok(frame) => Self::from_json(&frame),
            Err(error) => Err(FrameError::NotJson(error)),
        }
    }

    /// The same, for a caller who already holds the parsed frame.
    pub fn from_json(frame: &Json) -> (event: Result<Self, FrameError>)
        ensures
            views::result_view(event) == event_of(frame@),
    {
        event_from_json(frame)
    }
}

/// A well-formed frame of a type this crate does not model is never an error.
pub proof fn an_unknown_type_is_never_an_error(frame: JsonView, kind: Seq<char>)
    requires
        frame.text_at("type"@) == Some(kind),
        !modeled(kind),
    ensures
        event_of(frame) == Ok::<StreamEventView, FrameErrorView>(
            StreamEventView::Unmodeled { kind },
        ),
{
}

/// A decoded event names back the type it was decoded from.
pub proof fn a_decoded_event_names_its_type(frame: JsonView)
    requires
        event_of(frame) is Ok,
    ensures
        frame.text_at("type"@) == Some(event_of(frame)->Ok_0.kind()),
{
    let kind = text_in(frame, "type"@)->Ok_0;
    assert(frame.text_at("type"@) == Some(kind));
    if let Some((stream, done)) = text_event_named(kind) {
        text_events_name_their_type(kind);
    } else if let Some((stream, boundary)) = part_event_named(kind) {
        part_events_name_their_type(kind);
    } else if let Some((tool, phase)) = hosted::lifecycle_named(kind) {
        hosted::lifecycle_names_read_back(tool, phase, kind);
    }
}

proof fn text_events_name_their_type(kind: Seq<char>)
    ensures
        match text_event_named(kind) {
            Some((stream, done)) => stream::text_event_type(stream, done) == kind,
            None => true,
        },
{
    reveal_strlit("response.");
    reveal_strlit(".done");
    reveal_strlit(".delta");
    reveal_strlit("output_text");
    reveal_strlit("refusal");
    reveal_strlit("reasoning_summary_text");
    reveal_strlit("reasoning_text");
    reveal_strlit("response.output_text.delta");
    reveal_strlit("response.output_text.done");
    reveal_strlit("response.refusal.delta");
    reveal_strlit("response.refusal.done");
    reveal_strlit("response.reasoning_summary_text.delta");
    reveal_strlit("response.reasoning_summary_text.done");
    reveal_strlit("response.reasoning_text.delta");
    reveal_strlit("response.reasoning_text.done");
    if let Some((stream, done)) = text_event_named(kind) {
        assert(stream::text_event_type(stream, done) =~= kind);
    }
}

proof fn part_events_name_their_type(kind: Seq<char>)
    ensures
        match part_event_named(kind) {
            Some((stream, boundary)) => stream::part_event_type(stream, boundary) == kind,
            None => true,
        },
{
    reveal_strlit("response.");
    reveal_strlit(".");
    reveal_strlit("added");
    reveal_strlit("done");
    reveal_strlit("content_part");
    reveal_strlit("reasoning_summary_part");
    reveal_strlit("response.content_part.added");
    reveal_strlit("response.content_part.done");
    reveal_strlit("response.reasoning_summary_part.added");
    reveal_strlit("response.reasoning_summary_part.done");
    if let Some((stream, boundary)) = part_event_named(kind) {
        assert(stream::part_event_type(stream, boundary) =~= kind);
    }
}

} // verus!
