//! What holds of decoding as a whole.
use vstd::prelude::*;

use crate::decode;
use crate::hosted;
use crate::items::ResponseSnapshotView;
use crate::json::JsonView;
use crate::response;
use crate::response::ResponseView;
use crate::stream::{FrameErrorView, StreamEventView};

verus! {

/// How many families of events, single events among them, an event type names.
pub open spec fn families(kind: Seq<char>) -> nat {
    let text: nat = if decode::text_event_named(kind) is Some { 1 } else { 0 };
    let part: nat = if decode::part_event_named(kind) is Some { 1 } else { 0 };
    let lifecycle: nat = if hosted::lifecycle_named(kind) is Some { 1 } else { 0 };
    let input: nat = if decode::hosted_input_named(kind) is Some { 1 } else { 0 };
    let audio: nat = if decode::audio_event_named(kind) is Some { 1 } else { 0 };
    let progress: nat = if decode::progress_named(kind) is Some { 1 } else { 0 };
    let single: nat = if decode::single_named(kind) { 1 } else { 0 };
    text + part + lifecycle + input + audio + progress + single
}

/// No event type names events of two families, so the order in which the families are tried
/// decides nothing.
pub proof fn the_families_are_disjoint(kind: Seq<char>)
    ensures
        families(kind) <= 1,
{
    let named = hosted::lifecycle_named(kind);
    if let Some((tool, phase)) = named {
        hosted::lifecycle_names_read_back(tool, phase, kind);
    }
    reveal_strlit("response.output_text.delta");
    reveal_strlit("response.output_text.done");
    reveal_strlit("response.refusal.delta");
    reveal_strlit("response.refusal.done");
    reveal_strlit("response.reasoning_summary_text.delta");
    reveal_strlit("response.reasoning_summary_text.done");
    reveal_strlit("response.reasoning_text.delta");
    reveal_strlit("response.reasoning_text.done");
    reveal_strlit("response.content_part.added");
    reveal_strlit("response.content_part.done");
    reveal_strlit("response.reasoning_summary_part.added");
    reveal_strlit("response.reasoning_summary_part.done");
    reveal_strlit("response.file_search_call.in_progress");
    reveal_strlit("response.file_search_call.searching");
    reveal_strlit("response.file_search_call.completed");
    reveal_strlit("response.web_search_call.in_progress");
    reveal_strlit("response.web_search_call.searching");
    reveal_strlit("response.web_search_call.completed");
    reveal_strlit("response.code_interpreter_call.in_progress");
    reveal_strlit("response.code_interpreter_call.interpreting");
    reveal_strlit("response.code_interpreter_call.completed");
    reveal_strlit("response.image_generation_call.in_progress");
    reveal_strlit("response.image_generation_call.generating");
    reveal_strlit("response.image_generation_call.completed");
    reveal_strlit("response.mcp_call.in_progress");
    reveal_strlit("response.mcp_call.completed");
    reveal_strlit("response.mcp_call.failed");
    reveal_strlit("response.mcp_list_tools.in_progress");
    reveal_strlit("response.mcp_list_tools.completed");
    reveal_strlit("response.mcp_list_tools.failed");
    reveal_strlit("response.code_interpreter_call_code.delta");
    reveal_strlit("response.code_interpreter_call_code.done");
    reveal_strlit("response.mcp_call_arguments.delta");
    reveal_strlit("response.mcp_call_arguments.done");
    reveal_strlit("response.custom_tool_call_input.delta");
    reveal_strlit("response.custom_tool_call_input.done");
    reveal_strlit("response.audio.delta");
    reveal_strlit("response.audio.done");
    reveal_strlit("response.audio.transcript.delta");
    reveal_strlit("response.audio.transcript.done");
    reveal_strlit("response.created");
    reveal_strlit("response.queued");
    reveal_strlit("response.in_progress");
    reveal_strlit("response.output_item.added");
    reveal_strlit("response.output_item.done");
    reveal_strlit("response.function_call_arguments.delta");
    reveal_strlit("response.function_call_arguments.done");
    reveal_strlit("response.image_generation_call.partial_image");
    reveal_strlit("response.output_text.annotation.added");
    reveal_strlit("response.completed");
    reveal_strlit("response.failed");
    reveal_strlit("response.incomplete");
    reveal_strlit("error");
    assert("response.output_text.delta"@.len() == 26);
    assert("response.output_text.done"@.len() == 25);
    assert("response.refusal.delta"@.len() == 22);
    assert("response.refusal.done"@.len() == 21);
    assert("response.reasoning_summary_text.delta"@.len() == 37);
    assert("response.reasoning_summary_text.done"@.len() == 36);
    assert("response.reasoning_text.delta"@.len() == 29);
    assert("response.reasoning_text.done"@.len() == 28);
    assert("response.content_part.added"@.len() == 27);
    assert("response.content_part.done"@.len() == 26);
    assert("response.reasoning_summary_part.added"@.len() == 37);
    assert("response.reasoning_summary_part.done"@.len() == 36);
    assert("response.file_search_call.in_progress"@.len() == 37);
    assert("response.file_search_call.searching"@.len() == 35);
    assert("response.file_search_call.completed"@.len() == 35);
    assert("response.web_search_call.in_progress"@.len() == 36);
    assert("response.web_search_call.searching"@.len() == 34);
    assert("response.web_search_call.completed"@.len() == 34);
    assert("response.code_interpreter_call.in_progress"@.len() == 42);
    assert("response.code_interpreter_call.interpreting"@.len() == 43);
    assert("response.code_interpreter_call.completed"@.len() == 40);
    assert("response.image_generation_call.in_progress"@.len() == 42);
    assert("response.image_generation_call.generating"@.len() == 41);
    assert("response.image_generation_call.completed"@.len() == 40);
    assert("response.mcp_call.in_progress"@.len() == 29);
    assert("response.mcp_call.completed"@.len() == 27);
    assert("response.mcp_call.failed"@.len() == 24);
    assert("response.mcp_list_tools.in_progress"@.len() == 35);
    assert("response.mcp_list_tools.completed"@.len() == 33);
    assert("response.mcp_list_tools.failed"@.len() == 30);
    assert("response.code_interpreter_call_code.delta"@.len() == 41);
    assert("response.code_interpreter_call_code.done"@.len() == 40);
    assert("response.mcp_call_arguments.delta"@.len() == 33);
    assert("response.mcp_call_arguments.done"@.len() == 32);
    assert("response.custom_tool_call_input.delta"@.len() == 37);
    assert("response.custom_tool_call_input.done"@.len() == 36);
    assert("response.audio.delta"@.len() == 20);
    assert("response.audio.done"@.len() == 19);
    assert("response.audio.transcript.delta"@.len() == 31);
    assert("response.audio.transcript.done"@.len() == 30);
    assert("response.created"@.len() == 16);
    assert("response.queued"@.len() == 15);
    assert("response.in_progress"@.len() == 20);
    assert("response.output_item.added"@.len() == 26);
    assert("response.output_item.done"@.len() == 25);
    assert("response.function_call_arguments.delta"@.len() == 38);
    assert("response.function_call_arguments.done"@.len() == 37);
    assert("response.image_generation_call.partial_image"@.len() == 44);
    assert("response.output_text.annotation.added"@.len() == 37);
    assert("response.completed"@.len() == 18);
    assert("response.failed"@.len() == 15);
    assert("response.incomplete"@.len() == 19);
    assert("error"@.len() == 5);
    assert("response.output_text.delta"@[9] == 'o');
    assert("response.output_text.delta"@[16] == 't');
    assert("response.output_text.done"@[16] == 't');
    assert("response.reasoning_summary_text.delta"@[9] == 'r');
    assert("response.reasoning_summary_text.delta"@[27] == 't');
    assert("response.reasoning_summary_text.done"@[27] == 't');
    assert("response.reasoning_text.delta"@[9] == 'r');
    assert("response.content_part.added"@[9] == 'c');
    assert("response.content_part.done"@[9] == 'c');
    assert("response.reasoning_summary_part.added"@[9] == 'r');
    assert("response.reasoning_summary_part.added"@[27] == 'p');
    assert("response.reasoning_summary_part.done"@[27] == 'p');
    assert("response.file_search_call.in_progress"@[9] == 'f');
    assert("response.file_search_call.in_progress"@[27] == 'n');
    assert("response.web_search_call.in_progress"@[27] == '_');
    assert("response.code_interpreter_call.completed"@[30] == '.');
    assert("response.image_generation_call.generating"@[9] == 'i');
    assert("response.image_generation_call.completed"@[30] == '.');
    assert("response.mcp_call.in_progress"@[9] == 'm');
    assert("response.mcp_call.completed"@[9] == 'm');
    assert("response.mcp_list_tools.completed"@[13] == 'l');
    assert("response.mcp_list_tools.failed"@[9] == 'm');
    assert("response.code_interpreter_call_code.delta"@[9] == 'c');
    assert("response.code_interpreter_call_code.done"@[30] == '_');
    assert("response.mcp_call_arguments.delta"@[13] == 'c');
    assert("response.custom_tool_call_input.delta"@[9] == 'c');
    assert("response.custom_tool_call_input.delta"@[27] == 'n');
    assert("response.custom_tool_call_input.done"@[27] == 'n');
    assert("response.audio.delta"@[9] == 'a');
    assert("response.audio.done"@[9] == 'a');
    assert("response.audio.transcript.done"@[9] == 'a');
    assert("response.queued"@[9] == 'q');
    assert("response.in_progress"@[9] == 'i');
    assert("response.output_item.added"@[9] == 'o');
    assert("response.output_item.added"@[16] == 'i');
    assert("response.output_item.done"@[16] == 'i');
    assert("response.function_call_arguments.done"@[27] == 'm');
    assert("response.output_text.annotation.added"@[9] == 'o');
    assert("response.failed"@[9] == 'f');
    assert("response.incomplete"@[9] == 'i');
}

/// An event type outside the families and the single events is not modeled, and one in them
/// is.
pub proof fn a_modeled_type_names_one_family(kind: Seq<char>)
    ensures
        decode::modeled(kind) <==> families(kind) == 1,
{
    the_families_are_disjoint(kind);
}

/// Each of the types that end a stream decodes to its own ending, over the response it
/// carries.
pub proof fn an_ending_decodes_to_its_own_event(
    frame: JsonView,
    kind: Seq<char>,
    body: JsonView,
)
    requires
        frame.text_at("type"@) == Some(kind),
        frame.field("response"@) == Some(body),
        kind == "response.completed"@ || kind == "response.failed"@ || kind
            == "response.incomplete"@,
    ensures
        decode::event_of(frame) == match decode::snapshot_of(body) {
            Err(error) => Err::<StreamEventView, FrameErrorView>(error),
            Ok(response) => Ok(
                if kind == "response.completed"@ {
                    StreamEventView::Completed(response)
                } else if kind == "response.failed"@ {
                    StreamEventView::Failed(response)
                } else {
                    StreamEventView::Incomplete(response)
                },
            ),
        },
{
    the_families_are_disjoint(kind);
    reveal_strlit("response.completed");
    reveal_strlit("response.failed");
    reveal_strlit("response.incomplete");
    reveal_strlit("response.output_item.added");
    reveal_strlit("response.output_item.done");
    reveal_strlit("response.function_call_arguments.delta");
    reveal_strlit("response.function_call_arguments.done");
    reveal_strlit("response.image_generation_call.partial_image");
    reveal_strlit("response.output_text.annotation.added");
    assert("response.output_item.added"@.len() == 26);
    assert("response.output_item.done"@.len() == 25);
    assert("response.function_call_arguments.delta"@.len() == 38);
    assert("response.function_call_arguments.done"@.len() == 37);
    assert("response.image_generation_call.partial_image"@.len() == 44);
    assert("response.output_text.annotation.added"@.len() == 37);
    assert("response.completed"@.len() == 18);
    assert("response.failed"@.len() == 15);
    assert("response.incomplete"@.len() == 19);
}

/// A buffered body and a streamed ending that carries it read alike: one decodes exactly when
/// the other does, and to the same response.
pub proof fn a_body_reads_as_the_ending_that_carries_it(
    frame: JsonView,
    kind: Seq<char>,
    body: JsonView,
)
    requires
        frame.text_at("type"@) == Some(kind),
        frame.field("response"@) == Some(body),
        kind == "response.completed"@ || kind == "response.failed"@ || kind
            == "response.incomplete"@,
    ensures
        match (decode::event_of(frame), response::response_in(body)) {
            (Ok(event), Ok(whole)) => event.snapshot() == Some(whole.snapshot()),
            (Err(a), Err(b)) => a == b,
            _ => false,
        },
{
    an_ending_decodes_to_its_own_event(frame, kind, body);
}

impl StreamEventView {
    /// The response an event carries, on the events that carry one.
    pub open spec fn snapshot(self) -> Option<ResponseSnapshotView> {
        match self {
            StreamEventView::ResponseProgress { response, .. } => Some(response),
            StreamEventView::Completed(response) => Some(response),
            StreamEventView::Failed(response) => Some(response),
            StreamEventView::Incomplete(response) => Some(response),
            _ => None,
        }
    }
}

impl ResponseView {
    /// The part of a response that a streamed ending reports too.
    pub open spec fn snapshot(self) -> ResponseSnapshotView {
        ResponseSnapshotView {
            id: self.id,
            status: self.status,
            usage: self.usage,
            error: self.error,
            incomplete_reason: self.incomplete_reason,
            service_tier: self.service_tier,
            output: self.output,
        }
    }
}

} // verus!
