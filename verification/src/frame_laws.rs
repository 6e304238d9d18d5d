//! What a decoded frame says: each event repeats its frame's own fields, and a frame that
//! holds them is read.
use vstd::prelude::*;

use crate::decode;
use crate::decode_laws;
use crate::hosted;
use crate::hosted::HostedToolPhase;
use crate::json::{JsonView, NumberView};
use crate::stream::{
    AudioStream, FrameErrorView, PartBoundary, ProgressStage, StreamEventView, TextStream,
};
use crate::values::HostedTool;

verus! {

/// Whether a value holds a number under a name.
pub open spec fn counts(frame: JsonView, key: Seq<char>, n: u32) -> bool {
    frame.field(key) == Some(JsonView::Number(NumberView::PosInt(n as u64)))
}

/// Each event says what its frame says: its type is the frame's, and each of its fields is
/// the frame's own, character for character.
#[verifier::rlimit(60)]
pub proof fn a_decoded_event_says_what_its_frame_says(frame: JsonView, event: StreamEventView)
    requires
        decode::event_of(frame) == Ok::<StreamEventView, FrameErrorView>(event),
    ensures
        match event {
            StreamEventView::TextDelta { stream, output_index, part_index, delta } => {
                &&& frame.text_at("type"@) == Some(
                    match stream {
                    TextStream::Output => "response.output_text.delta"@,
                    TextStream::Refusal => "response.refusal.delta"@,
                    TextStream::ReasoningSummary => "response.reasoning_summary_text.delta"@,
                    TextStream::Reasoning => "response.reasoning_text.delta"@,
                },
                )
                &&& counts(frame, "output_index"@, output_index)
                &&& counts(
                    frame,
                    if stream == TextStream::ReasoningSummary {
                        "summary_index"@
                    } else {
                        "content_index"@
                    },
                    part_index,
                )
                &&& frame.text_at("delta"@) == Some(delta)
            },
            StreamEventView::TextDone { stream, output_index, part_index, text } => {
                &&& frame.text_at("type"@) == Some(
                    match stream {
                    TextStream::Output => "response.output_text.done"@,
                    TextStream::Refusal => "response.refusal.done"@,
                    TextStream::ReasoningSummary => "response.reasoning_summary_text.done"@,
                    TextStream::Reasoning => "response.reasoning_text.done"@,
                },
                )
                &&& counts(frame, "output_index"@, output_index)
                &&& counts(
                    frame,
                    if stream == TextStream::ReasoningSummary {
                        "summary_index"@
                    } else {
                        "content_index"@
                    },
                    part_index,
                )
                &&& frame.text_at(
                    if stream == TextStream::Refusal {
                        "refusal"@
                    } else {
                        "text"@
                    },
                ) == Some(text)
            },
            StreamEventView::Part { stream, boundary, output_index, part_index, text } => {
                &&& frame.text_at("type"@) == Some(
                    match (stream, boundary) {
                    (TextStream::ReasoningSummary, PartBoundary::Added) => {
                        "response.reasoning_summary_part.added"@
                    },
                    (TextStream::ReasoningSummary, PartBoundary::Done) => {
                        "response.reasoning_summary_part.done"@
                    },
                    (_, PartBoundary::Added) => "response.content_part.added"@,
                    (_, PartBoundary::Done) => "response.content_part.done"@,
                },
                )
                &&& stream == TextStream::Output || stream == TextStream::ReasoningSummary
                &&& counts(frame, "output_index"@, output_index)
                &&& counts(
                    frame,
                    if stream == TextStream::ReasoningSummary {
                        "summary_index"@
                    } else {
                        "content_index"@
                    },
                    part_index,
                )
                &&& text == match frame.field("part"@) {
                    Some(part) => match part.text_at("text"@) {
                        Some(held) => held,
                        None => Seq::empty(),
                    },
                    None => Seq::empty(),
                }
            },
            StreamEventView::FunctionArgumentsDelta { output_index, item_id, delta } => {
                &&& frame.text_at("type"@) == Some("response.function_call_arguments.delta"@)
                &&& counts(frame, "output_index"@, output_index)
                &&& frame.text_at("item_id"@) == item_id
                &&& frame.text_at("delta"@) == Some(delta)
            },
            StreamEventView::FunctionArgumentsDone { output_index, item_id, arguments } => {
                &&& frame.text_at("type"@) == Some("response.function_call_arguments.done"@)
                &&& counts(frame, "output_index"@, output_index)
                &&& frame.text_at("item_id"@) == item_id
                &&& frame.text_at("arguments"@) == Some(arguments)
            },
            StreamEventView::HostedToolLifecycle { tool, phase, output_index, item_id } => {
                &&& hosted::lifecycle_name(tool, phase) is Some
                &&& frame.text_at("type"@) == hosted::lifecycle_name(tool, phase)
                &&& counts(frame, "output_index"@, output_index)
                &&& frame.text_at("item_id"@) == item_id
            },
            StreamEventView::HostedToolInputDelta { tool, output_index, item_id, delta } => {
                &&& frame.text_at("type"@) == Some(
                    match tool {
                    HostedTool::CodeInterpreter => "response.code_interpreter_call_code.delta"@,
                    HostedTool::Mcp => "response.mcp_call_arguments.delta"@,
                    _ => "response.custom_tool_call_input.delta"@,
                },
                )
                &&& tool == HostedTool::CodeInterpreter || tool == HostedTool::Mcp || tool
                    == HostedTool::Custom
                &&& counts(frame, "output_index"@, output_index)
                &&& frame.text_at("item_id"@) == item_id
                &&& frame.text_at("delta"@) == Some(delta)
            },
            StreamEventView::HostedToolInputDone { tool, output_index, item_id, input } => {
                &&& frame.text_at("type"@) == Some(
                    match tool {
                    HostedTool::CodeInterpreter => "response.code_interpreter_call_code.done"@,
                    HostedTool::Mcp => "response.mcp_call_arguments.done"@,
                    _ => "response.custom_tool_call_input.done"@,
                },
                )
                &&& tool == HostedTool::CodeInterpreter || tool == HostedTool::Mcp || tool
                    == HostedTool::Custom
                &&& counts(frame, "output_index"@, output_index)
                &&& frame.text_at("item_id"@) == item_id
                &&& frame.text_at(
                    match tool {
                        HostedTool::CodeInterpreter => "code"@,
                        HostedTool::Mcp => "arguments"@,
                        _ => "input"@,
                    },
                ) == Some(input)
            },
            StreamEventView::PartialImage {
                output_index,
                item_id,
                partial_image_index,
                partial_image_base64,
            } => {
                &&& frame.text_at("type"@) == Some("response.image_generation_call.partial_image"@)
                &&& counts(frame, "output_index"@, output_index)
                &&& frame.text_at("item_id"@) == item_id
                &&& counts(frame, "partial_image_index"@, partial_image_index)
                &&& frame.text_at("partial_image_b64"@) == Some(partial_image_base64)
            },
            StreamEventView::Annotation {
                output_index,
                content_index,
                annotation_index,
                annotation,
            } => {
                &&& frame.text_at("type"@) == Some("response.output_text.annotation.added"@)
                &&& counts(frame, "output_index"@, output_index)
                &&& counts(frame, "content_index"@, content_index)
                &&& counts(frame, "annotation_index"@, annotation_index)
                &&& frame.field("annotation"@) == Some(annotation)
            },
            StreamEventView::Audio { stream, response_id, delta, done } => {
                &&& frame.text_at("type"@) == Some(
                    match (stream, done) {
                    (AudioStream::Audio, false) => "response.audio.delta"@,
                    (AudioStream::Audio, true) => "response.audio.done"@,
                    (AudioStream::Transcript, false) => "response.audio.transcript.delta"@,
                    (AudioStream::Transcript, true) => "response.audio.transcript.done"@,
                },
                )
                &&& frame.text_at("response_id"@) == response_id
                &&& if done {
                    delta.len() == 0
                } else {
                    frame.text_at("delta"@) == Some(delta)
                }
            },
            StreamEventView::ResponseProgress { stage, response } => {
                &&& frame.text_at("type"@) == Some(
                    match stage {
                    ProgressStage::Created => "response.created"@,
                    ProgressStage::Queued => "response.queued"@,
                    ProgressStage::InProgress => "response.in_progress"@,
                },
                )
                &&& frame.field("response"@) is Some
                &&& decode::snapshot_of(frame.field("response"@)->0) == Ok::<_, FrameErrorView>(response)
            },
            StreamEventView::Completed(response) => {
                &&& frame.text_at("type"@) == Some("response.completed"@)
                &&& frame.field("response"@) is Some
                &&& decode::snapshot_of(frame.field("response"@)->0) == Ok::<_, FrameErrorView>(response)
            },
            StreamEventView::Failed(response) => {
                &&& frame.text_at("type"@) == Some("response.failed"@)
                &&& frame.field("response"@) is Some
                &&& decode::snapshot_of(frame.field("response"@)->0) == Ok::<_, FrameErrorView>(response)
            },
            StreamEventView::Incomplete(response) => {
                &&& frame.text_at("type"@) == Some("response.incomplete"@)
                &&& frame.field("response"@) is Some
                &&& decode::snapshot_of(frame.field("response"@)->0) == Ok::<_, FrameErrorView>(response)
            },
            StreamEventView::OutputItemAdded { output_index, item } => {
                &&& frame.text_at("type"@) == Some("response.output_item.added"@)
                &&& counts(frame, "output_index"@, output_index)
                &&& frame.field("item"@) is Some
                &&& decode::item_of(frame.field("item"@)->0) == Ok::<_, FrameErrorView>(item)
            },
            StreamEventView::OutputItemDone { output_index, item } => {
                &&& frame.text_at("type"@) == Some("response.output_item.done"@)
                &&& counts(frame, "output_index"@, output_index)
                &&& frame.field("item"@) is Some
                &&& decode::item_of(frame.field("item"@)->0) == Ok::<_, FrameErrorView>(item)
            },
            StreamEventView::Error(error) => {
                &&& frame.text_at("type"@) == Some("error"@)
                &&& frame.text_at("code"@) == error.code
                &&& frame.text_at("param"@) == error.param
                &&& error.message == match frame.text_at("message"@) {
                    Some(message) => message,
                    None => Seq::empty(),
                }
            },
            StreamEventView::Unmodeled { kind } => {
                &&& frame.text_at("type"@) == Some(kind)
                &&& !decode::modeled(kind)
            },
        },
{
    let kind = decode::text_in(frame, "type"@)->Ok_0;
    assert(frame.text_at("type"@) == Some(kind));
    if let Some((stream, done)) = decode::text_event_named(kind) {
        if done {
            assert(event is TextDone);
        } else {
            assert(event is TextDelta);
        }
    } else if let Some((stream, boundary)) = decode::part_event_named(kind) {
        assert(event is Part);
    } else if let Some((tool, phase)) = hosted::lifecycle_named(kind) {
        hosted::lifecycle_names_read_back(tool, phase, kind);
        assert(event is HostedToolLifecycle);
    } else if let Some((tool, done)) = decode::hosted_input_named(kind) {
        if done {
            assert(event is HostedToolInputDone);
        } else {
            assert(event is HostedToolInputDelta);
        }
    } else if let Some((stream, done)) = decode::audio_event_named(kind) {
        assert(event is Audio);
    } else if let Some(stage) = decode::progress_named(kind) {
        assert(event is ResponseProgress);
    } else if decode::single_named(kind) {
        a_single_event_says_what_its_frame_says(frame, kind, event);
    } else {
        assert(event == (StreamEventView::Unmodeled { kind }));
    }
}

proof fn a_single_event_says_what_its_frame_says(
    frame: JsonView,
    kind: Seq<char>,
    event: StreamEventView,
)
    requires
        frame.text_at("type"@) == Some(kind),
        decode::single_named(kind),
        decode::single_in(frame, kind) == Ok::<StreamEventView, FrameErrorView>(event),
    ensures
        says(frame, event),
{
}

/// Whether a frame says all that an event says.
pub open spec fn says(frame: JsonView, event: StreamEventView) -> bool {
    match event {
        StreamEventView::TextDelta { stream, output_index, part_index, delta } => {
            &&& frame.text_at("type"@) == Some(
                match stream {
                TextStream::Output => "response.output_text.delta"@,
                TextStream::Refusal => "response.refusal.delta"@,
                TextStream::ReasoningSummary => "response.reasoning_summary_text.delta"@,
                TextStream::Reasoning => "response.reasoning_text.delta"@,
            },
            )
            &&& counts(frame, "output_index"@, output_index)
            &&& counts(
                frame,
                if stream == TextStream::ReasoningSummary {
                    "summary_index"@
                } else {
                    "content_index"@
                },
                part_index,
            )
            &&& frame.text_at("delta"@) == Some(delta)
        },
        StreamEventView::TextDone { stream, output_index, part_index, text } => {
            &&& frame.text_at("type"@) == Some(
                match stream {
                TextStream::Output => "response.output_text.done"@,
                TextStream::Refusal => "response.refusal.done"@,
                TextStream::ReasoningSummary => "response.reasoning_summary_text.done"@,
                TextStream::Reasoning => "response.reasoning_text.done"@,
            },
            )
            &&& counts(frame, "output_index"@, output_index)
            &&& counts(
                frame,
                if stream == TextStream::ReasoningSummary {
                    "summary_index"@
                } else {
                    "content_index"@
                },
                part_index,
            )
            &&& frame.text_at(
                if stream == TextStream::Refusal {
                    "refusal"@
                } else {
                    "text"@
                },
            ) == Some(text)
        },
        StreamEventView::Part { stream, boundary, output_index, part_index, text } => {
            &&& frame.text_at("type"@) == Some(
                match (stream, boundary) {
                (TextStream::ReasoningSummary, PartBoundary::Added) => {
                    "response.reasoning_summary_part.added"@
                },
                (TextStream::ReasoningSummary, PartBoundary::Done) => {
                    "response.reasoning_summary_part.done"@
                },
                (_, PartBoundary::Added) => "response.content_part.added"@,
                (_, PartBoundary::Done) => "response.content_part.done"@,
            },
            )
            &&& stream == TextStream::Output || stream == TextStream::ReasoningSummary
            &&& counts(frame, "output_index"@, output_index)
            &&& counts(
                frame,
                if stream == TextStream::ReasoningSummary {
                    "summary_index"@
                } else {
                    "content_index"@
                },
                part_index,
            )
            &&& text == match frame.field("part"@) {
                Some(part) => match part.text_at("text"@) {
                    Some(held) => held,
                    None => Seq::empty(),
                },
                None => Seq::empty(),
            }
        },
        StreamEventView::FunctionArgumentsDelta { output_index, item_id, delta } => {
            &&& frame.text_at("type"@) == Some("response.function_call_arguments.delta"@)
            &&& counts(frame, "output_index"@, output_index)
            &&& frame.text_at("item_id"@) == item_id
            &&& frame.text_at("delta"@) == Some(delta)
        },
        StreamEventView::FunctionArgumentsDone { output_index, item_id, arguments } => {
            &&& frame.text_at("type"@) == Some("response.function_call_arguments.done"@)
            &&& counts(frame, "output_index"@, output_index)
            &&& frame.text_at("item_id"@) == item_id
            &&& frame.text_at("arguments"@) == Some(arguments)
        },
        StreamEventView::HostedToolLifecycle { tool, phase, output_index, item_id } => {
            &&& hosted::lifecycle_name(tool, phase) is Some
            &&& frame.text_at("type"@) == hosted::lifecycle_name(tool, phase)
            &&& counts(frame, "output_index"@, output_index)
            &&& frame.text_at("item_id"@) == item_id
        },
        StreamEventView::HostedToolInputDelta { tool, output_index, item_id, delta } => {
            &&& frame.text_at("type"@) == Some(
                match tool {
                HostedTool::CodeInterpreter => "response.code_interpreter_call_code.delta"@,
                HostedTool::Mcp => "response.mcp_call_arguments.delta"@,
                _ => "response.custom_tool_call_input.delta"@,
            },
            )
            &&& tool == HostedTool::CodeInterpreter || tool == HostedTool::Mcp || tool
                == HostedTool::Custom
            &&& counts(frame, "output_index"@, output_index)
            &&& frame.text_at("item_id"@) == item_id
            &&& frame.text_at("delta"@) == Some(delta)
        },
        StreamEventView::HostedToolInputDone { tool, output_index, item_id, input } => {
            &&& frame.text_at("type"@) == Some(
                match tool {
                HostedTool::CodeInterpreter => "response.code_interpreter_call_code.done"@,
                HostedTool::Mcp => "response.mcp_call_arguments.done"@,
                _ => "response.custom_tool_call_input.done"@,
            },
            )
            &&& tool == HostedTool::CodeInterpreter || tool == HostedTool::Mcp || tool
                == HostedTool::Custom
            &&& counts(frame, "output_index"@, output_index)
            &&& frame.text_at("item_id"@) == item_id
            &&& frame.text_at(
                match tool {
                    HostedTool::CodeInterpreter => "code"@,
                    HostedTool::Mcp => "arguments"@,
                    _ => "input"@,
                },
            ) == Some(input)
        },
        StreamEventView::PartialImage {
            output_index,
            item_id,
            partial_image_index,
            partial_image_base64,
        } => {
            &&& frame.text_at("type"@) == Some("response.image_generation_call.partial_image"@)
            &&& counts(frame, "output_index"@, output_index)
            &&& frame.text_at("item_id"@) == item_id
            &&& counts(frame, "partial_image_index"@, partial_image_index)
            &&& frame.text_at("partial_image_b64"@) == Some(partial_image_base64)
        },
        StreamEventView::Annotation {
            output_index,
            content_index,
            annotation_index,
            annotation,
        } => {
            &&& frame.text_at("type"@) == Some("response.output_text.annotation.added"@)
            &&& counts(frame, "output_index"@, output_index)
            &&& counts(frame, "content_index"@, content_index)
            &&& counts(frame, "annotation_index"@, annotation_index)
            &&& frame.field("annotation"@) == Some(annotation)
        },
        StreamEventView::Audio { stream, response_id, delta, done } => {
            &&& frame.text_at("type"@) == Some(
                match (stream, done) {
                (AudioStream::Audio, false) => "response.audio.delta"@,
                (AudioStream::Audio, true) => "response.audio.done"@,
                (AudioStream::Transcript, false) => "response.audio.transcript.delta"@,
                (AudioStream::Transcript, true) => "response.audio.transcript.done"@,
            },
            )
            &&& frame.text_at("response_id"@) == response_id
            &&& if done {
                delta.len() == 0
            } else {
                frame.text_at("delta"@) == Some(delta)
            }
        },
        StreamEventView::ResponseProgress { stage, response } => {
            &&& frame.text_at("type"@) == Some(
                match stage {
                ProgressStage::Created => "response.created"@,
                ProgressStage::Queued => "response.queued"@,
                ProgressStage::InProgress => "response.in_progress"@,
            },
            )
            &&& frame.field("response"@) is Some
            &&& decode::snapshot_of(frame.field("response"@)->0) == Ok::<_, FrameErrorView>(response)
        },
        StreamEventView::Completed(response) => {
            &&& frame.text_at("type"@) == Some("response.completed"@)
            &&& frame.field("response"@) is Some
            &&& decode::snapshot_of(frame.field("response"@)->0) == Ok::<_, FrameErrorView>(response)
        },
        StreamEventView::Failed(response) => {
            &&& frame.text_at("type"@) == Some("response.failed"@)
            &&& frame.field("response"@) is Some
            &&& decode::snapshot_of(frame.field("response"@)->0) == Ok::<_, FrameErrorView>(response)
        },
        StreamEventView::Incomplete(response) => {
            &&& frame.text_at("type"@) == Some("response.incomplete"@)
            &&& frame.field("response"@) is Some
            &&& decode::snapshot_of(frame.field("response"@)->0) == Ok::<_, FrameErrorView>(response)
        },
        StreamEventView::OutputItemAdded { output_index, item } => {
            &&& frame.text_at("type"@) == Some("response.output_item.added"@)
            &&& counts(frame, "output_index"@, output_index)
            &&& frame.field("item"@) is Some
            &&& decode::item_of(frame.field("item"@)->0) == Ok::<_, FrameErrorView>(item)
        },
        StreamEventView::OutputItemDone { output_index, item } => {
            &&& frame.text_at("type"@) == Some("response.output_item.done"@)
            &&& counts(frame, "output_index"@, output_index)
            &&& frame.field("item"@) is Some
            &&& decode::item_of(frame.field("item"@)->0) == Ok::<_, FrameErrorView>(item)
        },
        StreamEventView::Error(error) => {
            &&& frame.text_at("type"@) == Some("error"@)
            &&& frame.text_at("code"@) == error.code
            &&& frame.text_at("param"@) == error.param
            &&& error.message == match frame.text_at("message"@) {
                Some(message) => message,
                None => Seq::empty(),
            }
        },
        StreamEventView::Unmodeled { kind } => {
            &&& frame.text_at("type"@) == Some(kind)
            &&& !decode::modeled(kind)
        },
    }
}

/// A frame that says all that an event says is read as that event. So whether a frame is read
/// depends on nothing else in it.
pub proof fn a_frame_that_says_it_is_read(frame: JsonView, event: StreamEventView)
    requires
        says(frame, event),
    ensures
        decode::event_of(frame) == Ok::<StreamEventView, FrameErrorView>(event),
{
    let kind = frame.text_at("type"@)->0;
    decode_laws::the_families_are_disjoint(kind);
    the_single_types_differ();
    match event {
        StreamEventView::HostedToolLifecycle { tool, phase, .. } => {
            hosted::lifecycle_names_read_back(tool, phase, kind);
        },
        StreamEventView::TextDelta { .. }
        | StreamEventView::TextDone { .. }
        | StreamEventView::Part { .. }
        | StreamEventView::HostedToolInputDelta { .. }
        | StreamEventView::HostedToolInputDone { .. }
        | StreamEventView::Audio { .. }
        | StreamEventView::ResponseProgress { .. } => {
            the_family_types_differ();
        },
        _ => {},
    }
    if let StreamEventView::Audio { delta, .. } = event {
        assert(delta.len() == 0 ==> delta =~= Seq::<char>::empty());
    }
}

proof fn the_single_types_differ()
    ensures
        "response.output_item.added"@ != "response.output_item.done"@,
        "response.output_item.added"@ != "response.function_call_arguments.delta"@,
        "response.output_item.added"@ != "response.function_call_arguments.done"@,
        "response.output_item.added"@ != "response.image_generation_call.partial_image"@,
        "response.output_item.added"@ != "response.output_text.annotation.added"@,
        "response.output_item.added"@ != "response.completed"@,
        "response.output_item.added"@ != "response.failed"@,
        "response.output_item.added"@ != "response.incomplete"@,
        "response.output_item.added"@ != "error"@,
        "response.output_item.done"@ != "response.function_call_arguments.delta"@,
        "response.output_item.done"@ != "response.function_call_arguments.done"@,
        "response.output_item.done"@ != "response.image_generation_call.partial_image"@,
        "response.output_item.done"@ != "response.output_text.annotation.added"@,
        "response.output_item.done"@ != "response.completed"@,
        "response.output_item.done"@ != "response.failed"@,
        "response.output_item.done"@ != "response.incomplete"@,
        "response.output_item.done"@ != "error"@,
        "response.function_call_arguments.delta"@ != "response.function_call_arguments.done"@,
        "response.function_call_arguments.delta"@ != "response.image_generation_call.partial_image"@,
        "response.function_call_arguments.delta"@ != "response.output_text.annotation.added"@,
        "response.function_call_arguments.delta"@ != "response.completed"@,
        "response.function_call_arguments.delta"@ != "response.failed"@,
        "response.function_call_arguments.delta"@ != "response.incomplete"@,
        "response.function_call_arguments.delta"@ != "error"@,
        "response.function_call_arguments.done"@ != "response.image_generation_call.partial_image"@,
        "response.function_call_arguments.done"@ != "response.output_text.annotation.added"@,
        "response.function_call_arguments.done"@ != "response.completed"@,
        "response.function_call_arguments.done"@ != "response.failed"@,
        "response.function_call_arguments.done"@ != "response.incomplete"@,
        "response.function_call_arguments.done"@ != "error"@,
        "response.image_generation_call.partial_image"@ != "response.output_text.annotation.added"@,
        "response.image_generation_call.partial_image"@ != "response.completed"@,
        "response.image_generation_call.partial_image"@ != "response.failed"@,
        "response.image_generation_call.partial_image"@ != "response.incomplete"@,
        "response.image_generation_call.partial_image"@ != "error"@,
        "response.output_text.annotation.added"@ != "response.completed"@,
        "response.output_text.annotation.added"@ != "response.failed"@,
        "response.output_text.annotation.added"@ != "response.incomplete"@,
        "response.output_text.annotation.added"@ != "error"@,
        "response.completed"@ != "response.failed"@,
        "response.completed"@ != "response.incomplete"@,
        "response.completed"@ != "error"@,
        "response.failed"@ != "response.incomplete"@,
        "response.failed"@ != "error"@,
        "response.incomplete"@ != "error"@,
{
    reveal_strlit("response.output_item.added");
    reveal_strlit("response.output_item.done");
    reveal_strlit("response.function_call_arguments.delta");
    reveal_strlit("response.function_call_arguments.done");
    reveal_strlit("response.image_generation_call.partial_image");
    reveal_strlit("response.output_text.annotation.added");
    reveal_strlit("response.completed");
    reveal_strlit("response.failed");
    reveal_strlit("response.incomplete");
    reveal_strlit("error");
    assert("response.output_item.added"@.len() == 26);
    assert("response.output_item.done"@.len() == 25);
    assert("response.function_call_arguments.delta"@.len() == 38);
    assert("response.function_call_arguments.done"@.len() == 37);
    assert("response.image_generation_call.partial_image"@.len() == 44);
    assert("response.output_text.annotation.added"@.len() == 37);
    assert("response.completed"@.len() == 18);
    assert("response.failed"@.len() == 15);
    assert("response.incomplete"@.len() == 19);
    assert("error"@.len() == 5);
    assert("response.function_call_arguments.done"@[9] == 'f');
    assert("response.output_text.annotation.added"@[9] == 'o');
}

proof fn the_family_types_differ()
    ensures
        "response.output_text.delta"@ != "response.output_text.done"@,
        "response.output_text.delta"@ != "response.refusal.delta"@,
        "response.output_text.delta"@ != "response.refusal.done"@,
        "response.output_text.delta"@ != "response.reasoning_summary_text.delta"@,
        "response.output_text.delta"@ != "response.reasoning_summary_text.done"@,
        "response.output_text.delta"@ != "response.reasoning_text.delta"@,
        "response.output_text.delta"@ != "response.reasoning_text.done"@,
        "response.output_text.done"@ != "response.refusal.delta"@,
        "response.output_text.done"@ != "response.refusal.done"@,
        "response.output_text.done"@ != "response.reasoning_summary_text.delta"@,
        "response.output_text.done"@ != "response.reasoning_summary_text.done"@,
        "response.output_text.done"@ != "response.reasoning_text.delta"@,
        "response.output_text.done"@ != "response.reasoning_text.done"@,
        "response.refusal.delta"@ != "response.refusal.done"@,
        "response.refusal.delta"@ != "response.reasoning_summary_text.delta"@,
        "response.refusal.delta"@ != "response.reasoning_summary_text.done"@,
        "response.refusal.delta"@ != "response.reasoning_text.delta"@,
        "response.refusal.delta"@ != "response.reasoning_text.done"@,
        "response.refusal.done"@ != "response.reasoning_summary_text.delta"@,
        "response.refusal.done"@ != "response.reasoning_summary_text.done"@,
        "response.refusal.done"@ != "response.reasoning_text.delta"@,
        "response.refusal.done"@ != "response.reasoning_text.done"@,
        "response.reasoning_summary_text.delta"@ != "response.reasoning_summary_text.done"@,
        "response.reasoning_summary_text.delta"@ != "response.reasoning_text.delta"@,
        "response.reasoning_summary_text.delta"@ != "response.reasoning_text.done"@,
        "response.reasoning_summary_text.done"@ != "response.reasoning_text.delta"@,
        "response.reasoning_summary_text.done"@ != "response.reasoning_text.done"@,
        "response.reasoning_text.delta"@ != "response.reasoning_text.done"@,
        "response.content_part.added"@ != "response.content_part.done"@,
        "response.content_part.added"@ != "response.reasoning_summary_part.added"@,
        "response.content_part.added"@ != "response.reasoning_summary_part.done"@,
        "response.content_part.done"@ != "response.reasoning_summary_part.added"@,
        "response.content_part.done"@ != "response.reasoning_summary_part.done"@,
        "response.reasoning_summary_part.added"@ != "response.reasoning_summary_part.done"@,
        "response.code_interpreter_call_code.delta"@ != "response.code_interpreter_call_code.done"@,
        "response.code_interpreter_call_code.delta"@ != "response.mcp_call_arguments.delta"@,
        "response.code_interpreter_call_code.delta"@ != "response.mcp_call_arguments.done"@,
        "response.code_interpreter_call_code.delta"@ != "response.custom_tool_call_input.delta"@,
        "response.code_interpreter_call_code.delta"@ != "response.custom_tool_call_input.done"@,
        "response.code_interpreter_call_code.done"@ != "response.mcp_call_arguments.delta"@,
        "response.code_interpreter_call_code.done"@ != "response.mcp_call_arguments.done"@,
        "response.code_interpreter_call_code.done"@ != "response.custom_tool_call_input.delta"@,
        "response.code_interpreter_call_code.done"@ != "response.custom_tool_call_input.done"@,
        "response.mcp_call_arguments.delta"@ != "response.mcp_call_arguments.done"@,
        "response.mcp_call_arguments.delta"@ != "response.custom_tool_call_input.delta"@,
        "response.mcp_call_arguments.delta"@ != "response.custom_tool_call_input.done"@,
        "response.mcp_call_arguments.done"@ != "response.custom_tool_call_input.delta"@,
        "response.mcp_call_arguments.done"@ != "response.custom_tool_call_input.done"@,
        "response.custom_tool_call_input.delta"@ != "response.custom_tool_call_input.done"@,
        "response.audio.delta"@ != "response.audio.done"@,
        "response.audio.delta"@ != "response.audio.transcript.delta"@,
        "response.audio.delta"@ != "response.audio.transcript.done"@,
        "response.audio.done"@ != "response.audio.transcript.delta"@,
        "response.audio.done"@ != "response.audio.transcript.done"@,
        "response.audio.transcript.delta"@ != "response.audio.transcript.done"@,
        "response.created"@ != "response.queued"@,
        "response.created"@ != "response.in_progress"@,
        "response.queued"@ != "response.in_progress"@,
{
    reveal_strlit("response.output_text.delta");
    reveal_strlit("response.output_text.done");
    reveal_strlit("response.refusal.delta");
    reveal_strlit("response.refusal.done");
    reveal_strlit("response.reasoning_summary_text.delta");
    reveal_strlit("response.reasoning_summary_text.done");
    reveal_strlit("response.reasoning_text.delta");
    reveal_strlit("response.reasoning_text.done");
    reveal_strlit("response.content_part.added");
    reveal_strlit("response.content_part.done");
    reveal_strlit("response.reasoning_summary_part.added");
    reveal_strlit("response.reasoning_summary_part.done");
    reveal_strlit("response.code_interpreter_call_code.delta");
    reveal_strlit("response.code_interpreter_call_code.done");
    reveal_strlit("response.mcp_call_arguments.delta");
    reveal_strlit("response.mcp_call_arguments.done");
    reveal_strlit("response.custom_tool_call_input.delta");
    reveal_strlit("response.custom_tool_call_input.done");
    reveal_strlit("response.audio.delta");
    reveal_strlit("response.audio.done");
    reveal_strlit("response.audio.transcript.delta");
    reveal_strlit("response.audio.transcript.done");
    reveal_strlit("response.created");
    reveal_strlit("response.queued");
    reveal_strlit("response.in_progress");
    assert("response.output_text.delta"@.len() == 26);
    assert("response.output_text.done"@.len() == 25);
    assert("response.refusal.delta"@.len() == 22);
    assert("response.refusal.done"@.len() == 21);
    assert("response.reasoning_summary_text.delta"@.len() == 37);
    assert("response.reasoning_summary_text.done"@.len() == 36);
    assert("response.reasoning_text.delta"@.len() == 29);
    assert("response.reasoning_text.done"@.len() == 28);
    assert("response.content_part.added"@.len() == 27);
    assert("response.content_part.done"@.len() == 26);
    assert("response.reasoning_summary_part.added"@.len() == 37);
    assert("response.reasoning_summary_part.done"@.len() == 36);
    assert("response.code_interpreter_call_code.delta"@.len() == 41);
    assert("response.code_interpreter_call_code.done"@.len() == 40);
    assert("response.mcp_call_arguments.delta"@.len() == 33);
    assert("response.mcp_call_arguments.done"@.len() == 32);
    assert("response.custom_tool_call_input.delta"@.len() == 37);
    assert("response.custom_tool_call_input.done"@.len() == 36);
    assert("response.audio.delta"@.len() == 20);
    assert("response.audio.done"@.len() == 19);
    assert("response.audio.transcript.delta"@.len() == 31);
    assert("response.audio.transcript.done"@.len() == 30);
    assert("response.created"@.len() == 16);
    assert("response.queued"@.len() == 15);
    assert("response.in_progress"@.len() == 20);
    assert("response.output_text.delta"@[9] == 'o');
    assert("response.content_part.done"@[9] == 'c');
    assert("response.reasoning_summary_text.delta"@[27] == 't');
    assert("response.reasoning_summary_part.added"@[27] == 'p');
    assert("response.reasoning_summary_text.delta"@[9] == 'r');
    assert("response.custom_tool_call_input.delta"@[9] == 'c');
    assert("response.reasoning_summary_text.done"@[27] == 't');
    assert("response.reasoning_summary_part.done"@[27] == 'p');
    assert("response.reasoning_summary_text.done"@[9] == 'r');
    assert("response.custom_tool_call_input.done"@[9] == 'c');
    assert("response.reasoning_summary_part.added"@[9] == 'r');
    assert("response.reasoning_summary_part.done"@[9] == 'r');
    assert("response.audio.delta"@[9] == 'a');
    assert("response.in_progress"@[9] == 'i');
}

/// A refusal says what is wrong with the frame: it is no object, a field the event needs is
/// absent, or one is there and is not what it has to be. What is wrong with an item or a
/// response the frame carries is said of that item or response.
pub proof fn a_refused_frame_is_told_what_is_wrong(frame: JsonView, error: FrameErrorView)
    requires
        decode::event_of(frame) == Err::<StreamEventView, FrameErrorView>(error),
        frame.field("item"@) is None,
        frame.field("response"@) is None,
    ensures
        match error {
            FrameErrorView::NotAnObject => !(frame is Object),
            FrameErrorView::MissingField { field } => frame is Object && frame.field(field) is None,
            FrameErrorView::WrongType { field, expected } => {
                &&& frame.field(field) is Some
                &&& if expected == "a string"@ {
                    frame.text_at(field) is None
                } else {
                    &&& expected == "a non-negative integer"@
                    &&& forall|n: u32| !counts(frame, field, n)
                }
            },
            _ => false,
        },
{
    reveal_strlit("a string");
    reveal_strlit("a non-negative integer");
    assert("a string"@.len() == 8 && "a non-negative integer"@.len() == 22);
}

/// A value that is no object is refused as that, and one whose `type` is absent or no string
/// is told so.
pub proof fn a_frame_needs_a_type(frame: JsonView)
    ensures
        !(frame is Object) ==> decode::event_of(frame) == Err::<StreamEventView, FrameErrorView>(
            FrameErrorView::NotAnObject,
        ),
        frame is Object && frame.field("type"@) is None ==> decode::event_of(frame) == Err::<
            StreamEventView,
            FrameErrorView,
        >(FrameErrorView::MissingField { field: "type"@ }),
        frame.field("type"@) is Some && frame.text_at("type"@) is None ==> decode::event_of(frame)
            == Err::<StreamEventView, FrameErrorView>(
            FrameErrorView::WrongType { field: "type"@, expected: "a string"@ },
        ),
{
}

/// A lifecycle event's type is made of the type of its tool's call and the word of its phase,
/// and there is one for each phase the tool goes through.
pub proof fn a_lifecycle_type_names_its_tool_and_phase(tool: HostedTool, phase: HostedToolPhase)
    ensures
        hosted::lifecycle_name(tool, phase) is Some <==> match phase {
            HostedToolPhase::InProgress | HostedToolPhase::Completed => match tool {
                HostedTool::FileSearch
                | HostedTool::WebSearch
                | HostedTool::CodeInterpreter
                | HostedTool::ImageGeneration
                | HostedTool::Mcp
                | HostedTool::McpListTools => true,
                _ => false,
            },
            HostedToolPhase::Searching => tool == HostedTool::FileSearch || tool
                == HostedTool::WebSearch,
            HostedToolPhase::Interpreting => tool == HostedTool::CodeInterpreter,
            HostedToolPhase::Generating => tool == HostedTool::ImageGeneration,
            HostedToolPhase::Failed => tool == HostedTool::Mcp || tool == HostedTool::McpListTools,
        },
        hosted::lifecycle_name(tool, phase) matches Some(kind) ==> exists|call: Seq<char>|
            {
                &&& kind == "response."@ + call + "."@ + match phase {
                    HostedToolPhase::InProgress => "in_progress"@,
                    HostedToolPhase::Searching => "searching"@,
                    HostedToolPhase::Interpreting => "interpreting"@,
                    HostedToolPhase::Generating => "generating"@,
                    HostedToolPhase::Completed => "completed"@,
                    HostedToolPhase::Failed => "failed"@,
                }
                &&& #[trigger] decode::hosted_call_named(call) == Some(tool)
            },
{
    reveal_strlit("response.");
    reveal_strlit(".");
    reveal_strlit("file_search_call");
    reveal_strlit("web_search_call");
    reveal_strlit("code_interpreter_call");
    reveal_strlit("image_generation_call");
    reveal_strlit("mcp_call");
    reveal_strlit("mcp_list_tools");
    reveal_strlit("in_progress");
    reveal_strlit("searching");
    reveal_strlit("interpreting");
    reveal_strlit("generating");
    reveal_strlit("completed");
    reveal_strlit("failed");
    reveal_strlit("response.file_search_call.in_progress");
    reveal_strlit("response.file_search_call.searching");
    reveal_strlit("response.file_search_call.completed");
    reveal_strlit("response.web_search_call.in_progress");
    reveal_strlit("response.web_search_call.searching");
    reveal_strlit("response.web_search_call.completed");
    reveal_strlit("response.code_interpreter_call.in_progress");
    reveal_strlit("response.code_interpreter_call.interpreting");
    reveal_strlit("response.code_interpreter_call.completed");
    reveal_strlit("response.image_generation_call.in_progress");
    reveal_strlit("response.image_generation_call.generating");
    reveal_strlit("response.image_generation_call.completed");
    reveal_strlit("response.mcp_call.in_progress");
    reveal_strlit("response.mcp_call.completed");
    reveal_strlit("response.mcp_call.failed");
    reveal_strlit("response.mcp_list_tools.in_progress");
    reveal_strlit("response.mcp_list_tools.completed");
    reveal_strlit("response.mcp_list_tools.failed");
    assert("file_search_call"@.len() == 16);
    assert("web_search_call"@.len() == 15);
    assert("code_interpreter_call"@.len() == 21);
    assert("image_generation_call"@.len() == 21);
    assert("mcp_call"@.len() == 8);
    assert("mcp_list_tools"@.len() == 14);
    if hosted::lifecycle_name(tool, phase) is Some {
        let kind = hosted::lifecycle_name(tool, phase)->0;
        let call = match tool {
            HostedTool::FileSearch => "file_search_call"@,
            HostedTool::WebSearch => "web_search_call"@,
            HostedTool::CodeInterpreter => "code_interpreter_call"@,
            HostedTool::ImageGeneration => "image_generation_call"@,
            HostedTool::Mcp => "mcp_call"@,
            _ => "mcp_list_tools"@,
        };
        let word = match phase {
            HostedToolPhase::InProgress => "in_progress"@,
            HostedToolPhase::Searching => "searching"@,
            HostedToolPhase::Interpreting => "interpreting"@,
            HostedToolPhase::Generating => "generating"@,
            HostedToolPhase::Completed => "completed"@,
            HostedToolPhase::Failed => "failed"@,
        };
        assert(kind =~= "response."@ + call + "."@ + word);
        call_types_differ();
        assert(decode::hosted_call_named(call) == Some(tool));
    }
}

/// The types of output items differ.
pub proof fn call_types_differ()
    ensures
        "file_search_call"@ != "web_search_call"@,
        "file_search_call"@ != "code_interpreter_call"@,
        "file_search_call"@ != "image_generation_call"@,
        "file_search_call"@ != "mcp_call"@,
        "file_search_call"@ != "mcp_list_tools"@,
        "file_search_call"@ != "shell_call"@,
        "file_search_call"@ != "local_shell_call"@,
        "file_search_call"@ != "computer_call"@,
        "file_search_call"@ != "apply_patch_call"@,
        "file_search_call"@ != "custom_tool_call"@,
        "file_search_call"@ != "tool_search_call"@,
        "file_search_call"@ != "message"@,
        "file_search_call"@ != "function_call"@,
        "file_search_call"@ != "reasoning"@,
        "web_search_call"@ != "code_interpreter_call"@,
        "web_search_call"@ != "image_generation_call"@,
        "web_search_call"@ != "mcp_call"@,
        "web_search_call"@ != "mcp_list_tools"@,
        "web_search_call"@ != "shell_call"@,
        "web_search_call"@ != "local_shell_call"@,
        "web_search_call"@ != "computer_call"@,
        "web_search_call"@ != "apply_patch_call"@,
        "web_search_call"@ != "custom_tool_call"@,
        "web_search_call"@ != "tool_search_call"@,
        "web_search_call"@ != "message"@,
        "web_search_call"@ != "function_call"@,
        "web_search_call"@ != "reasoning"@,
        "code_interpreter_call"@ != "image_generation_call"@,
        "code_interpreter_call"@ != "mcp_call"@,
        "code_interpreter_call"@ != "mcp_list_tools"@,
        "code_interpreter_call"@ != "shell_call"@,
        "code_interpreter_call"@ != "local_shell_call"@,
        "code_interpreter_call"@ != "computer_call"@,
        "code_interpreter_call"@ != "apply_patch_call"@,
        "code_interpreter_call"@ != "custom_tool_call"@,
        "code_interpreter_call"@ != "tool_search_call"@,
        "code_interpreter_call"@ != "message"@,
        "code_interpreter_call"@ != "function_call"@,
        "code_interpreter_call"@ != "reasoning"@,
        "image_generation_call"@ != "mcp_call"@,
        "image_generation_call"@ != "mcp_list_tools"@,
        "image_generation_call"@ != "shell_call"@,
        "image_generation_call"@ != "local_shell_call"@,
        "image_generation_call"@ != "computer_call"@,
        "image_generation_call"@ != "apply_patch_call"@,
        "image_generation_call"@ != "custom_tool_call"@,
        "image_generation_call"@ != "tool_search_call"@,
        "image_generation_call"@ != "message"@,
        "image_generation_call"@ != "function_call"@,
        "image_generation_call"@ != "reasoning"@,
        "mcp_call"@ != "mcp_list_tools"@,
        "mcp_call"@ != "shell_call"@,
        "mcp_call"@ != "local_shell_call"@,
        "mcp_call"@ != "computer_call"@,
        "mcp_call"@ != "apply_patch_call"@,
        "mcp_call"@ != "custom_tool_call"@,
        "mcp_call"@ != "tool_search_call"@,
        "mcp_call"@ != "message"@,
        "mcp_call"@ != "function_call"@,
        "mcp_call"@ != "reasoning"@,
        "mcp_list_tools"@ != "shell_call"@,
        "mcp_list_tools"@ != "local_shell_call"@,
        "mcp_list_tools"@ != "computer_call"@,
        "mcp_list_tools"@ != "apply_patch_call"@,
        "mcp_list_tools"@ != "custom_tool_call"@,
        "mcp_list_tools"@ != "tool_search_call"@,
        "mcp_list_tools"@ != "message"@,
        "mcp_list_tools"@ != "function_call"@,
        "mcp_list_tools"@ != "reasoning"@,
        "shell_call"@ != "local_shell_call"@,
        "shell_call"@ != "computer_call"@,
        "shell_call"@ != "apply_patch_call"@,
        "shell_call"@ != "custom_tool_call"@,
        "shell_call"@ != "tool_search_call"@,
        "shell_call"@ != "message"@,
        "shell_call"@ != "function_call"@,
        "shell_call"@ != "reasoning"@,
        "local_shell_call"@ != "computer_call"@,
        "local_shell_call"@ != "apply_patch_call"@,
        "local_shell_call"@ != "custom_tool_call"@,
        "local_shell_call"@ != "tool_search_call"@,
        "local_shell_call"@ != "message"@,
        "local_shell_call"@ != "function_call"@,
        "local_shell_call"@ != "reasoning"@,
        "computer_call"@ != "apply_patch_call"@,
        "computer_call"@ != "custom_tool_call"@,
        "computer_call"@ != "tool_search_call"@,
        "computer_call"@ != "message"@,
        "computer_call"@ != "function_call"@,
        "computer_call"@ != "reasoning"@,
        "apply_patch_call"@ != "custom_tool_call"@,
        "apply_patch_call"@ != "tool_search_call"@,
        "apply_patch_call"@ != "message"@,
        "apply_patch_call"@ != "function_call"@,
        "apply_patch_call"@ != "reasoning"@,
        "custom_tool_call"@ != "tool_search_call"@,
        "custom_tool_call"@ != "message"@,
        "custom_tool_call"@ != "function_call"@,
        "custom_tool_call"@ != "reasoning"@,
        "tool_search_call"@ != "message"@,
        "tool_search_call"@ != "function_call"@,
        "tool_search_call"@ != "reasoning"@,
        "message"@ != "function_call"@,
        "message"@ != "reasoning"@,
        "function_call"@ != "reasoning"@,
{
    reveal_strlit("file_search_call");
    reveal_strlit("web_search_call");
    reveal_strlit("code_interpreter_call");
    reveal_strlit("image_generation_call");
    reveal_strlit("mcp_call");
    reveal_strlit("mcp_list_tools");
    reveal_strlit("shell_call");
    reveal_strlit("local_shell_call");
    reveal_strlit("computer_call");
    reveal_strlit("apply_patch_call");
    reveal_strlit("custom_tool_call");
    reveal_strlit("tool_search_call");
    reveal_strlit("message");
    reveal_strlit("function_call");
    reveal_strlit("reasoning");
    assert("file_search_call"@.len() == 16);
    assert("web_search_call"@.len() == 15);
    assert("code_interpreter_call"@.len() == 21);
    assert("image_generation_call"@.len() == 21);
    assert("mcp_call"@.len() == 8);
    assert("mcp_list_tools"@.len() == 14);
    assert("shell_call"@.len() == 10);
    assert("local_shell_call"@.len() == 16);
    assert("computer_call"@.len() == 13);
    assert("apply_patch_call"@.len() == 16);
    assert("custom_tool_call"@.len() == 16);
    assert("tool_search_call"@.len() == 16);
    assert("message"@.len() == 7);
    assert("function_call"@.len() == 13);
    assert("reasoning"@.len() == 9);
    assert("file_search_call"@[0] == 'f');
    assert("local_shell_call"@[0] == 'l');
    assert("apply_patch_call"@[0] == 'a');
    assert("custom_tool_call"@[0] == 'c');
    assert("tool_search_call"@[0] == 't');
    assert("code_interpreter_call"@[0] == 'c');
    assert("image_generation_call"@[0] == 'i');
    assert("computer_call"@[0] == 'c');
    assert("function_call"@[0] == 'f');
}

} // verus!
