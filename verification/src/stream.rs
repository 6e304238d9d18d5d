//! One streamed frame becomes one typed event.
//!
//! A streaming response is a sequence of Server-Sent Events, each carrying a JSON object
//! whose `type` field names it. This module turns one such payload into a [`StreamEvent`];
//! [`crate::settle`] turns a sequence of them into a finished response.
//!
//! Adding a streaming event type is a compatible change by OpenAI's own promise, so an
//! event this crate does not know is [`StreamEvent::Unmodeled`] and never a
//! [`FrameError`]. What *is* an error: bytes that are not JSON, a payload that is not an
//! object, a missing `type`, a field whose type contradicts the schema, and a `usage`
//! object that cannot be read.
use vstd::prelude::*;

use crate::hosted;
use crate::hosted::HostedToolPhase;
use crate::items::{
    FunctionArguments, OutputItemView, ResponseError, ResponseErrorView, ResponseSnapshot,
    ResponseSnapshotView,
};
use crate::json::{Json, JsonError, JsonErrorView, JsonView};
use crate::ordered;
use crate::ordered::{OrderedMap, Ranked};
use crate::text;
use crate::usage::UsageError;
use crate::values::{HostedTool, ResponseStatus};
use crate::views;

pub use crate::items::OutputItem;

verus! {

/// Why one frame could not be decoded.
///
/// Every variant describes a frame that contradicts the documented schema. An event type
/// this crate does not model is deliberately absent from this list.
#[derive(Debug)]
pub enum FrameError {
    /// The payload was not JSON at all.
    NotJson(JsonError),
    /// The payload parsed, but was not a JSON object.
    NotAnObject,
    /// A field the event cannot be interpreted without was absent.
    MissingField {
        /// The absent field.
        field: &'static str,
    },
    /// A field was present with the wrong JSON type.
    WrongType {
        /// The offending field.
        field: &'static str,
        /// What the schema says it should have been.
        expected: &'static str,
    },
    /// A `usage` object was present but could not be read. Reported rather than dropped:
    /// usage that silently read as absent would hide the measurement the caller is here for.
    UndecodableUsage(UsageError),
}

/// What a [`FrameError`] holds.
#[verifier::ext_equal]
pub enum FrameErrorView {
    NotJson(JsonErrorView),
    NotAnObject,
    MissingField { field: Seq<char> },
    WrongType { field: Seq<char>, expected: Seq<char> },
    UndecodableUsage(Seq<char>),
}

impl View for FrameError {
    type V = FrameErrorView;

    open spec fn view(&self) -> FrameErrorView {
        match self {
            FrameError::NotJson(error) => FrameErrorView::NotJson(error@),
            FrameError::NotAnObject => FrameErrorView::NotAnObject,
            FrameError::MissingField { field } => FrameErrorView::MissingField { field: field@ },
            FrameError::WrongType { field, expected } => FrameErrorView::WrongType {
                field: field@,
                expected: expected@,
            },
            FrameError::UndecodableUsage(error) => FrameErrorView::UndecodableUsage(error@),
        }
    }
}

impl FrameErrorView {
    /// The error in words.
    pub open spec fn words(self) -> Seq<char> {
        match self {
            FrameErrorView::NotJson(error) => "streamed frame is not JSON: "@ + error.message,
            FrameErrorView::NotAnObject => "streamed frame is not a JSON object"@,
            FrameErrorView::MissingField { field } => "streamed frame has no `"@ + field + "`"@,
            FrameErrorView::WrongType { field, expected } => "streamed frame field `"@ + field
                + "` is not "@ + expected,
            FrameErrorView::UndecodableUsage(error) => "streamed `usage` object is unusable: "@
                + error,
        }
    }
}

impl FrameError {
    /// The error in words.
    pub fn message(&self) -> (words: String)
        ensures
            words@ == self@.words(),
    {
        match self {
            FrameError::NotJson(error) => "streamed frame is not JSON: ".to_owned().concat(
                error.message.as_str(),
            ),
            FrameError::NotAnObject => "streamed frame is not a JSON object".to_owned(),
            FrameError::MissingField { field } => "streamed frame has no `".to_owned().concat(
                field,
            ).concat("`"),
            FrameError::WrongType { field, expected } => "streamed frame field `".to_owned().concat(
                field,
            ).concat("` is not ").concat(expected),
            FrameError::UndecodableUsage(error) => {
                "streamed `usage` object is unusable: ".to_owned().concat(error.message.as_str())
            },
        }
    }
}

/// The value of a `data:` field in a line, where the line is one: what follows the colon,
/// less one space.
pub open spec fn payload_of(line: Seq<char>) -> Option<Seq<char>> {
    if "data:"@.is_prefix_of(line) {
        let rest = line.skip("data:"@.len() as int);
        if rest.len() > 0 && rest[0] == ' ' {
            Some(rest.skip(1))
        } else {
            Some(rest)
        }
    } else {
        None
    }
}

/// The value of a `data:` field, for one line of an SSE body.
///
/// `None` for everything else a stream contains, so a caller can pass every line through
/// and act on what comes back. Per the SSE grammar one optional space after the colon is
/// part of the framing, not the data, and is removed.
pub fn data_payload(line: &str) -> (payload: Option<&str>)
    ensures
        views::option_view(payload) == payload_of(line@),
{
    match text::strip_prefix(line, "data:") {
        None => None,
        Some(rest) => {
            assert(line@.skip("data:"@.len() as int) =~= rest@);
            assert("data:"@.is_prefix_of(line@));
            proof {
                reveal_strlit(" ");
            }
            match text::strip_prefix(rest, " ") {
                Some(inner) => {
                    assert(rest@[0] == " "@[0]);
                    assert(rest@.skip(1) =~= inner@);
                    Some(inner)
                },
                None => {
                    assert(rest@.len() > 0 && rest@[0] == ' ' ==> " "@.is_prefix_of(rest@));
                    Some(rest)
                },
            }
        },
    }
}

/// Which of the model's four text streams a delta belongs to.
///
/// All four carry an output index and a part index and accumulate the same way; the
/// difference that matters is kept, because it decides where the text may be shown.
#[derive(Debug, Clone, Copy, PartialEq, Eq, PartialOrd, Ord, Hash, Structural)]
pub enum TextStream {
    /// `output_text`: the answer. This is what a user reads.
    Output,
    /// `refusal`: the model declining. **Not** answer text: a refusal folded into the
    /// answer reads as the answer, and the two must stay apart.
    Refusal,
    /// `reasoning_summary_text`: the summarized reasoning, safe to show.
    ReasoningSummary,
    /// `reasoning_text`: the raw reasoning, on the models that stream it.
    Reasoning,
}

impl TextStream {
    /// The word that names this stream on the wire.
    pub open spec fn wire(self) -> Seq<char> {
        match self {
            TextStream::Output => "output_text"@,
            TextStream::Refusal => "refusal"@,
            TextStream::ReasoningSummary => "reasoning_summary_text"@,
            TextStream::Reasoning => "reasoning_text"@,
        }
    }

    /// The field that holds the whole text of a finished part.
    pub open spec fn text_field(self) -> Seq<char> {
        match self {
            TextStream::Refusal => "refusal"@,
            _ => "text"@,
        }
    }

    /// The field that holds the index of a part.
    pub open spec fn index_field(self) -> Seq<char> {
        match self {
            TextStream::ReasoningSummary => "summary_index"@,
            _ => "content_index"@,
        }
    }

    /// The stream's wire name, the middle of its event types.
    pub fn as_str(self) -> (s: &'static str)
        ensures
            s@ == self.wire(),
    {
        match self {
            Self::Output => "output_text",
            Self::Refusal => "refusal",
            Self::ReasoningSummary => "reasoning_summary_text",
            Self::Reasoning => "reasoning_text",
        }
    }

    /// Whether this text belongs in the answer a user reads. The only stream that does is
    /// [`Self::Output`].
    pub fn is_answer_text(self) -> (r: bool)
        ensures
            r == (self == TextStream::Output),
    {
        match self {
            Self::Output => true,
            _ => false,
        }
    }

    /// Which field name the `done` event uses for the whole text, and which field names its
    /// part index.
    pub(crate) fn wire_fields(self) -> (fields: (&'static str, &'static str))
        ensures
            fields.0@ == self.text_field(),
            fields.1@ == self.index_field(),
    {
        match self {
            Self::Output => ("text", "content_index"),
            Self::Refusal => ("refusal", "content_index"),
            Self::ReasoningSummary => ("text", "summary_index"),
            Self::Reasoning => ("text", "content_index"),
        }
    }
}

/// Whether a part event opens a part or closes it.
#[derive(Debug, Clone, Copy, PartialEq, Eq, PartialOrd, Ord, Hash, Structural)]
pub enum PartBoundary {
    /// The part now exists, and its text is empty.
    Added,
    /// The part is complete, and its whole text is here.
    Done,
}

impl PartBoundary {
    /// The word that names this boundary on the wire.
    pub open spec fn wire(self) -> Seq<char> {
        match self {
            PartBoundary::Added => "added"@,
            PartBoundary::Done => "done"@,
        }
    }

    /// The boundary's wire word, the tail of its event type.
    pub fn as_str(self) -> (s: &'static str)
        ensures
            s@ == self.wire(),
    {
        match self {
            Self::Added => "added",
            Self::Done => "done",
        }
    }
}

/// Which non-terminal stage a progress event announces.
///
/// Three stages rather than a [`ResponseStatus`], because `created` and `queued` are two
/// events that report the same status.
#[derive(Debug, Clone, Copy, PartialEq, Eq, PartialOrd, Ord, Hash, Structural)]
pub enum ProgressStage {
    /// `response.created`: the request was accepted. Every stream begins here.
    Created,
    /// `response.queued`: it is waiting for capacity.
    Queued,
    /// `response.in_progress`: the model is generating.
    InProgress,
}

impl ProgressStage {
    /// The stage's event type.
    pub open spec fn wire(self) -> Seq<char> {
        match self {
            ProgressStage::Created => "response.created"@,
            ProgressStage::Queued => "response.queued"@,
            ProgressStage::InProgress => "response.in_progress"@,
        }
    }

    /// The stage's own wire event type.
    pub fn as_str(self) -> (s: &'static str)
        ensures
            s@ == self.wire(),
    {
        match self {
            Self::Created => "response.created",
            Self::Queued => "response.queued",
            Self::InProgress => "response.in_progress",
        }
    }

    /// The status a response has at this stage. Two stages share one status.
    pub fn status(self) -> (status: ResponseStatus)
        ensures
            status == match self {
                ProgressStage::InProgress => ResponseStatus::InProgress,
                _ => ResponseStatus::Queued,
            },
    {
        match self {
            Self::Created | Self::Queued => ResponseStatus::Queued,
            Self::InProgress => ResponseStatus::InProgress,
        }
    }
}

/// Which half of a generated-audio response a frame carries.
#[derive(Debug, Clone, Copy, PartialEq, Eq, PartialOrd, Ord, Hash, Structural)]
pub enum AudioStream {
    /// The audio itself, base64-encoded.
    Audio,
    /// Its transcript, as text.
    Transcript,
}

/// One decoded streaming event.
///
/// The variants are the kinds of thing the API reports, and which stream, tool or stage a
/// thing belongs to is a field: growing text is [`Self::TextDelta`] plus a [`TextStream`],
/// a hosted tool's notice is [`Self::HostedToolLifecycle`] plus a [`HostedTool`] and a
/// [`HostedToolPhase`]. [`Self::Unmodeled`] remains for anything OpenAI adds next.
#[allow(inconsistent_fields)]
#[derive(Debug, PartialEq)]
pub enum StreamEvent {
    /// A run of text grew.
    TextDelta {
        /// Which stream grew.
        stream: TextStream,
        /// Which output item this text belongs to.
        output_index: u32,
        /// Which part within that item. `content_index` on the wire for three
        /// of the streams and `summary_index` for the reasoning summary; one
        /// field here, because it means the same thing.
        part_index: u32,
        /// The new text, to append.
        delta: String,
    },
    /// `response.output_item.added`: an item has begun.
    OutputItemAdded {
        /// Its position in the `output` array.
        output_index: u32,
        /// The item as far as it exists.
        item: OutputItem,
    },
    /// `response.output_item.done`: an item is complete.
    OutputItemDone {
        /// Its position in the `output` array.
        output_index: u32,
        /// The finished item.
        item: OutputItem,
    },
    /// A run of text finished, and this is the whole of it.
    TextDone {
        /// Which text stream finished.
        stream: TextStream,
        /// Which output item it belongs to.
        output_index: u32,
        /// Which part within that item.
        part_index: u32,
        /// The whole text of that part.
        text: String,
    },
    /// A content part or reasoning summary part began or ended.
    Part {
        /// Which stream the part belongs to.
        stream: TextStream,
        /// Whether it began or ended.
        boundary: PartBoundary,
        /// Which output item it belongs to.
        output_index: u32,
        /// Its index within that item.
        part_index: u32,
        /// Its text: empty on `added`, whole on `done`.
        text: String,
    },
    /// A function call's arguments grew, or finished.
    FunctionArgumentsDelta {
        /// Which output item is the call.
        output_index: u32,
        /// The item's identifier, absent where a gateway omits it.
        item_id: Option<String>,
        /// The new fragment, to append. Not JSON on its own.
        delta: String,
    },
    /// A function call's arguments are complete.
    FunctionArgumentsDone {
        /// Which output item is the call.
        output_index: u32,
        /// The item's identifier, absent where a gateway omits it.
        item_id: Option<String>,
        /// The whole arguments string, exactly as the model emitted it.
        arguments: FunctionArguments,
    },
    /// A hosted tool's call reached a new phase.
    HostedToolLifecycle {
        /// Which built-in tool.
        tool: HostedTool,
        /// What it is now doing.
        phase: HostedToolPhase,
        /// Which output item is the call.
        output_index: u32,
        /// The call item's identifier, absent where a gateway omits it.
        item_id: Option<String>,
    },
    /// A hosted tool's input grew: code being written, MCP arguments being
    /// composed, a custom tool's free-text input.
    HostedToolInputDelta {
        /// Which built-in tool is composing.
        tool: HostedTool,
        /// Which output item is the call.
        output_index: u32,
        /// The call item's identifier, absent where a gateway omits it.
        item_id: Option<String>,
        /// The new fragment, to append.
        delta: String,
    },
    /// A hosted tool's input is complete.
    HostedToolInputDone {
        /// Which built-in tool composed it.
        tool: HostedTool,
        /// Which output index is the call.
        output_index: u32,
        /// The call item's identifier, absent where a gateway omits it.
        item_id: Option<String>,
        /// The whole input.
        input: String,
    },
    /// A partial image from the image-generation tool.
    PartialImage {
        /// Which output item is the call.
        output_index: u32,
        /// The call item's identifier, absent where a gateway omits it.
        item_id: Option<String>,
        /// Which partial image this is, counting from zero.
        partial_image_index: u32,
        /// The image, base64-encoded. Kept encoded: decoding it is the caller's
        /// choice, and this crate takes no image dependency to do it.
        partial_image_base64: String,
    },
    /// A citation or file path was attached to a run of output text.
    Annotation {
        /// Which output item the annotated text belongs to.
        output_index: u32,
        /// Which content part within that item.
        content_index: u32,
        /// Which annotation on that part.
        annotation_index: u32,
        /// The annotation object, undecoded.
        annotation: Json,
    },
    /// Generated audio, or its transcript, grew or finished.
    Audio {
        /// Which stream: the audio itself or its transcript.
        stream: AudioStream,
        /// The response's identifier, as the frame states it.
        response_id: Option<String>,
        /// The new fragment, base64 for audio and text for a transcript. Empty
        /// on the `done` form, which carries no payload.
        delta: String,
        /// Whether this is the final frame of that stream.
        done: bool,
    },
    /// The response's own generation reached a new stage.
    ResponseProgress {
        /// Which stage was announced.
        stage: ProgressStage,
        /// The response so far. Its `output` is usually empty here.
        response: ResponseSnapshot,
    },
    /// `response.completed`: the model answered. Terminal.
    Completed(ResponseSnapshot),
    /// `response.failed`: the response failed. Terminal.
    Failed(ResponseSnapshot),
    /// `response.incomplete`: generation stopped short, usually on
    /// `max_output_tokens`. Terminal, and whatever was produced is still
    /// present — a truncated answer is often still useful.
    Incomplete(ResponseSnapshot),
    /// The bare `error` event, emitted when generation itself errors.
    Error(ResponseError),
    /// A well-formed event this crate does not model.
    Unmodeled {
        /// The event's `type`.
        kind: String,
    },
}

/// What a [`StreamEvent`] holds.
#[allow(inconsistent_fields)]
#[verifier::ext_equal]
pub enum StreamEventView {
    TextDelta {
        stream: TextStream,
        output_index: u32,
        part_index: u32,
        delta: Seq<char>,
    },
    OutputItemAdded {
        output_index: u32,
        item: OutputItemView,
    },
    OutputItemDone {
        output_index: u32,
        item: OutputItemView,
    },
    TextDone {
        stream: TextStream,
        output_index: u32,
        part_index: u32,
        text: Seq<char>,
    },
    Part {
        stream: TextStream,
        boundary: PartBoundary,
        output_index: u32,
        part_index: u32,
        text: Seq<char>,
    },
    FunctionArgumentsDelta {
        output_index: u32,
        item_id: Option<Seq<char>>,
        delta: Seq<char>,
    },
    FunctionArgumentsDone {
        output_index: u32,
        item_id: Option<Seq<char>>,
        arguments: Seq<char>,
    },
    HostedToolLifecycle {
        tool: HostedTool,
        phase: HostedToolPhase,
        output_index: u32,
        item_id: Option<Seq<char>>,
    },
    HostedToolInputDelta {
        tool: HostedTool,
        output_index: u32,
        item_id: Option<Seq<char>>,
        delta: Seq<char>,
    },
    HostedToolInputDone {
        tool: HostedTool,
        output_index: u32,
        item_id: Option<Seq<char>>,
        input: Seq<char>,
    },
    PartialImage {
        output_index: u32,
        item_id: Option<Seq<char>>,
        partial_image_index: u32,
        partial_image_base64: Seq<char>,
    },
    Annotation {
        output_index: u32,
        content_index: u32,
        annotation_index: u32,
        annotation: JsonView,
    },
    Audio {
        stream: AudioStream,
        response_id: Option<Seq<char>>,
        delta: Seq<char>,
        done: bool,
    },
    ResponseProgress {
        stage: ProgressStage,
        response: ResponseSnapshotView,
    },
    Completed(ResponseSnapshotView),
    Failed(ResponseSnapshotView),
    Incomplete(ResponseSnapshotView),
    Error(ResponseErrorView),
    Unmodeled {
        kind: Seq<char>,
    },
}

impl View for StreamEvent {
    type V = StreamEventView;

    open spec fn view(&self) -> StreamEventView {
        match self {
            StreamEvent::TextDelta { stream, output_index, part_index, delta } => StreamEventView::TextDelta {
                stream: *stream,
                output_index: *output_index,
                part_index: *part_index,
                delta: delta@,
            },
            StreamEvent::OutputItemAdded { output_index, item } => StreamEventView::OutputItemAdded {
                output_index: *output_index,
                item: item@,
            },
            StreamEvent::OutputItemDone { output_index, item } => StreamEventView::OutputItemDone {
                output_index: *output_index,
                item: item@,
            },
            StreamEvent::TextDone { stream, output_index, part_index, text } => StreamEventView::TextDone {
                stream: *stream,
                output_index: *output_index,
                part_index: *part_index,
                text: text@,
            },
            StreamEvent::Part { stream, boundary, output_index, part_index, text } => StreamEventView::Part {
                stream: *stream,
                boundary: *boundary,
                output_index: *output_index,
                part_index: *part_index,
                text: text@,
            },
            StreamEvent::FunctionArgumentsDelta { output_index, item_id, delta } => StreamEventView::FunctionArgumentsDelta {
                output_index: *output_index,
                item_id: views::option_view(*item_id),
                delta: delta@,
            },
            StreamEvent::FunctionArgumentsDone { output_index, item_id, arguments } => StreamEventView::FunctionArgumentsDone {
                output_index: *output_index,
                item_id: views::option_view(*item_id),
                arguments: arguments@,
            },
            StreamEvent::HostedToolLifecycle { tool, phase, output_index, item_id } => StreamEventView::HostedToolLifecycle {
                tool: *tool,
                phase: *phase,
                output_index: *output_index,
                item_id: views::option_view(*item_id),
            },
            StreamEvent::HostedToolInputDelta { tool, output_index, item_id, delta } => StreamEventView::HostedToolInputDelta {
                tool: *tool,
                output_index: *output_index,
                item_id: views::option_view(*item_id),
                delta: delta@,
            },
            StreamEvent::HostedToolInputDone { tool, output_index, item_id, input } => StreamEventView::HostedToolInputDone {
                tool: *tool,
                output_index: *output_index,
                item_id: views::option_view(*item_id),
                input: input@,
            },
            StreamEvent::PartialImage { output_index, item_id, partial_image_index, partial_image_base64 } => StreamEventView::PartialImage {
                output_index: *output_index,
                item_id: views::option_view(*item_id),
                partial_image_index: *partial_image_index,
                partial_image_base64: partial_image_base64@,
            },
            StreamEvent::Annotation { output_index, content_index, annotation_index, annotation } => StreamEventView::Annotation {
                output_index: *output_index,
                content_index: *content_index,
                annotation_index: *annotation_index,
                annotation: annotation@,
            },
            StreamEvent::Audio { stream, response_id, delta, done } => StreamEventView::Audio {
                stream: *stream,
                response_id: views::option_view(*response_id),
                delta: delta@,
                done: *done,
            },
            StreamEvent::ResponseProgress { stage, response } => StreamEventView::ResponseProgress {
                stage: *stage,
                response: response@,
            },
            StreamEvent::Completed(inner) => StreamEventView::Completed(inner@),
            StreamEvent::Failed(inner) => StreamEventView::Failed(inner@),
            StreamEvent::Incomplete(inner) => StreamEventView::Incomplete(inner@),
            StreamEvent::Error(inner) => StreamEventView::Error(inner@),
            StreamEvent::Unmodeled { kind } => StreamEventView::Unmodeled {
                kind: kind@,
            },
        }
    }
}

impl Clone for StreamEvent {
    fn clone(&self) -> (copy: Self)
        ensures
            copy@ == self@,
    {
        match self {
            StreamEvent::TextDelta { stream, output_index, part_index, delta } => StreamEvent::TextDelta {
                stream: *stream,
                output_index: *output_index,
                part_index: *part_index,
                delta: delta.clone(),
            },
            StreamEvent::OutputItemAdded { output_index, item } => StreamEvent::OutputItemAdded {
                output_index: *output_index,
                item: item.clone(),
            },
            StreamEvent::OutputItemDone { output_index, item } => StreamEvent::OutputItemDone {
                output_index: *output_index,
                item: item.clone(),
            },
            StreamEvent::TextDone { stream, output_index, part_index, text } => StreamEvent::TextDone {
                stream: *stream,
                output_index: *output_index,
                part_index: *part_index,
                text: text.clone(),
            },
            StreamEvent::Part { stream, boundary, output_index, part_index, text } => StreamEvent::Part {
                stream: *stream,
                boundary: *boundary,
                output_index: *output_index,
                part_index: *part_index,
                text: text.clone(),
            },
            StreamEvent::FunctionArgumentsDelta { output_index, item_id, delta } => StreamEvent::FunctionArgumentsDelta {
                output_index: *output_index,
                item_id: views::copy_text(item_id),
                delta: delta.clone(),
            },
            StreamEvent::FunctionArgumentsDone { output_index, item_id, arguments } => StreamEvent::FunctionArgumentsDone {
                output_index: *output_index,
                item_id: views::copy_text(item_id),
                arguments: arguments.clone(),
            },
            StreamEvent::HostedToolLifecycle { tool, phase, output_index, item_id } => StreamEvent::HostedToolLifecycle {
                tool: *tool,
                phase: *phase,
                output_index: *output_index,
                item_id: views::copy_text(item_id),
            },
            StreamEvent::HostedToolInputDelta { tool, output_index, item_id, delta } => StreamEvent::HostedToolInputDelta {
                tool: *tool,
                output_index: *output_index,
                item_id: views::copy_text(item_id),
                delta: delta.clone(),
            },
            StreamEvent::HostedToolInputDone { tool, output_index, item_id, input } => StreamEvent::HostedToolInputDone {
                tool: *tool,
                output_index: *output_index,
                item_id: views::copy_text(item_id),
                input: input.clone(),
            },
            StreamEvent::PartialImage { output_index, item_id, partial_image_index, partial_image_base64 } => StreamEvent::PartialImage {
                output_index: *output_index,
                item_id: views::copy_text(item_id),
                partial_image_index: *partial_image_index,
                partial_image_base64: partial_image_base64.clone(),
            },
            StreamEvent::Annotation { output_index, content_index, annotation_index, annotation } => StreamEvent::Annotation {
                output_index: *output_index,
                content_index: *content_index,
                annotation_index: *annotation_index,
                annotation: annotation.clone(),
            },
            StreamEvent::Audio { stream, response_id, delta, done } => StreamEvent::Audio {
                stream: *stream,
                response_id: views::copy_text(response_id),
                delta: delta.clone(),
                done: *done,
            },
            StreamEvent::ResponseProgress { stage, response } => StreamEvent::ResponseProgress {
                stage: *stage,
                response: response.clone(),
            },
            StreamEvent::Completed(inner) => StreamEvent::Completed(inner.clone()),
            StreamEvent::Failed(inner) => StreamEvent::Failed(inner.clone()),
            StreamEvent::Incomplete(inner) => StreamEvent::Incomplete(inner.clone()),
            StreamEvent::Error(inner) => StreamEvent::Error(inner.clone()),
            StreamEvent::Unmodeled { kind } => StreamEvent::Unmodeled {
                kind: kind.clone(),
            },
        }
    }
}
/// The event type of a text event.
pub open spec fn text_event_type(stream: TextStream, done: bool) -> Seq<char> {
    "response."@ + stream.wire() + if done {
        ".done"@
    } else {
        ".delta"@
    }
}

/// The event type of a part event. Three of the streams report their parts as content
/// parts.
pub open spec fn part_event_type(stream: TextStream, boundary: PartBoundary) -> Seq<char> {
    "response."@ + match stream {
        TextStream::ReasoningSummary => "reasoning_summary_part"@,
        _ => "content_part"@,
    } + "."@ + boundary.wire()
}

/// The event type of a hosted tool's lifecycle event; for a pair OpenAI does not send, the
/// two words.
pub open spec fn lifecycle_type(tool: HostedTool, phase: HostedToolPhase) -> Seq<char> {
    match hosted::lifecycle_name(tool, phase) {
        Some(kind) => kind,
        None => "response."@ + tool.wire() + "."@ + phase.wire(),
    }
}

/// The event type of a hosted tool's composed input. Three tools compose input, and each
/// names its events differently.
pub open spec fn hosted_input_type(tool: HostedTool, done: bool) -> Seq<char> {
    match (tool, done) {
        (HostedTool::CodeInterpreter, false) => "response.code_interpreter_call_code.delta"@,
        (HostedTool::CodeInterpreter, true) => "response.code_interpreter_call_code.done"@,
        (HostedTool::Mcp, false) => "response.mcp_call_arguments.delta"@,
        (HostedTool::Mcp, true) => "response.mcp_call_arguments.done"@,
        (HostedTool::Custom, false) => "response.custom_tool_call_input.delta"@,
        _ => "response.custom_tool_call_input.done"@,
    }
}

/// The event type of an audio event.
pub open spec fn audio_event_type(stream: AudioStream, done: bool) -> Seq<char> {
    match (stream, done) {
        (AudioStream::Audio, false) => "response.audio.delta"@,
        (AudioStream::Audio, true) => "response.audio.done"@,
        (AudioStream::Transcript, false) => "response.audio.transcript.delta"@,
        (AudioStream::Transcript, true) => "response.audio.transcript.done"@,
    }
}

impl StreamEventView {
    /// The event's wire `type`.
    pub open spec fn kind(self) -> Seq<char> {
        match self {
            StreamEventView::TextDelta { stream, .. } => text_event_type(stream, false),
            StreamEventView::TextDone { stream, .. } => text_event_type(stream, true),
            StreamEventView::Part { stream, boundary, .. } => part_event_type(stream, boundary),
            StreamEventView::FunctionArgumentsDelta {
                ..
            } => "response.function_call_arguments.delta"@,
            StreamEventView::FunctionArgumentsDone {
                ..
            } => "response.function_call_arguments.done"@,
            StreamEventView::HostedToolLifecycle { tool, phase, .. } => lifecycle_type(tool, phase),
            StreamEventView::HostedToolInputDelta { tool, .. } => hosted_input_type(tool, false),
            StreamEventView::HostedToolInputDone { tool, .. } => hosted_input_type(tool, true),
            StreamEventView::PartialImage {
                ..
            } => "response.image_generation_call.partial_image"@,
            StreamEventView::Annotation { .. } => "response.output_text.annotation.added"@,
            StreamEventView::Audio { stream, done, .. } => audio_event_type(stream, done),
            StreamEventView::ResponseProgress { stage, .. } => stage.wire(),
            StreamEventView::OutputItemAdded { .. } => "response.output_item.added"@,
            StreamEventView::OutputItemDone { .. } => "response.output_item.done"@,
            StreamEventView::Completed(_) => "response.completed"@,
            StreamEventView::Failed(_) => "response.failed"@,
            StreamEventView::Incomplete(_) => "response.incomplete"@,
            StreamEventView::Error(_) => "error"@,
            StreamEventView::Unmodeled { kind } => kind,
        }
    }

    /// Whether the event ends a stream.
    pub open spec fn terminal(self) -> bool {
        ||| self is Completed
        ||| self is Failed
        ||| self is Incomplete
        ||| self is Error
    }
}

impl StreamEvent {
    /// The event's wire `type`, made from the variant's own fields so that it cannot drift
    /// from what the variant means.
    pub fn kind(&self) -> (kind: String)
        ensures
            kind@ == self@.kind(),
    {
        match self {
            StreamEvent::TextDelta { stream, .. } => "response.".to_owned().concat(
                stream.as_str(),
            ).concat(".delta"),
            StreamEvent::TextDone { stream, .. } => "response.".to_owned().concat(
                stream.as_str(),
            ).concat(".done"),
            StreamEvent::Part { stream, boundary, .. } => {
                let part = match stream {
                    TextStream::ReasoningSummary => "reasoning_summary_part",
                    TextStream::Output | TextStream::Refusal
                    | TextStream::Reasoning => "content_part",
                };
                "response.".to_owned().concat(part).concat(".").concat(boundary.as_str())
            },
            StreamEvent::FunctionArgumentsDelta { .. } => {
                "response.function_call_arguments.delta".to_owned()
            },
            StreamEvent::FunctionArgumentsDone { .. } => {
                "response.function_call_arguments.done".to_owned()
            },
            StreamEvent::HostedToolLifecycle { tool, phase, .. } => {
                match hosted::lifecycle_event_type(*tool, *phase) {
                    Some(kind) => kind.to_owned(),
                    None => "response.".to_owned().concat(tool.as_str()).concat(".").concat(
                        phase.as_str(),
                    ),
                }
            },
            StreamEvent::HostedToolInputDelta { tool, .. } => {
                hosted_input_event_type(*tool, false).to_owned()
            },
            StreamEvent::HostedToolInputDone { tool, .. } => {
                hosted_input_event_type(*tool, true).to_owned()
            },
            StreamEvent::PartialImage { .. } => {
                "response.image_generation_call.partial_image".to_owned()
            },
            StreamEvent::Annotation { .. } => "response.output_text.annotation.added".to_owned(),
            StreamEvent::Audio { stream, done, .. } => match (*stream, *done) {
                (AudioStream::Audio, false) => "response.audio.delta".to_owned(),
                (AudioStream::Audio, true) => "response.audio.done".to_owned(),
                (AudioStream::Transcript, false) => "response.audio.transcript.delta".to_owned(),
                (AudioStream::Transcript, true) => "response.audio.transcript.done".to_owned(),
            },
            StreamEvent::ResponseProgress { stage, .. } => stage.as_str().to_owned(),
            StreamEvent::OutputItemAdded { .. } => "response.output_item.added".to_owned(),
            StreamEvent::OutputItemDone { .. } => "response.output_item.done".to_owned(),
            StreamEvent::Completed(_) => "response.completed".to_owned(),
            StreamEvent::Failed(_) => "response.failed".to_owned(),
            StreamEvent::Incomplete(_) => "response.incomplete".to_owned(),
            StreamEvent::Error(_) => "error".to_owned(),
            StreamEvent::Unmodeled { kind } => kind.clone(),
        }
    }

    /// Whether this event ends the stream: the three terminal `response.*` events, and
    /// `error`.
    pub fn is_terminal(&self) -> (r: bool)
        ensures
            r == self@.terminal(),
    {
        match self {
            StreamEvent::Completed(_)
            | StreamEvent::Failed(_)
            | StreamEvent::Incomplete(_)
            | StreamEvent::Error(_) => true,
            _ => false,
        }
    }

    /// The answer text this event contributes, if any. `None` for a refusal and for both
    /// reasoning streams: their text is real and must not be shown as the answer.
    pub fn answer_text_delta(&self) -> (delta: Option<&str>)
        ensures
            views::option_view(delta) == match self@ {
                StreamEventView::TextDelta {
                    stream: TextStream::Output,
                    delta,
                    ..
                } => Some(delta),
                _ => None,
            },
    {
        match self {
            StreamEvent::TextDelta { stream, delta, .. } => {
                if stream.is_answer_text() {
                    Some(delta.as_str())
                } else {
                    None
                }
            },
            _ => None,
        }
    }
}

/// Which event type a hosted tool's input delta or done frame carries.
fn hosted_input_event_type(tool: HostedTool, done: bool) -> (kind: &'static str)
    ensures
        kind@ == hosted_input_type(tool, done),
{
    match (tool, done) {
        (HostedTool::CodeInterpreter, false) => "response.code_interpreter_call_code.delta",
        (HostedTool::CodeInterpreter, true) => "response.code_interpreter_call_code.done",
        (HostedTool::Mcp, false) => "response.mcp_call_arguments.delta",
        (HostedTool::Mcp, true) => "response.mcp_call_arguments.done",
        (HostedTool::Custom, false) => "response.custom_tool_call_input.delta",
        // Only these three tools stream composed input; anything else reaching here is a
        // `Custom` done frame or a variant built by hand.
        _ => "response.custom_tool_call_input.done",
    }
}

/// The identity of a run of streamed text.
///
/// Keys order by output item, then stream, then part, which is document order. The stream is
/// part of the key, so an answer and a refusal at the same indices are two parts.
#[derive(Debug, Clone, Copy, PartialEq, Eq, PartialOrd, Ord, Hash, Structural)]
pub struct PartKey {
    /// Which output item the part belongs to.
    pub output_index: u32,
    /// Which of the four text streams it is.
    pub stream: TextStream,
    /// Its index within that item and stream.
    pub part_index: u32,
}

impl TextStream {
    /// The stream's place among the four.
    pub open spec fn place(self) -> nat {
        match self {
            TextStream::Output => 0,
            TextStream::Refusal => 1,
            TextStream::ReasoningSummary => 2,
            TextStream::Reasoning => 3,
        }
    }

    fn number(self) -> (n: u32)
        ensures
            n == self.place(),
    {
        match self {
            TextStream::Output => 0,
            TextStream::Refusal => 1,
            TextStream::ReasoningSummary => 2,
            TextStream::Reasoning => 3,
        }
    }
}

impl Ranked for PartKey {
    open spec fn rank(self) -> nat {
        ((4 * self.output_index + self.stream.place()) * 0x1_0000_0000 + self.part_index) as nat
    }

    proof fn rank_is_one_to_one(a: Self, b: Self) {
        assert(a.stream.place() == b.stream.place());
    }

    fn before(&self, other: &Self) -> (less: bool) {
        if self.output_index != other.output_index {
            self.output_index < other.output_index
        } else if self.stream.number() != other.stream.number() {
            self.stream.number() < other.stream.number()
        } else {
            self.part_index < other.part_index
        }
    }
}

/// Streamed text, gathered per stream, item, and part.
pub type TextParts = OrderedMap<PartKey, String>;

/// The text each part holds.
pub open spec fn texts(parts: Map<PartKey, String>) -> Map<PartKey, Seq<char>> {
    parts.map_values(|text: String| text@)
}

/// Whether a part is of a stream and, where an output item is named, of that item.
pub open spec fn selected(key: PartKey, stream: TextStream, at: Option<u32>) -> bool {
    key.stream == stream && match at {
        Some(output_index) => key.output_index == output_index,
        None => true,
    }
}

/// The selected parts among some keys, joined in the order of the keys.
pub open spec fn joined_over(
    parts: Map<PartKey, Seq<char>>,
    keys: Seq<PartKey>,
    stream: TextStream,
    at: Option<u32>,
) -> Seq<char>
    decreases keys.len(),
{
    if keys.len() == 0 {
        Seq::empty()
    } else {
        joined_over(parts, keys.drop_last(), stream, at) + if selected(keys.last(), stream, at) {
            parts[keys.last()]
        } else {
            Seq::empty()
        }
    }
}

/// The parts of one stream, or of one stream at one output item, joined in document order.
pub open spec fn joined_text(
    parts: Map<PartKey, Seq<char>>,
    stream: TextStream,
    at: Option<u32>,
) -> Seq<char> {
    joined_over(parts, ordered::in_order(parts.dom()), stream, at)
}

/// The parts of one stream belonging to one output item, in document order.
pub fn joined_at(parts: &TextParts, stream: TextStream, output_index: u32) -> (text: String)
    ensures
        text@ == joined_text(texts(parts@), stream, Some(output_index)),
{
    joined_where(parts, stream, Some(output_index))
}

/// Concatenates the parts of one stream, in document order.
pub fn joined(parts: &TextParts, stream: TextStream) -> (text: String)
    ensures
        text@ == joined_text(texts(parts@), stream, None),
{
    joined_where(parts, stream, None)
}

/// The selected parts, joined in key order.
fn joined_where(parts: &TextParts, stream: TextStream, at: Option<u32>) -> (text: String)
    ensures
        text@ == joined_text(texts(parts@), stream, at),
{
    let ghost keys = ordered::in_order(parts@.dom());
    let ghost all = texts(parts@);
    assert(all.dom() =~= parts@.dom());
    let mut text = String::new();
    let mut i: usize = 0;
    let n: usize = parts.len();
    assert(keys.take(0) =~= Seq::<PartKey>::empty());
    while i < n
        invariant
            i <= n,
            keys == ordered::in_order(parts@.dom()),
            n == keys.len(),
            all == texts(parts@),
            text@ == joined_over(all, keys.take(i as int), stream, at),
        decreases n - i,
    {
        let (key, piece) = parts.at(i);
        assert(keys.take(i + 1).drop_last() =~= keys.take(i as int));
        assert(keys.take(i + 1).last() == *key);
        let wanted = key.stream == stream && match at {
            Some(output_index) => key.output_index == output_index,
            None => true,
        };
        if wanted {
            text.append(piece.as_str());
        } else {
            assert(text@ =~= text@ + Seq::<char>::empty());
        }
        i += 1;
    }
    assert(keys.take(n as int) =~= keys);
    text
}

} // verus!
