//! Accumulating a stream, and the boundary where it becomes a finished response.
//!
//! A streamed response is only trustworthy once a terminal event arrives: a connection can
//! drop mid-answer, and the text collected so far looks exactly like a complete answer. So
//! the two states are two types. [`Settling`] accumulates and has no method that yields a
//! response. [`Settled`] is a finished response and has no method that accepts more events.
//! The only bridge is [`Settling::settle`]: a truncated stream yields
//! [`SettleError::Truncated`], and there is no other way to obtain a `Settled`.
use vstd::prelude::*;

use crate::decode;
use crate::items::{
    OutputItem, OutputItemView, ResponseError, ResponseErrorView, ResponseSnapshot,
    ResponseSnapshotView,
};
use crate::ordered;
use crate::ordered::{OrderedMap, Ranked};
use crate::settled::{HostedToolCounts, OutcomeView, SettledView};
use crate::stream;
use crate::stream::{
    joined, joined_at, FrameError, FrameErrorView, PartBoundary, PartKey, StreamEvent,
    StreamEventView, TextParts, TextStream,
};
use crate::text;
use crate::usage::Usage;
use crate::values::HostedTool;
use crate::views;

pub use crate::settled::{Outcome, Settled};

verus! {

/// Why a stream did not produce a finished response.
#[derive(Debug)]
pub enum SettleError {
    /// The stream ended without a terminal event.
    ///
    /// Whatever text had accumulated is *not* returned: handing back a partial answer typed
    /// as a whole one is the mistake this module exists to prevent.
    Truncated {
        /// How many events had been consumed.
        events: usize,
        /// How many characters of answer text had accumulated.
        text_len: usize,
    },
    /// A frame could not be decoded. Carries the frame error unchanged.
    Frame(FrameError),
}

/// What a [`SettleError`] holds.
#[verifier::ext_equal]
pub enum SettleErrorView {
    Truncated { events: nat, text_len: nat },
    Frame(FrameErrorView),
}

impl View for SettleError {
    type V = SettleErrorView;

    open spec fn view(&self) -> SettleErrorView {
        match self {
            SettleError::Truncated { events, text_len } => SettleErrorView::Truncated {
                events: *events as nat,
                text_len: *text_len as nat,
            },
            SettleError::Frame(error) => SettleErrorView::Frame(error@),
        }
    }
}

impl SettleErrorView {
    /// The error in words.
    pub open spec fn words(self) -> Seq<char> {
        match self {
            SettleErrorView::Truncated { events, text_len } => {
                "stream ended without a terminal event after "@ + text::decimal(events)
                    + " event(s) and "@ + text::decimal(text_len) + " character(s) of text"@
            },
            SettleErrorView::Frame(error) => error.words(),
        }
    }
}

impl SettleError {
    /// The error in words.
    pub fn message(&self) -> (words: String)
        ensures
            words@ == self@.words(),
    {
        match self {
            SettleError::Truncated { events, text_len } => {
                let mut words = "stream ended without a terminal event after ".to_owned();
                text::append_decimal(&mut words, *events as u64);
                words.append(" event(s) and ");
                text::append_decimal(&mut words, *text_len as u64);
                words.append(" character(s) of text");
                words
            },
            SettleError::Frame(error) => error.message(),
        }
    }
}

impl From<FrameError> for SettleError {
    fn from(error: FrameError) -> (wrapped: Self) {
        SettleError::Frame(error)
    }
}

impl vstd::std_specs::convert::FromSpecImpl<FrameError> for SettleError {
    open spec fn obeys_from_spec() -> bool {
        true
    }

    open spec fn from_spec(error: FrameError) -> Self {
        SettleError::Frame(error)
    }
}

/// A `done` frame whose whole text differed from the deltas accumulated for it.
///
/// OpenAI sends every run of text twice, once as deltas and once whole, and the second is a
/// free check on the first. The reported text wins, and the disagreement is recorded.
#[derive(Debug, Clone, PartialEq, Eq)]
pub struct PartDisagreement {
    /// Which part disagreed.
    pub key: PartKey,
    /// What the deltas built.
    pub accumulated: String,
    /// What the `done` frame said the whole part was, and what is kept.
    pub reported: String,
}

/// What a [`PartDisagreement`] holds.
#[verifier::ext_equal]
pub struct PartDisagreementView {
    pub key: PartKey,
    pub accumulated: Seq<char>,
    pub reported: Seq<char>,
}

impl View for PartDisagreement {
    type V = PartDisagreementView;

    open spec fn view(&self) -> PartDisagreementView {
        PartDisagreementView {
            key: self.key,
            accumulated: self.accumulated@,
            reported: self.reported@,
        }
    }
}

/// The terminal event, kept only so [`Settling::settle`] can turn it into an [`Outcome`].
#[derive(Debug)]
enum Terminal {
    Completed(ResponseSnapshot),
    Failed(ResponseSnapshot),
    Incomplete(ResponseSnapshot),
    Error(ResponseError),
}

impl View for Terminal {
    type V = StreamEventView;

    closed spec fn view(&self) -> StreamEventView {
        match self {
            Terminal::Completed(response) => StreamEventView::Completed(response@),
            Terminal::Failed(response) => StreamEventView::Failed(response@),
            Terminal::Incomplete(response) => StreamEventView::Incomplete(response@),
            Terminal::Error(error) => StreamEventView::Error(error@),
        }
    }
}

/// A stream still being read.
///
/// Deliberately offers no way to read a response out of itself. Feed it events with
/// [`Self::consume`]; when the stream is exhausted call [`Self::settle`], which either
/// produces a [`Settled`] or fails.
#[derive(Debug)]
pub struct Settling {
    text_parts: TextParts,
    items: OrderedMap<u32, OutputItem>,
    hosted_tool_events: HostedToolCounts,
    disagreements: Vec<PartDisagreement>,
    terminal: Option<Terminal>,
    events: usize,
}

/// What a [`Settling`] holds.
#[verifier::ext_equal]
pub struct SettlingView {
    /// The text of each part.
    pub text_parts: Map<PartKey, Seq<char>>,
    /// The item at each output index.
    pub items: Map<u32, OutputItemView>,
    /// How many events each hosted tool sent.
    pub hosted_tool_events: Map<HostedTool, usize>,
    /// Where a `done` frame contradicted the deltas.
    pub disagreements: Seq<PartDisagreementView>,
    /// The first terminal event.
    pub terminal: Option<StreamEventView>,
    /// How many events were consumed.
    pub events: nat,
}

impl View for Settling {
    type V = SettlingView;

    closed spec fn view(&self) -> SettlingView {
        SettlingView {
            text_parts: stream::texts(self.text_parts@),
            items: item_views(self.items@),
            hosted_tool_events: self.hosted_tool_events@,
            disagreements: views::list_view(self.disagreements@),
            terminal: views::option_view(self.terminal),
            events: self.events as nat,
        }
    }
}

/// What the items of a map hold.
pub open spec fn item_views(items: Map<u32, OutputItem>) -> Map<u32, OutputItemView> {
    items.map_values(|item: OutputItem| item@)
}

/// The text a part holds, the empty one where there is no such part yet.
pub open spec fn held(parts: Map<PartKey, Seq<char>>, key: PartKey) -> Seq<char> {
    if parts.dom().contains(key) {
        parts[key]
    } else {
        Seq::empty()
    }
}

impl SettlingView {
    /// A stream with nothing in it.
    pub open spec fn empty() -> Self {
        SettlingView {
            text_parts: Map::empty(),
            items: Map::empty(),
            hosted_tool_events: Map::empty(),
            disagreements: Seq::empty(),
            terminal: None,
            events: 0,
        }
    }

    /// What holds of every stream: its parts and items can be listed in order, no tool sent
    /// more events than there were, and what ended it is a terminal event.
    pub open spec fn wf(self) -> bool {
        &&& ordered::lists(ordered::in_order(self.text_parts.dom()), self.text_parts.dom())
        &&& ordered::lists(ordered::in_order(self.items.dom()), self.items.dom())
        &&& forall|tool: HostedTool| #[trigger]
            self.hosted_tool_events.dom().contains(tool) ==> self.hosted_tool_events[tool]
                <= self.events
        &&& match self.terminal {
            Some(event) => event.terminal(),
            None => true,
        }
    }

    /// The stream after a delta.
    pub open spec fn appending(self, key: PartKey, delta: Seq<char>) -> Self {
        SettlingView {
            text_parts: self.text_parts.insert(key, held(self.text_parts, key) + delta),
            ..self
        }
    }

    /// The stream after the whole text of a part was reported: the report stands, and a
    /// difference from what had accumulated is recorded.
    pub open spec fn reporting(self, key: PartKey, text: Seq<char>) -> Self {
        SettlingView {
            text_parts: self.text_parts.insert(key, text),
            disagreements: if held(self.text_parts, key) == text {
                self.disagreements
            } else {
                self.disagreements.push(
                    PartDisagreementView {
                        key,
                        accumulated: held(self.text_parts, key),
                        reported: text,
                    },
                )
            },
            ..self
        }
    }

    /// The stream after one more event of a hosted tool.
    pub open spec fn counting(self, tool: HostedTool) -> Self {
        let sent: usize = if self.hosted_tool_events.dom().contains(tool) {
            self.hosted_tool_events[tool]
        } else {
            0
        };
        SettlingView {
            hosted_tool_events: self.hosted_tool_events.insert(tool, (sent + 1) as usize),
            ..self
        }
    }

    /// The stream after one more event.
    pub open spec fn after(self, event: StreamEventView) -> Self {
        let counted = SettlingView { events: self.events + 1, ..self };
        match event {
            StreamEventView::TextDelta {
                stream,
                output_index,
                part_index,
                delta,
            } => counted.appending(PartKey { output_index, stream, part_index }, delta),
            StreamEventView::OutputItemAdded { output_index, item } => SettlingView {
                items: self.items.insert(output_index, item),
                ..counted
            },
            StreamEventView::OutputItemDone { output_index, item } => SettlingView {
                items: self.items.insert(output_index, item),
                ..counted
            },
            StreamEventView::TextDone {
                stream,
                output_index,
                part_index,
                text,
            } => counted.reporting(PartKey { output_index, stream, part_index }, text),
            StreamEventView::Part {
                stream,
                boundary,
                output_index,
                part_index,
                text,
            } => match boundary {
                PartBoundary::Added => counted.appending(
                    PartKey { output_index, stream, part_index },
                    Seq::empty(),
                ),
                PartBoundary::Done => counted.reporting(
                    PartKey { output_index, stream, part_index },
                    text,
                ),
            },
            StreamEventView::HostedToolLifecycle { tool, .. } => counted.counting(tool),
            StreamEventView::HostedToolInputDelta { tool, .. } => counted.counting(tool),
            StreamEventView::HostedToolInputDone { tool, .. } => counted.counting(tool),
            _ => if event.terminal() && self.terminal is None {
                SettlingView { terminal: Some(event), ..counted }
            } else {
                counted
            },
        }
    }

    /// The parts of one stream so far, joined in document order.
    pub open spec fn text(self, stream: TextStream) -> Seq<char> {
        stream::joined_text(self.text_parts, stream, None)
    }
}

/// Whether a part is the message's own text: its answer or its refusal.
pub open spec fn is_message_text(key: PartKey) -> bool {
    key.stream == TextStream::Output || key.stream == TextStream::Refusal
}

/// The output indices at which a message's own text arrived.
pub open spec fn text_places(parts: Map<PartKey, Seq<char>>) -> Set<u32> {
    Set::new(
        |i: u32|
            exists|key: PartKey| #[trigger]
                parts.dom().contains(key) && is_message_text(key) && key.output_index == i,
    )
}

/// An item with the text streamed for it, where it is a message announced without.
pub open spec fn filled(item: OutputItemView, streamed: Seq<char>, declined: Seq<char>) -> OutputItemView {
    match item {
        OutputItemView::Message { id, phase, text, refusal } => OutputItemView::Message {
            id,
            phase,
            text: if text.len() == 0 {
                streamed
            } else {
                text
            },
            refusal: if refusal.len() == 0 {
                declined
            } else {
                refusal
            },
        },
        _ => item,
    }
}

/// The item at an output index: the announced one with its streamed text, or, where none was
/// announced, a message made of that text.
pub open spec fn item_at(
    parts: Map<PartKey, Seq<char>>,
    items: Map<u32, OutputItemView>,
    i: u32,
) -> OutputItemView {
    let streamed = stream::joined_text(parts, TextStream::Output, Some(i));
    let declined = stream::joined_text(parts, TextStream::Refusal, Some(i));
    if items.dom().contains(i) {
        filled(items[i], streamed, declined)
    } else {
        OutputItemView::Message { id: None, phase: None, text: streamed, refusal: declined }
    }
}

/// The streamed items, in output order.
pub open spec fn streamed_items(
    parts: Map<PartKey, Seq<char>>,
    items: Map<u32, OutputItemView>,
) -> Seq<OutputItemView> {
    let places = ordered::in_order(items.dom().union(text_places(parts)));
    Seq::new(places.len(), |n: int| item_at(parts, items, places[n]))
}

/// The error of a response that failed without saying why.
pub open spec fn unexplained() -> ResponseErrorView {
    ResponseErrorView {
        code: None,
        message: "the response failed without an error object"@,
        param: None,
    }
}

/// The response object a terminal event carries, where it carries one.
pub open spec fn response_of(event: StreamEventView) -> ResponseSnapshotView {
    match event {
        StreamEventView::Completed(response) => response,
        StreamEventView::Failed(response) => response,
        StreamEventView::Incomplete(response) => response,
        _ => ResponseSnapshotView::absent(),
    }
}

/// How a stream that ended with an event ended.
pub open spec fn outcome_of(event: StreamEventView) -> OutcomeView {
    match event {
        StreamEventView::Completed(_) => OutcomeView::Completed,
        StreamEventView::Incomplete(response) => OutcomeView::Incomplete {
            reason: response.incomplete_reason,
        },
        StreamEventView::Failed(response) => OutcomeView::Failed {
            error: match response.error {
                Some(error) => error,
                None => unexplained(),
            },
        },
        StreamEventView::Error(error) => OutcomeView::Errored { error },
        _ => arbitrary(),
    }
}

impl SettlingView {
    /// What the stream settles to when it ended with an event. The items are the final
    /// response's own where it lists any, and otherwise those that were streamed.
    pub open spec fn settled(self, ending: StreamEventView) -> SettledView {
        let response = response_of(ending);
        SettledView {
            outcome: outcome_of(ending),
            id: response.id,
            text: self.text(TextStream::Output),
            refusal: self.text(TextStream::Refusal),
            reasoning_summary: self.text(TextStream::ReasoningSummary),
            reasoning: self.text(TextStream::Reasoning),
            items: if response.output.len() > 0 {
                response.output
            } else {
                streamed_items(self.text_parts, self.items)
            },
            usage: response.usage,
            events: self.events,
            hosted_tool_events: self.hosted_tool_events,
            part_disagreements: self.disagreements,
        }
    }
}

proof fn texts_insert(parts: Map<PartKey, String>, key: PartKey, text: String)
    ensures
        stream::texts(parts.insert(key, text)) == stream::texts(parts).insert(key, text@),
        stream::texts(parts).dom() == parts.dom(),
{
    assert(stream::texts(parts.insert(key, text)) =~= stream::texts(parts).insert(key, text@));
    assert(stream::texts(parts).dom() =~= parts.dom());
}

impl Default for Settling {
    fn default() -> (stream: Self)
        ensures
            stream@ == SettlingView::empty(),
            stream@.wf(),
    {
        Self::new()
    }
}

impl Settling {
    /// A stream with nothing in it yet.
    pub fn new() -> (stream: Self)
        ensures
            stream@ == SettlingView::empty(),
            stream@.wf(),
    {
        let stream = Self {
            text_parts: OrderedMap::new(),
            items: OrderedMap::new(),
            hosted_tool_events: OrderedMap::new(),
            disagreements: Vec::new(),
            terminal: None,
            events: 0,
        };
        proof {
            assert(stream@.text_parts =~= Map::<PartKey, Seq<char>>::empty());
            assert(stream@.items =~= Map::<u32, OutputItemView>::empty());
            assert(stream@.disagreements =~= Seq::<PartDisagreementView>::empty());
            ordered::listed(Seq::<PartKey>::empty(), Set::<PartKey>::empty());
            ordered::listed(Seq::<u32>::empty(), Set::<u32>::empty());
            assert(stream@.text_parts.dom() =~= Set::<PartKey>::empty());
            assert(stream@.items.dom() =~= Set::<u32>::empty());
        }
        stream
    }

    /// One raw `data:` payload, decoded and folded in.
    ///
    /// Equivalent to [`StreamEvent::decode`] followed by [`Self::consume`], returning the
    /// decoded event so a caller can also forward deltas to a display as they arrive.
    pub fn consume_payload(&mut self, payload: &str) -> (outcome: Result<StreamEvent, SettleError>)
        requires
            old(self)@.wf(),
            old(self)@.events < usize::MAX,
        ensures
            final(self)@.wf(),
            match outcome {
                Ok(event) => decode::payload_event(payload@) == Ok::<
                    StreamEventView,
                    FrameErrorView,
                >(event@) && final(self)@ == old(self)@.after(event@),
                Err(error) => final(self)@ == old(self)@ && match error@ {
                    SettleErrorView::Frame(frame) => decode::payload_event(payload@) == Err::<
                        StreamEventView,
                        FrameErrorView,
                    >(frame),
                    SettleErrorView::Truncated { .. } => false,
                },
            },
    {
        match StreamEvent::decode(payload) {
            Ok(event) => {
                self.consume(event.clone());
                Ok(event)
            },
            Err(error) => Err(SettleError::from(error)),
        }
    }

    /// One decoded event, folded in.
    ///
    /// Infallible on purpose: every failure a frame can have already happened during
    /// decoding. A second terminal event is ignored: the first one is what ended the response.
    pub fn consume(&mut self, event: StreamEvent)
        requires
            old(self)@.wf(),
            old(self)@.events < usize::MAX,
        ensures
            final(self)@ == old(self)@.after(event@),
            final(self)@.wf(),
    {
        let ghost before = self@;
        self.events += 1;
        match event {
            StreamEvent::TextDelta { stream, output_index, part_index, delta } => {
                self.append(PartKey { output_index, stream, part_index }, delta.as_str());
            },
            StreamEvent::OutputItemAdded { output_index, item }
            | StreamEvent::OutputItemDone { output_index, item } => {
                self.record(output_index, item);
            },
            StreamEvent::TextDone { stream, output_index, part_index, text } => {
                self.report(PartKey { output_index, stream, part_index }, text);
            },
            StreamEvent::Part { stream, boundary, output_index, part_index, text } => {
                let key = PartKey { output_index, stream, part_index };
                match boundary {
                    PartBoundary::Added => {
                        proof {
                            reveal_strlit("");
                            assert(""@ =~= Seq::<char>::empty());
                        }
                        self.append(key, "");
                    },
                    PartBoundary::Done => {
                        self.report(key, text);
                    },
                }
            },
            // Function-call arguments also arrive whole on the `done` item, which is
            // authoritative.
            StreamEvent::FunctionArgumentsDelta { .. }
            | StreamEvent::FunctionArgumentsDone { .. } => {},
            StreamEvent::HostedToolLifecycle { tool, .. }
            | StreamEvent::HostedToolInputDelta { tool, .. }
            | StreamEvent::HostedToolInputDone { tool, .. } => {
                self.count(tool);
            },
            // Live-display data, with no place in a settled text answer.
            StreamEvent::PartialImage { .. }
            | StreamEvent::Annotation { .. }
            | StreamEvent::Audio { .. } => {},
            // An early frame must not win over the terminal one.
            StreamEvent::ResponseProgress { .. } => {},
            StreamEvent::Completed(response) => self.finish(Terminal::Completed(response)),
            StreamEvent::Failed(response) => self.finish(Terminal::Failed(response)),
            StreamEvent::Incomplete(response) => self.finish(Terminal::Incomplete(response)),
            StreamEvent::Error(error) => self.finish(Terminal::Error(error)),
            StreamEvent::Unmodeled { .. } => {},
        }
        proof {
            before.stays_wf(event@);
        }
    }

    fn append(&mut self, key: PartKey, delta: &str)
        ensures
            final(self)@ == old(self)@.appending(key, delta@),
    {
        let ghost parts = self.text_parts@;
        self.text_parts.append(key, delta);
        proof {
            texts_insert(parts, key, self.text_parts@[key]);
        }
    }

    fn report(&mut self, key: PartKey, text: String)
        ensures
            final(self)@ == old(self)@.reporting(key, text@),
    {
        proof {
            texts_insert(self.text_parts@, key, text);
        }
        let ghost before = self.disagreements@;
        let accumulated: &str = match self.text_parts.get(&key) {
            Some(accumulated) => accumulated.as_str(),
            None => {
                proof {
                    reveal_strlit("");
                    assert(""@ =~= Seq::<char>::empty());
                }
                ""
            },
        };
        if !text::same(accumulated, text.as_str()) {
            let disagreement = PartDisagreement {
                key,
                accumulated: accumulated.to_owned(),
                reported: text.clone(),
            };
            self.disagreements.push(disagreement);
            assert(views::list_view(self.disagreements@) =~= views::list_view(before).push(
                disagreement@,
            ));
        }
        self.text_parts.insert(key, text);
    }

    fn record(&mut self, output_index: u32, item: OutputItem)
        ensures
            final(self)@ == (SettlingView {
                items: old(self)@.items.insert(output_index, item@),
                ..old(self)@
            }),
    {
        proof {
            assert(item_views(self.items@.insert(output_index, item)) =~= item_views(
                self.items@,
            ).insert(output_index, item@));
        }
        self.items.insert(output_index, item);
    }

    fn count(&mut self, tool: HostedTool)
        requires
            old(self)@.hosted_tool_events.dom().contains(tool)
                ==> old(self)@.hosted_tool_events[tool] < usize::MAX,
        ensures
            final(self)@ == old(self)@.counting(tool),
    {
        let sent: usize = match self.hosted_tool_events.get(&tool) {
            Some(sent) => *sent,
            None => 0,
        };
        self.hosted_tool_events.insert(tool, sent + 1);
    }

    fn finish(&mut self, terminal: Terminal)
        ensures
            final(self)@ == (SettlingView {
                terminal: if old(self)@.terminal is None {
                    Some(terminal@)
                } else {
                    old(self)@.terminal
                },
                ..old(self)@
            }),
    {
        if self.terminal.is_none() {
            self.terminal = Some(terminal);
        }
    }

    /// The answer text so far, for a live display. Reading it does not settle the stream and
    /// does not claim the answer is complete.
    pub fn text_so_far(&self) -> (text: String)
        ensures
            text@ == self@.text(TextStream::Output),
    {
        joined(&self.text_parts, TextStream::Output)
    }

    /// The reasoning summary so far, for a live display.
    pub fn reasoning_summary_so_far(&self) -> (text: String)
        ensures
            text@ == self@.text(TextStream::ReasoningSummary),
    {
        joined(&self.text_parts, TextStream::ReasoningSummary)
    }

    /// How many events have been consumed.
    pub fn event_count(&self) -> (n: usize)
        ensures
            n == self@.events,
    {
        self.events
    }

    /// Whether a terminal event has arrived, so [`Self::settle`] will succeed.
    pub fn is_terminated(&self) -> (r: bool)
        ensures
            r == (self@.terminal is Some),
    {
        self.terminal.is_some()
    }
}

impl SettlingView {
    /// A stream stays well formed with every event.
    pub proof fn stays_wf(self, event: StreamEventView)
        requires
            self.wf(),
            self.events < usize::MAX,
        ensures
            self.after(event).wf(),
    {
        let next = self.after(event);
        match event {
            StreamEventView::TextDelta { stream, output_index, part_index, .. } => {
                let key = PartKey { output_index, stream, part_index };
                ordered::with_key_lists(
                    ordered::in_order(self.text_parts.dom()),
                    self.text_parts.dom(),
                    key,
                );
                assert(next.text_parts.dom() =~= self.text_parts.dom().insert(key));
            },
            StreamEventView::TextDone { stream, output_index, part_index, .. } => {
                let key = PartKey { output_index, stream, part_index };
                ordered::with_key_lists(
                    ordered::in_order(self.text_parts.dom()),
                    self.text_parts.dom(),
                    key,
                );
                assert(next.text_parts.dom() =~= self.text_parts.dom().insert(key));
            },
            StreamEventView::Part { stream, output_index, part_index, .. } => {
                let key = PartKey { output_index, stream, part_index };
                ordered::with_key_lists(
                    ordered::in_order(self.text_parts.dom()),
                    self.text_parts.dom(),
                    key,
                );
                assert(next.text_parts.dom() =~= self.text_parts.dom().insert(key));
            },
            StreamEventView::OutputItemAdded { output_index, .. } => {
                ordered::with_key_lists(
                    ordered::in_order(self.items.dom()),
                    self.items.dom(),
                    output_index,
                );
                assert(next.items.dom() =~= self.items.dom().insert(output_index));
            },
            StreamEventView::OutputItemDone { output_index, .. } => {
                ordered::with_key_lists(
                    ordered::in_order(self.items.dom()),
                    self.items.dom(),
                    output_index,
                );
                assert(next.items.dom() =~= self.items.dom().insert(output_index));
            },
            _ => {},
        }
    }
}

/// Parts none of which is selected join to nothing.
proof fn nothing_selected(
    parts: Map<PartKey, Seq<char>>,
    keys: Seq<PartKey>,
    stream: TextStream,
    at: Option<u32>,
)
    requires
        forall|n: int| 0 <= n < keys.len() ==> !stream::selected(#[trigger] keys[n], stream, at),
    ensures
        stream::joined_over(parts, keys, stream, at) == Seq::<char>::empty(),
    decreases keys.len(),
{
    if keys.len() > 0 {
        assert(!stream::selected(keys.last(), stream, at));
        assert forall|n: int| 0 <= n < keys.drop_last().len() implies !stream::selected(
            #[trigger] keys.drop_last()[n],
            stream,
            at,
        ) by {
            assert(keys.drop_last()[n] == keys[n]);
        }
        nothing_selected(parts, keys.drop_last(), stream, at);
    }
}

/// An item at an index where no text arrived is as it was announced.
proof fn unfilled(parts: Map<PartKey, Seq<char>>, items: Map<u32, OutputItemView>, i: u32)
    requires
        ordered::lists(ordered::in_order(parts.dom()), parts.dom()),
        items.dom().contains(i),
        !text_places(parts).contains(i),
    ensures
        item_at(parts, items, i) == items[i],
{
    let keys = ordered::in_order(parts.dom());
    assert forall|n: int| 0 <= n < keys.len() implies !stream::selected(
        #[trigger] keys[n],
        TextStream::Output,
        Some(i),
    ) && !stream::selected(keys[n], TextStream::Refusal, Some(i)) by {
        assert(parts.dom().contains(keys[n]));
    }
    nothing_selected(parts, keys, TextStream::Output, Some(i));
    nothing_selected(parts, keys, TextStream::Refusal, Some(i));
    match items[i] {
        OutputItemView::Message { text, refusal, .. } => {
            if text.len() == 0 {
                assert(text =~= Seq::<char>::empty());
            }
            if refusal.len() == 0 {
                assert(refusal =~= Seq::<char>::empty());
            }
        },
        _ => {},
    }
}

/// The output indices a message's own text arrived at, in order and without repeats.
///
/// Both message streams, not just the answer: a turn the model refused carries `refusal`
/// deltas and no `output_text` at all. The two reasoning streams belong to a `reasoning`
/// item, not to a message.
fn text_indices(parts: &TextParts) -> (indices: Vec<u32>)
    ensures
        ordered::lists(indices@, text_places(stream::texts(parts@))),
{
    let ghost places = text_places(stream::texts(parts@));
    let mut indices: Vec<u32> = Vec::new();
    let mut n: usize = 0;
    let count: usize = parts.len();
    let ghost keys = ordered::in_order(parts@.dom());
    assert(stream::texts(parts@).dom() =~= parts@.dom());
    while n < count
        invariant
            n <= count,
            count == keys.len(),
            keys == ordered::in_order(parts@.dom()),
            ordered::lists(keys, parts@.dom()),
            stream::texts(parts@).dom() == parts@.dom(),
            places == text_places(stream::texts(parts@)),
            ordered::increasing(indices@),
            forall|m: int| 0 <= m < indices.len() ==> places.contains(#[trigger] indices@[m]),
            forall|m: int|
                0 <= m < n && is_message_text(#[trigger] keys[m]) ==> indices@.contains(
                    keys[m].output_index,
                ),
            indices.len() > 0 ==> exists|m: int|
                0 <= m < n && #[trigger] keys[m].output_index == indices@.last(),
        decreases count - n,
    {
        let (key, _) = parts.at(n);
        let wanted = match key.stream {
            TextStream::Output | TextStream::Refusal => true,
            _ => false,
        };
        let ghost before = indices@;
        if wanted {
            assert(places.contains(key.output_index));
            if indices.len() == 0 || indices[indices.len() - 1] != key.output_index {
                indices.push(key.output_index);
                proof {
                    if before.len() > 0 {
                        let m = choose|m: int|
                            0 <= m < n && #[trigger] keys[m].output_index == before.last();
                        assert(keys[m].rank() < keys[n as int].rank());
                        assert(before.last() < key.output_index);
                    }
                    assert forall|a: int, b: int|
                        0 <= a < b < indices.len() implies (#[trigger] indices@[a]).rank() < (
                    #[trigger] indices@[b]).rank() by {
                        assert(before.len() > 0 ==> before.last() == indices@[before.len() - 1]);
                    }
                    assert(keys[n as int].output_index == indices@.last());
                }
            } else {
                assert(keys[n as int].output_index == indices@.last());
            }
            assert(indices@.contains(key.output_index)) by {
                assert(indices@.last() == key.output_index);
            }
        }
        assert forall|m: int| 0 <= m < n + 1 && is_message_text(#[trigger] keys[m]) implies indices@.contains(
            keys[m].output_index,
        ) by {
            if m < n {
                assert(before.contains(keys[m].output_index));
                let j = choose|j: int| 0 <= j < before.len() && before[j] == keys[m].output_index;
                assert(indices@[j] == keys[m].output_index);
            }
        }
        n += 1;
    }
    assert forall|i: u32| #[trigger] places.contains(i) implies indices@.contains(i) by {
        let key = choose|key: PartKey| #[trigger]
            stream::texts(parts@).dom().contains(key) && is_message_text(key) && key.output_index
                == i;
        assert(parts@.dom().contains(key));
        let m = choose|m: int| 0 <= m < keys.len() && keys[m] == key;
        assert(is_message_text(keys[m]));
    }
    indices
}

/// The streamed items with their texts, in output order.
///
/// A message item is announced empty and its text arrives as deltas, so the deltas at an
/// index *are* the item at that index: an announced message is filled with its own deltas,
/// and text at an index nothing announced still describes a message there.
fn gather(parts: &TextParts, announced: OrderedMap<u32, OutputItem>) -> (items: Vec<OutputItem>)
    ensures
        views::list_view(items@) == streamed_items(
            stream::texts(parts@),
            item_views(announced@),
        ),
{
    let ghost texts = stream::texts(parts@);
    let ghost before = item_views(announced@);
    let places = text_indices(parts);
    let count: usize = parts.len();
    proof {
        assert(texts.dom() =~= parts@.dom());
        assert(before.dom() =~= announced@.dom());
    }
    let mut streamed = announced;
    let mut n: usize = 0;
    while n < places.len()
        invariant
            n <= places.len(),
            texts == stream::texts(parts@),
            ordered::lists(places@, text_places(texts)),
            forall|k: u32| #[trigger]
                streamed@.dom().contains(k) <==> before.dom().contains(k)
                    || places@.take(n as int).contains(k),
            forall|k: u32| #[trigger]
                streamed@.dom().contains(k) ==> streamed@[k]@ == if places@.take(
                    n as int,
                ).contains(k) {
                    item_at(texts, before, k)
                } else {
                    before[k]
                },
        decreases places.len() - n,
    {
        let i: u32 = places[n];
        let ghost done = places@.take(n as int);
        assert(!done.contains(i)) by {
            if done.contains(i) {
                let m = choose|m: int| 0 <= m < done.len() && done[m] == i;
                assert(places@[m].rank() < places@[n as int].rank());
            }
        }
        assert(places@.take(n + 1) =~= done.push(i));
        assert forall|k: u32| done.push(i).contains(k) <==> done.contains(k) || k == i by {
            if done.contains(k) {
                let m = choose|m: int| 0 <= m < done.len() && done[m] == k;
                assert(done.push(i)[m] == k);
            }
            assert(done.push(i).last() == i);
        }
        let filled_in = match streamed.get(&i) {
            Some(OutputItem::Message { id, phase, text, refusal }) => Some(
                OutputItem::Message {
                    id: views::copy_text(id),
                    phase: *phase,
                    text: if text.as_str().is_empty() {
                        joined_at(parts, TextStream::Output, i)
                    } else {
                        text.clone()
                    },
                    refusal: if refusal.as_str().is_empty() {
                        joined_at(parts, TextStream::Refusal, i)
                    } else {
                        refusal.clone()
                    },
                },
            ),
            Some(_) => None,
            None => Some(
                OutputItem::Message {
                    id: None,
                    phase: None,
                    text: joined_at(parts, TextStream::Output, i),
                    refusal: joined_at(parts, TextStream::Refusal, i),
                },
            ),
        };
        match filled_in {
            Some(item) => {
                assert(item@ == item_at(texts, before, i));
                streamed.insert(i, item);
            },
            None => {},
        }
        n += 1;
    }
    proof {
        let all = before.dom().union(text_places(texts));
        assert(places@.take(n as int) =~= places@);
        assert forall|k: u32| places@.contains(k) <==> text_places(texts).contains(k) by {
            if places@.contains(k) {
                let m = choose|m: int| 0 <= m < places@.len() && places@[m] == k;
                assert(text_places(texts).contains(places@[m]));
            }
        }
        assert(streamed@.dom() =~= all);
        assert forall|k: u32| #[trigger] streamed@.dom().contains(k) implies streamed@[k]@
            == item_at(texts, before, k) by {
            if !text_places(texts).contains(k) {
                unfilled(texts, before, k);
            }
        }
    }
    let ghost map = streamed@;
    let items = streamed.into_values();
    proof {
        let order = ordered::in_order(map.dom());
        assert forall|m: int| 0 <= m < items.len() implies (#[trigger] items@[m])@ == item_at(
            texts,
            before,
            order[m],
        ) by {
            assert(map.dom().contains(order[m]));
        }
        assert(views::list_view(items@) =~= streamed_items(texts, before));
    }
    items
}

/// The final items of a response, and the response's identifier: its own `output` where it
/// has one, and otherwise the items that were streamed.
fn take_output(response: ResponseSnapshot, streamed: Vec<OutputItem>) -> (taken: (
    Vec<OutputItem>,
    Option<String>,
))
    ensures
        views::list_view(taken.0@) == if response@.output.len() > 0 {
            response@.output
        } else {
            views::list_view(streamed@)
        },
        views::option_view(taken.1) == response@.id,
{
    if response.output.len() > 0 {
        (response.output, response.id)
    } else {
        (streamed, response.id)
    }
}

impl Settling {
    /// The finished response, or a failure explaining why there is none.
    ///
    /// Consumes the accumulator, which is what makes the two states exclusive: after settling
    /// there is no `Settling` left to append to, and without settling there is no [`Settled`]
    /// at all.
    pub fn settle(self) -> (outcome: Result<Settled, SettleError>)
        ensures
            match self@.terminal {
                Some(ending) => outcome matches Ok(settled) && settled@ == self@.settled(ending),
                None => outcome matches Err(error) && error@ == (SettleErrorView::Truncated {
                    events: self@.events,
                    text_len: self@.text(TextStream::Output).len(),
                }),
            },
    {
        let text = joined(&self.text_parts, TextStream::Output);
        let terminal = match self.terminal {
            Some(terminal) => terminal,
            None => {
                return Err(
                    SettleError::Truncated {
                        events: self.events,
                        text_len: text.as_str().unicode_len(),
                    },
                );
            },
        };
        let refusal = joined(&self.text_parts, TextStream::Refusal);
        let reasoning_summary = joined(&self.text_parts, TextStream::ReasoningSummary);
        let reasoning = joined(&self.text_parts, TextStream::Reasoning);
        let streamed = gather(&self.text_parts, self.items);
        let (outcome, usage, items, id) = match terminal {
            Terminal::Completed(response) => {
                let usage: Option<Usage> = response.usage;
                let (items, id) = take_output(response, streamed);
                (Outcome::Completed, usage, items, id)
            },
            Terminal::Incomplete(response) => {
                let outcome = Outcome::Incomplete { reason: response.incomplete_reason };
                let usage: Option<Usage> = response.usage;
                let (items, id) = take_output(response, streamed);
                (outcome, usage, items, id)
            },
            Terminal::Failed(response) => {
                let error = match &response.error {
                    Some(error) => error.clone(),
                    None => ResponseError {
                        code: None,
                        message: "the response failed without an error object".to_owned(),
                        param: None,
                    },
                };
                let usage: Option<Usage> = response.usage;
                let (items, id) = take_output(response, streamed);
                (Outcome::Failed { error }, usage, items, id)
            },
            Terminal::Error(error) => (Outcome::Errored { error }, None, streamed, None),
        };
        Ok(
            Settled {
                outcome,
                id,
                text,
                refusal,
                reasoning_summary,
                reasoning,
                items,
                usage,
                events: self.events,
                hosted_tool_events: self.hosted_tool_events,
                part_disagreements: self.disagreements,
            },
        )
    }
}

} // verus!
