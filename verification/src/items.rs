//! What one response is made of: its output items, and the snapshot of the response
//! object a frame carries.
use vstd::prelude::*;

use crate::content::{ReplayedReasoning, ReplayedReasoningView};
use crate::json::{Json, JsonError, JsonErrorView, JsonView};
use crate::text;
use crate::usage::Usage;
use crate::values::{AssistantPhase, HostedTool, IncompleteReason, ResponseStatus, ServiceTier};
use crate::views;

verus! {

/// The `arguments` of a function call, exactly as the model emitted them.
///
/// A JSON *string* on the wire, and a string here, because the bytes are what the model
/// sees when the call is replayed as input. [`Self::decode`] is a separate step, and one
/// that can fail without destroying the call it belongs to.
#[derive(Debug, PartialEq, Eq)]
pub struct FunctionArguments(String);

impl View for FunctionArguments {
    type V = Seq<char>;

    closed spec fn view(&self) -> Seq<char> {
        self.0@
    }
}

impl Clone for FunctionArguments {
    fn clone(&self) -> (copy: Self)
        ensures
            copy@ == self@,
    {
        Self(self.0.clone())
    }
}

impl Default for FunctionArguments {
    fn default() -> (arguments: Self)
        ensures
            arguments@ == Seq::<char>::empty(),
    {
        Self(String::new())
    }
}

impl FunctionArguments {
    /// What arguments decode to: the empty object where they are blank, and otherwise what
    /// the text reads as.
    pub open spec fn decoded(text: Seq<char>) -> Result<JsonView, JsonErrorView> {
        if text::is_blank(text) {
            Ok(JsonView::Object(Seq::empty()))
        } else {
            crate::json::parsed(text)
        }
    }

    /// The arguments as they arrived.
    pub fn from_wire(arguments: &str) -> (held: Self)
        ensures
            held@ == arguments@,
    {
        Self(arguments.to_owned())
    }

    /// The exact bytes, for replay.
    pub fn as_str(&self) -> (text: &str)
        ensures
            text@ == self@,
    {
        self.0.as_str()
    }

    /// The arguments as a JSON value.
    ///
    /// Empty or blank arguments decode to the empty object: a function taking no arguments
    /// is streamed with `arguments` absent or `""`. Anything else that is not JSON is an
    /// error, and the call, its `call_id`, its name and these raw bytes all survive it.
    pub fn decode(&self) -> (outcome: Result<Json, JsonError>)
        ensures
            views::result_view(outcome) == Self::decoded(self@),
    {
        if text::blank(self.0.as_str()) {
            let fields: Vec<(String, Json)> = Vec::new();
            proof {
                assert(crate::json::fields_view(fields@) =~= Seq::<(Seq<char>, JsonView)>::empty());
            }
            return Ok(Json::object(fields));
        }
        Json::parse(self.0.as_str())
    }
}

/// A function call the model made.
#[derive(Debug, PartialEq, Eq)]
pub struct CalledFunction {
    /// The item's own identifier, absent on providers that omit it.
    pub id: Option<String>,
    /// The identifier the matching `function_call_output` must repeat.
    pub call_id: String,
    /// Which function to run.
    pub name: String,
    /// The arguments, undecoded.
    pub arguments: FunctionArguments,
}

/// What a [`CalledFunction`] holds.
#[verifier::ext_equal]
pub struct CalledFunctionView {
    pub id: Option<Seq<char>>,
    pub call_id: Seq<char>,
    pub name: Seq<char>,
    pub arguments: Seq<char>,
}

impl View for CalledFunction {
    type V = CalledFunctionView;

    open spec fn view(&self) -> CalledFunctionView {
        CalledFunctionView {
            id: views::option_view(self.id),
            call_id: self.call_id@,
            name: self.name@,
            arguments: self.arguments@,
        }
    }
}

impl Clone for CalledFunction {
    fn clone(&self) -> (copy: Self)
        ensures
            copy@ == self@,
    {
        Self {
            id: views::copy_text(&self.id),
            call_id: self.call_id.clone(),
            name: self.name.clone(),
            arguments: self.arguments.clone(),
        }
    }
}

/// A reasoning item from the response.
///
/// Reasoning models work better when their own reasoning items are handed back alongside
/// function outputs, so this exists to be fed into the next turn.
#[derive(Debug, PartialEq, Eq)]
pub struct ReasoningItem {
    /// The item's identifier.
    pub id: String,
    /// The opaque payload that makes the item replayable, present only when the request
    /// asked for `reasoning.encrypted_content` to be included.
    pub encrypted_content: Option<String>,
    /// The item's `summary` parts, concatenated, and empty when the request asked for no
    /// summary.
    pub summary: String,
}

/// What a [`ReasoningItem`] holds.
#[verifier::ext_equal]
pub struct ReasoningItemView {
    pub id: Seq<char>,
    pub encrypted_content: Option<Seq<char>>,
    pub summary: Seq<char>,
}

impl View for ReasoningItem {
    type V = ReasoningItemView;

    open spec fn view(&self) -> ReasoningItemView {
        ReasoningItemView {
            id: self.id@,
            encrypted_content: views::option_view(self.encrypted_content),
            summary: self.summary@,
        }
    }
}

impl Clone for ReasoningItem {
    fn clone(&self) -> (copy: Self)
        ensures
            copy@ == self@,
    {
        Self {
            id: self.id.clone(),
            encrypted_content: views::copy_text(&self.encrypted_content),
            summary: self.summary.clone(),
        }
    }
}

impl ReasoningItemView {
    /// The item in the form the next request needs, where it has a payload.
    pub open spec fn replayed(self) -> Option<ReplayedReasoningView> {
        match self.encrypted_content {
            Some(encrypted_content) => Some(
                ReplayedReasoningView { id: self.id, encrypted_content },
            ),
            None => None,
        }
    }
}

impl ReasoningItem {
    /// The item in the form the next request needs, or `None` when it cannot be replayed at
    /// all: without `encrypted_content` there is nothing to send in stateless mode.
    pub fn replayable(&self) -> (replayed: Option<ReplayedReasoning>)
        ensures
            views::option_view(replayed) == self@.replayed(),
    {
        match &self.encrypted_content {
            Some(content) => Some(
                ReplayedReasoning { id: self.id.clone(), encrypted_content: content.clone() },
            ),
            None => None,
        }
    }
}

/// One entry of the response's `output` array.
#[derive(Debug, PartialEq, Eq)]
pub enum OutputItem {
    /// An assistant message.
    Message {
        /// The item's identifier, absent on providers that omit it.
        id: Option<String>,
        /// Interim commentary or the final answer. OpenAI asks that this be preserved and
        /// resent on replay.
        phase: Option<AssistantPhase>,
        /// Its `output_text` blocks, concatenated. Empty while the item is still streaming,
        /// since the text arrives as deltas.
        text: String,
        /// Its `refusal` blocks, concatenated, and empty when it refused nothing. A field of
        /// its own, because a refusal concatenated into an answer *reads* as the answer.
        refusal: String,
    },
    /// A function call.
    FunctionCall(CalledFunction),
    /// Reasoning.
    Reasoning(ReasoningItem),
    /// A hosted tool's call, named by which tool made it. The rest of the item travels along
    /// undecoded because the useful fields differ per tool.
    HostedToolCall {
        /// Which built-in tool.
        tool: HostedTool,
        /// The item's identifier, absent where a gateway omits it.
        id: Option<String>,
        /// Its `status`, as the wire spells it.
        status: Option<String>,
        /// The whole item, for the fields this crate does not name.
        item: Json,
    },
    /// An item kind this crate does not model: OpenAI adds output item kinds, and an
    /// unrecognized one is not a broken frame.
    Unmodeled {
        /// The item's `type`, for logging.
        kind: String,
    },
}

/// What an [`OutputItem`] holds.
#[verifier::ext_equal]
pub enum OutputItemView {
    Message {
        id: Option<Seq<char>>,
        phase: Option<AssistantPhase>,
        text: Seq<char>,
        refusal: Seq<char>,
    },
    FunctionCall(CalledFunctionView),
    Reasoning(ReasoningItemView),
    HostedToolCall {
        tool: HostedTool,
        id: Option<Seq<char>>,
        status: Option<Seq<char>>,
        item: JsonView,
    },
    Unmodeled { kind: Seq<char> },
}

impl View for OutputItem {
    type V = OutputItemView;

    open spec fn view(&self) -> OutputItemView {
        match self {
            OutputItem::Message { id, phase, text, refusal } => OutputItemView::Message {
                id: views::option_view(*id),
                phase: *phase,
                text: text@,
                refusal: refusal@,
            },
            OutputItem::FunctionCall(call) => OutputItemView::FunctionCall(call@),
            OutputItem::Reasoning(item) => OutputItemView::Reasoning(item@),
            OutputItem::HostedToolCall { tool, id, status, item } => {
                OutputItemView::HostedToolCall {
                    tool: *tool,
                    id: views::option_view(*id),
                    status: views::option_view(*status),
                    item: item@,
                }
            },
            OutputItem::Unmodeled { kind } => OutputItemView::Unmodeled { kind: kind@ },
        }
    }
}

impl Clone for OutputItem {
    fn clone(&self) -> (copy: Self)
        ensures
            copy@ == self@,
    {
        match self {
            OutputItem::Message { id, phase, text, refusal } => OutputItem::Message {
                id: views::copy_text(id),
                phase: *phase,
                text: text.clone(),
                refusal: refusal.clone(),
            },
            OutputItem::FunctionCall(call) => OutputItem::FunctionCall(call.clone()),
            OutputItem::Reasoning(item) => OutputItem::Reasoning(item.clone()),
            OutputItem::HostedToolCall { tool, id, status, item } => OutputItem::HostedToolCall {
                tool: *tool,
                id: views::copy_text(id),
                status: views::copy_text(status),
                item: item.clone(),
            },
            OutputItem::Unmodeled { kind } => OutputItem::Unmodeled { kind: kind.clone() },
        }
    }
}

/// A copy of a list of items.
pub(crate) fn copy_items(items: &Vec<OutputItem>) -> (copy: Vec<OutputItem>)
    ensures
        views::list_view(copy@) == views::list_view(items@),
{
    let mut copy: Vec<OutputItem> = Vec::new();
    let mut i: usize = 0;
    while i < items.len()
        invariant
            i <= items.len(),
            copy.len() == i,
            forall|j: int| 0 <= j < i ==> (#[trigger] copy@[j])@ == items@[j]@,
        decreases items.len() - i,
    {
        copy.push(items[i].clone());
        i += 1;
    }
    assert(views::list_view(copy@) =~= views::list_view(items@));
    copy
}

/// An error the API reported for a response.
///
/// `code` is a plain string, not an enum, because the documented list is not closed: codes
/// outside it are observed in practice.
#[derive(Debug, PartialEq, Eq)]
pub struct ResponseError {
    /// The error code, absent when the API did not give one.
    pub code: Option<String>,
    /// The human-readable message.
    pub message: String,
    /// Which request parameter was at fault, on the events that report it.
    pub param: Option<String>,
}

/// What a [`ResponseError`] holds.
#[verifier::ext_equal]
pub struct ResponseErrorView {
    pub code: Option<Seq<char>>,
    pub message: Seq<char>,
    pub param: Option<Seq<char>>,
}

impl View for ResponseError {
    type V = ResponseErrorView;

    open spec fn view(&self) -> ResponseErrorView {
        ResponseErrorView {
            code: views::option_view(self.code),
            message: self.message@,
            param: views::option_view(self.param),
        }
    }
}

impl Clone for ResponseError {
    fn clone(&self) -> (copy: Self)
        ensures
            copy@ == self@,
    {
        Self {
            code: views::copy_text(&self.code),
            message: self.message.clone(),
            param: views::copy_text(&self.param),
        }
    }
}

/// The `response` object delivered by a progress or terminal event: the fields a streaming
/// consumer acts on.
///
/// Every field is independently absent, because a gateway may report any subset and none of
/// them is required to read the rest.
#[derive(Debug, PartialEq)]
pub struct ResponseSnapshot {
    /// The response's identifier, worth recording for OpenAI support.
    pub id: Option<String>,
    /// Where generation had got to when this frame was sent. `None` when the frame omits it
    /// or names a status this crate does not know.
    pub status: Option<ResponseStatus>,
    /// What the response cost. `None` when absent or explicitly `null`.
    pub usage: Option<Usage>,
    /// Why it failed, on a failure.
    pub error: Option<ResponseError>,
    /// Why it stopped short, on an incomplete response. `None` when absent or when the API
    /// names a reason this crate does not know.
    pub incomplete_reason: Option<IncompleteReason>,
    /// Which processing tier actually served the request, which may differ from the one
    /// asked for: `fast` is reported as `priority`.
    pub service_tier: Option<ServiceTier>,
    /// The final `output` array, when the terminal event repeats it.
    pub output: Vec<OutputItem>,
}

/// What a [`ResponseSnapshot`] holds.
#[verifier::ext_equal]
pub struct ResponseSnapshotView {
    pub id: Option<Seq<char>>,
    pub status: Option<ResponseStatus>,
    pub usage: Option<Usage>,
    pub error: Option<ResponseErrorView>,
    pub incomplete_reason: Option<IncompleteReason>,
    pub service_tier: Option<ServiceTier>,
    pub output: Seq<OutputItemView>,
}

impl View for ResponseSnapshot {
    type V = ResponseSnapshotView;

    open spec fn view(&self) -> ResponseSnapshotView {
        ResponseSnapshotView {
            id: views::option_view(self.id),
            status: self.status,
            usage: self.usage,
            error: views::option_view(self.error),
            incomplete_reason: self.incomplete_reason,
            service_tier: self.service_tier,
            output: views::list_view(self.output@),
        }
    }
}

impl ResponseSnapshotView {
    /// The snapshot of a response object that reports nothing.
    pub open spec fn absent() -> Self {
        ResponseSnapshotView {
            id: None,
            status: None,
            usage: None,
            error: None,
            incomplete_reason: None,
            service_tier: None,
            output: Seq::empty(),
        }
    }
}

impl Default for ResponseSnapshot {
    /// The all-absent snapshot, which is what `{"response": {}}` decodes to.
    fn default() -> (snapshot: Self)
        ensures
            snapshot@ == ResponseSnapshotView::absent(),
    {
        let snapshot = Self {
            id: None,
            status: None,
            usage: None,
            error: None,
            incomplete_reason: None,
            service_tier: None,
            output: Vec::new(),
        };
        assert(snapshot@.output =~= Seq::<OutputItemView>::empty());
        snapshot
    }
}

impl Clone for ResponseSnapshot {
    fn clone(&self) -> (copy: Self)
        ensures
            copy@ == self@,
    {
        Self {
            id: views::copy_text(&self.id),
            status: self.status,
            usage: self.usage,
            error: match &self.error {
                Some(error) => Some(error.clone()),
                None => None,
            },
            incomplete_reason: self.incomplete_reason,
            service_tier: self.service_tier,
            output: copy_items(&self.output),
        }
    }
}

} // verus!
