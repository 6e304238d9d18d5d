//! A finished response, and the four ways a stream can end.
//!
//! [`Settled`] comes only from [`Settling::settle`](crate::settle::Settling::settle): a
//! finished response can only come from a finished stream.
use vstd::prelude::*;

use crate::items::{
    CalledFunction, CalledFunctionView, OutputItem, OutputItemView, ReasoningItem,
    ReasoningItemView, ResponseError, ResponseErrorView,
};
use crate::ordered::{OrderedMap, Ranked};
use crate::settle::{PartDisagreement, PartDisagreementView};
use crate::usage::Usage;
use crate::values::{HostedTool, IncompleteReason};
use crate::views;

verus! {

impl HostedTool {
    /// The tool's place among the tools.
    pub open spec fn place(self) -> nat {
        match self {
            HostedTool::FileSearch => 0,
            HostedTool::WebSearch => 1,
            HostedTool::CodeInterpreter => 2,
            HostedTool::ImageGeneration => 3,
            HostedTool::Mcp => 4,
            HostedTool::McpListTools => 5,
            HostedTool::Shell => 6,
            HostedTool::LocalShell => 7,
            HostedTool::Computer => 8,
            HostedTool::ApplyPatch => 9,
            HostedTool::Custom => 10,
            HostedTool::ToolSearch => 11,
        }
    }

    fn number(self) -> (n: u32)
        ensures
            n == self.place(),
    {
        match self {
            HostedTool::FileSearch => 0,
            HostedTool::WebSearch => 1,
            HostedTool::CodeInterpreter => 2,
            HostedTool::ImageGeneration => 3,
            HostedTool::Mcp => 4,
            HostedTool::McpListTools => 5,
            HostedTool::Shell => 6,
            HostedTool::LocalShell => 7,
            HostedTool::Computer => 8,
            HostedTool::ApplyPatch => 9,
            HostedTool::Custom => 10,
            HostedTool::ToolSearch => 11,
        }
    }
}

impl Ranked for HostedTool {
    open spec fn rank(self) -> nat {
        self.place()
    }

    proof fn rank_is_one_to_one(a: Self, b: Self) {
    }

    fn before(&self, other: &Self) -> (less: bool) {
        self.number() < other.number()
    }
}

/// How many events each hosted tool sent.
pub type HostedToolCounts = OrderedMap<HostedTool, usize>;

/// How a stream ended.
///
/// Each ending carries exactly the data that ending has, so there is no `error` field to
/// read on a success.
#[derive(Debug, Clone, PartialEq, Eq)]
pub enum Outcome {
    /// The model answered in full.
    Completed,
    /// Generation stopped short. Whatever was produced is still present in the [`Settled`].
    Incomplete {
        /// Why, when the API named a reason this crate knows.
        reason: Option<IncompleteReason>,
    },
    /// The response failed, as `response.failed`.
    Failed {
        /// What the API reported.
        error: ResponseError,
    },
    /// The stream delivered a bare `error` event. Distinct from [`Self::Failed`], which
    /// carries a whole failed response object.
    Errored {
        /// What the API reported.
        error: ResponseError,
    },
}

/// What an [`Outcome`] holds.
#[verifier::ext_equal]
pub enum OutcomeView {
    Completed,
    Incomplete { reason: Option<IncompleteReason> },
    Failed { error: ResponseErrorView },
    Errored { error: ResponseErrorView },
}

impl View for Outcome {
    type V = OutcomeView;

    open spec fn view(&self) -> OutcomeView {
        match self {
            Outcome::Completed => OutcomeView::Completed,
            Outcome::Incomplete { reason } => OutcomeView::Incomplete { reason: *reason },
            Outcome::Failed { error } => OutcomeView::Failed { error: error@ },
            Outcome::Errored { error } => OutcomeView::Errored { error: error@ },
        }
    }
}

/// A stream that reached a terminal event.
///
/// Obtainable only from [`Settling::settle`](crate::settle::Settling::settle), so holding
/// one is proof the stream finished. Every field is final.
#[derive(Debug, Clone, PartialEq)]
#[non_exhaustive]
pub struct Settled {
    /// How the stream ended, with that ending's own data.
    pub outcome: Outcome,
    /// The response's identifier, worth logging for OpenAI support.
    pub id: Option<String>,
    /// The answer text, every `output_text` delta in document order. Answer text only: a
    /// refusal is in [`Self::refusal`] and reasoning is in the two reasoning fields.
    pub text: String,
    /// The refusal, when the model declined, and empty otherwise.
    pub refusal: String,
    /// The reasoning summary, when one was requested.
    pub reasoning_summary: String,
    /// The raw reasoning, on models that stream it. Usually empty.
    pub reasoning: String,
    /// The output items, in `output_index` order.
    pub items: Vec<OutputItem>,
    /// What the response cost. `None` when the API did not report it.
    pub usage: Option<Usage>,
    /// How many events the stream delivered.
    pub events: usize,
    /// Which hosted tools ran, and how many events each sent.
    pub hosted_tool_events: HostedToolCounts,
    /// Every place a `done` frame contradicted the deltas accumulated for it. Empty on a
    /// healthy stream.
    pub part_disagreements: Vec<PartDisagreement>,
}

/// What a [`Settled`] holds.
#[verifier::ext_equal]
pub struct SettledView {
    pub outcome: OutcomeView,
    pub id: Option<Seq<char>>,
    pub text: Seq<char>,
    pub refusal: Seq<char>,
    pub reasoning_summary: Seq<char>,
    pub reasoning: Seq<char>,
    pub items: Seq<OutputItemView>,
    pub usage: Option<Usage>,
    pub events: nat,
    pub hosted_tool_events: Map<HostedTool, usize>,
    pub part_disagreements: Seq<PartDisagreementView>,
}

impl View for Settled {
    type V = SettledView;

    open spec fn view(&self) -> SettledView {
        SettledView {
            outcome: self.outcome@,
            id: views::option_view(self.id),
            text: self.text@,
            refusal: self.refusal@,
            reasoning_summary: self.reasoning_summary@,
            reasoning: self.reasoning@,
            items: views::list_view(self.items@),
            usage: self.usage,
            events: self.events as nat,
            hosted_tool_events: self.hosted_tool_events@,
            part_disagreements: views::list_view(self.part_disagreements@),
        }
    }
}

/// The function calls among items, in order.
pub open spec fn calls_among(items: Seq<OutputItemView>) -> Seq<CalledFunctionView>
    decreases items.len(),
{
    if items.len() == 0 {
        Seq::empty()
    } else {
        match items.last() {
            OutputItemView::FunctionCall(call) => calls_among(items.drop_last()).push(call),
            _ => calls_among(items.drop_last()),
        }
    }
}

/// The reasoning items among items, in order.
pub open spec fn reasoning_among(items: Seq<OutputItemView>) -> Seq<ReasoningItemView>
    decreases items.len(),
{
    if items.len() == 0 {
        Seq::empty()
    } else {
        match items.last() {
            OutputItemView::Reasoning(item) => reasoning_among(items.drop_last()).push(item),
            _ => reasoning_among(items.drop_last()),
        }
    }
}

/// The function calls among items.
pub(crate) fn calls_in(items: &Vec<OutputItem>) -> (calls: Vec<&CalledFunction>)
    ensures
        views::list_view(calls@) == calls_among(views::list_view(items@)),
{
    let mut calls: Vec<&CalledFunction> = Vec::new();
    let mut i: usize = 0;
    let ghost all = views::list_view(items@);
    assert(all.take(0) =~= Seq::<OutputItemView>::empty());
    assert(views::list_view(calls@) =~= Seq::<CalledFunctionView>::empty());
    while i < items.len()
        invariant
            i <= items.len(),
            all == views::list_view(items@),
            views::list_view(calls@) == calls_among(all.take(i as int)),
        decreases items.len() - i,
    {
        let item = &items[i];
        let ghost before = calls@;
        assert(all.take(i + 1).drop_last() =~= all.take(i as int));
        assert(all.take(i + 1).last() == item@);
        if let OutputItem::FunctionCall(call) = item {
            calls.push(call);
            assert(views::list_view(calls@) =~= views::list_view(before).push(call@));
        }
        i += 1;
    }
    assert(all.take(i as int) =~= all);
    calls
}

/// The reasoning items among items.
pub(crate) fn reasoning_in(items: &Vec<OutputItem>) -> (found: Vec<&ReasoningItem>)
    ensures
        views::list_view(found@) == reasoning_among(views::list_view(items@)),
{
    let mut found: Vec<&ReasoningItem> = Vec::new();
    let mut i: usize = 0;
    let ghost all = views::list_view(items@);
    assert(all.take(0) =~= Seq::<OutputItemView>::empty());
    assert(views::list_view(found@) =~= Seq::<ReasoningItemView>::empty());
    while i < items.len()
        invariant
            i <= items.len(),
            all == views::list_view(items@),
            views::list_view(found@) == reasoning_among(all.take(i as int)),
        decreases items.len() - i,
    {
        let item = &items[i];
        let ghost before = found@;
        assert(all.take(i + 1).drop_last() =~= all.take(i as int));
        assert(all.take(i + 1).last() == item@);
        if let OutputItem::Reasoning(reasoning) = item {
            found.push(reasoning);
            assert(views::list_view(found@) =~= views::list_view(before).push(reasoning@));
        }
        i += 1;
    }
    assert(all.take(i as int) =~= all);
    found
}

impl Settled {
    /// Whether the model answered in full.
    pub fn is_completed(&self) -> (r: bool)
        ensures
            r == (self@.outcome is Completed),
    {
        match &self.outcome {
            Outcome::Completed => true,
            _ => false,
        }
    }

    /// The error, on either failing outcome. `None` on the two that carry none.
    pub fn error(&self) -> (error: Option<&ResponseError>)
        ensures
            views::option_view(error) == match self@.outcome {
                OutcomeView::Failed { error } => Some(error),
                OutcomeView::Errored { error } => Some(error),
                _ => None,
            },
    {
        match &self.outcome {
            Outcome::Failed { error } | Outcome::Errored { error } => Some(error),
            Outcome::Completed | Outcome::Incomplete { .. } => None,
        }
    }

    /// The function calls the model made, in output order. Arguments are still undecoded.
    pub fn function_calls(&self) -> (calls: Vec<&CalledFunction>)
        ensures
            views::list_view(calls@) == calls_among(self@.items),
    {
        calls_in(&self.items)
    }

    /// The reasoning items, in output order, for replay into the next request.
    pub fn reasoning_items(&self) -> (items: Vec<&ReasoningItem>)
        ensures
            views::list_view(items@) == reasoning_among(self@.items),
    {
        reasoning_in(&self.items)
    }
}

} // verus!
