//! The whole response body, for a request that did not stream.
//!
//! A buffered request answers with one JSON object rather than a sequence of events. It is not
//! a [`Settled`](crate::settled::Settled), which means *a stream that reached a terminal
//! event*: a buffered body either arrived whole or the HTTP request failed. What the two share
//! is [`OutputItem`], so both read the same items the same way.
//!
//! Fields the server may have changed are decoded; the rest of the body is kept in
//! [`Response::raw`], so nothing is lost to a caller who needs a field this type does not
//! name.
use vstd::prelude::*;

use crate::content::{ReplayedReasoning, ReplayedReasoningView};
use crate::decode;
use crate::items;
use crate::items::{
    CalledFunction, OutputItem, OutputItemView, ResponseError, ResponseErrorView,
};
use crate::json;
use crate::json::{Json, JsonErrorView, JsonView};
use crate::settled;
use crate::stream::{FrameError, FrameErrorView};
use crate::usage::Usage;
use crate::values::{IncompleteReason, ResponseStatus, ServiceTier};
use crate::views;

verus! {

/// One complete response body.
#[derive(Debug, PartialEq)]
#[non_exhaustive]
pub struct Response {
    /// The response's identifier. Worth logging: it is what OpenAI support needs to look a
    /// request up.
    pub id: Option<String>,
    /// Where generation ended up. `None` when the body omits it or names a status this crate
    /// does not know.
    pub status: Option<ResponseStatus>,
    /// The model that actually answered, which a gateway may resolve differently from the name
    /// sent.
    pub model: Option<String>,
    /// Everything the model produced, in order.
    pub output: Vec<OutputItem>,
    /// What it cost. `None` when the body reported none.
    pub usage: Option<Usage>,
    /// Why it failed, on a failure.
    pub error: Option<ResponseError>,
    /// Why it stopped short, on an incomplete response.
    pub incomplete_reason: Option<IncompleteReason>,
    /// Which processing tier served it, which may differ from the one asked for.
    pub service_tier: Option<ServiceTier>,
    /// The body as it arrived, for every field this type does not name.
    pub raw: Json,
}

/// What a [`Response`] holds.
#[verifier::ext_equal]
pub struct ResponseView {
    pub id: Option<Seq<char>>,
    pub status: Option<ResponseStatus>,
    pub model: Option<Seq<char>>,
    pub output: Seq<OutputItemView>,
    pub usage: Option<Usage>,
    pub error: Option<ResponseErrorView>,
    pub incomplete_reason: Option<IncompleteReason>,
    pub service_tier: Option<ServiceTier>,
    pub raw: JsonView,
}

impl View for Response {
    type V = ResponseView;

    open spec fn view(&self) -> ResponseView {
        ResponseView {
            id: views::option_view(self.id),
            status: self.status,
            model: views::option_view(self.model),
            output: views::list_view(self.output@),
            usage: self.usage,
            error: views::option_view(self.error),
            incomplete_reason: self.incomplete_reason,
            service_tier: self.service_tier,
            raw: self.raw@,
        }
    }
}

impl Clone for Response {
    fn clone(&self) -> (copy: Self)
        ensures
            copy@ == self@,
    {
        Self {
            id: views::copy_text(&self.id),
            status: self.status,
            model: views::copy_text(&self.model),
            output: items::copy_items(&self.output),
            usage: self.usage,
            error: match &self.error {
                Some(error) => Some(error.clone()),
                None => None,
            },
            incomplete_reason: self.incomplete_reason,
            service_tier: self.service_tier,
            raw: self.raw.clone(),
        }
    }
}

/// What a body decodes to: the snapshot a terminal event would carry, the model's name, and
/// the body itself.
pub open spec fn response_in(body: JsonView) -> Result<ResponseView, FrameErrorView> {
    match decode::snapshot_of(body) {
        Err(error) => Err(error),
        Ok(snapshot) => Ok(
            ResponseView {
                id: snapshot.id,
                status: snapshot.status,
                model: body.text_at("model"@),
                output: snapshot.output,
                usage: snapshot.usage,
                error: snapshot.error,
                incomplete_reason: snapshot.incomplete_reason,
                service_tier: snapshot.service_tier,
                raw: body,
            },
        ),
    }
}

/// What a body's text decodes to, given what it is as JSON.
pub open spec fn response_of(body: Result<JsonView, JsonErrorView>) -> Result<
    ResponseView,
    FrameErrorView,
> {
    match body {
        Err(error) => Err(FrameErrorView::NotJson(error)),
        Ok(body) => response_in(body),
    }
}

/// Which text of an output item is meant.
#[derive(Debug, Clone, Copy, PartialEq, Eq, Structural)]
pub enum ItemText {
    /// A message's answer.
    Answer,
    /// A message's refusal.
    Refusal,
    /// A reasoning item's summary.
    Summary,
}

impl ItemText {
    /// The text an item has of this sort, where it has one.
    pub open spec fn of(self, item: OutputItemView) -> Option<Seq<char>> {
        match (self, item) {
            (ItemText::Answer, OutputItemView::Message { text, .. }) => Some(text),
            (ItemText::Refusal, OutputItemView::Message { refusal, .. }) => Some(refusal),
            (ItemText::Summary, OutputItemView::Reasoning(item)) => Some(item.summary),
            _ => None,
        }
    }

    /// The text items have of this sort, joined in order.
    pub open spec fn joined(self, items: Seq<OutputItemView>) -> Seq<char>
        decreases items.len(),
    {
        if items.len() == 0 {
            Seq::empty()
        } else {
            match self.of(items.last()) {
                Some(text) => self.joined(items.drop_last()) + text,
                None => self.joined(items.drop_last()),
            }
        }
    }
}

/// The replayable reasoning among items, in order.
pub open spec fn replayed_among(items: Seq<OutputItemView>) -> Seq<ReplayedReasoningView>
    decreases items.len(),
{
    if items.len() == 0 {
        Seq::empty()
    } else {
        match items.last() {
            OutputItemView::Reasoning(item) => match item.replayed() {
                Some(replayed) => replayed_among(items.drop_last()).push(replayed),
                None => replayed_among(items.drop_last()),
            },
            _ => replayed_among(items.drop_last()),
        }
    }
}

impl Response {
    /// One response body, decoded.
    ///
    /// Fails on a body that contradicts the schema: not an object, or an output item or
    /// `usage` object of the wrong shape. A field this crate does not model is not a failure.
    pub fn decode(body: &str) -> (outcome: Result<Self, FrameError>)
        ensures
            views::result_view(outcome) == response_of(json::parsed(body@)),
    {
        match Json::parse(body) {
            Ok(value) => Self::from_json(&value),
            Err(error) => Err(FrameError::NotJson(error)),
        }
    }

    /// The same, for a caller who already parsed the body.
    ///
    /// `response.completed` delivers exactly this body, and both go through one decoder.
    pub fn from_json(body: &Json) -> (outcome: Result<Self, FrameError>)
        ensures
            views::result_view(outcome) == response_in(body@),
    {
        match decode::snapshot(body) {
            Ok(snapshot) => Ok(
                Self {
                    id: snapshot.id,
                    status: snapshot.status,
                    model: decode::optional_string(body, "model"),
                    output: snapshot.output,
                    usage: snapshot.usage,
                    error: snapshot.error,
                    incomplete_reason: snapshot.incomplete_reason,
                    service_tier: snapshot.service_tier,
                    raw: body.clone(),
                },
            ),
            Err(error) => Err(error),
        }
    }

    /// The answer text: every message item's `output_text`, in order.
    ///
    /// Answer text only. A refusal is [`Self::refusal`] and reasoning is
    /// [`Self::reasoning_summary`]: a refusal folded into the answer reads as the answer.
    pub fn text(&self) -> (text: String)
        ensures
            text@ == ItemText::Answer.joined(self@.output),
    {
        self.joined(ItemText::Answer)
    }

    /// The refusal, when the model declined, and empty otherwise.
    pub fn refusal(&self) -> (text: String)
        ensures
            text@ == ItemText::Refusal.joined(self@.output),
    {
        self.joined(ItemText::Refusal)
    }

    /// The reasoning summary, when one was requested.
    pub fn reasoning_summary(&self) -> (text: String)
        ensures
            text@ == ItemText::Summary.joined(self@.output),
    {
        self.joined(ItemText::Summary)
    }

    /// The selected text of every output item, joined in order.
    fn joined(&self, which: ItemText) -> (text: String)
        ensures
            text@ == which.joined(self@.output),
    {
        let ghost all = self@.output;
        let mut text = String::new();
        let mut i: usize = 0;
        assert(all.take(0) =~= Seq::<OutputItemView>::empty());
        while i < self.output.len()
            invariant
                i <= self.output.len(),
                all == views::list_view(self.output@),
                text@ == which.joined(all.take(i as int)),
            decreases self.output.len() - i,
        {
            assert(all.take(i + 1).drop_last() =~= all.take(i as int));
            assert(all.take(i + 1).last() == self.output@[i as int]@);
            match (which, &self.output[i]) {
                (ItemText::Answer, OutputItem::Message { text: piece, .. }) => text.append(
                    piece.as_str(),
                ),
                (ItemText::Refusal, OutputItem::Message { refusal: piece, .. }) => text.append(
                    piece.as_str(),
                ),
                (ItemText::Summary, OutputItem::Reasoning(item)) => text.append(
                    item.summary.as_str(),
                ),
                _ => {},
            }
            i += 1;
        }
        assert(all.take(i as int) =~= all);
        text
    }

    /// The function calls the model made, in order. Arguments are still undecoded.
    pub fn function_calls(&self) -> (calls: Vec<&CalledFunction>)
        ensures
            views::list_view(calls@) == settled::calls_among(self@.output),
    {
        settled::calls_in(&self.output)
    }

    /// The reasoning items, in the form the next request needs.
    ///
    /// Only the ones that can be replayed: an item without `encrypted_content` has nothing to
    /// send in stateless mode.
    pub fn replayable_reasoning(&self) -> (found: Vec<ReplayedReasoning>)
        ensures
            views::list_view(found@) == replayed_among(self@.output),
    {
        let ghost all = self@.output;
        let mut found: Vec<ReplayedReasoning> = Vec::new();
        let mut i: usize = 0;
        assert(all.take(0) =~= Seq::<OutputItemView>::empty());
        assert(views::list_view(found@) =~= Seq::<ReplayedReasoningView>::empty());
        while i < self.output.len()
            invariant
                i <= self.output.len(),
                all == views::list_view(self.output@),
                views::list_view(found@) == replayed_among(all.take(i as int)),
            decreases self.output.len() - i,
        {
            let ghost before = found@;
            assert(all.take(i + 1).drop_last() =~= all.take(i as int));
            assert(all.take(i + 1).last() == self.output@[i as int]@);
            if let OutputItem::Reasoning(item) = &self.output[i] {
                if let Some(replayed) = item.replayable() {
                    found.push(replayed);
                    assert(views::list_view(found@) =~= views::list_view(before).push(replayed@));
                }
            }
            i += 1;
        }
        assert(all.take(i as int) =~= all);
        found
    }

    /// Whether the model answered in full.
    pub fn is_completed(&self) -> (r: bool)
        ensures
            r == (self@.status == Some(ResponseStatus::Completed)),
    {
        match self.status {
            Some(ResponseStatus::Completed) => true,
            _ => false,
        }
    }
}

} // verus!
