//! What a caller reads out of a line, an event, a response or a settled stream.
//!
//! Each law takes what a reading function returned, and states it over what was read.
use vstd::prelude::*;

use crate::items::{CalledFunction, FunctionArguments, OutputItemView, ResponseError};
use crate::json::JsonView;
use crate::output_laws;
use crate::response::{ItemText, Response};
use crate::settle::Settling;
use crate::settled::{OutcomeView, Settled};
use crate::stream;
use crate::stream::{ProgressStage, StreamEvent, StreamEventView, TextStream};
use crate::text;
use crate::usage::Usage;
use crate::values::{ErrorType, ResponseStatus};
use crate::views;

verus! {

/// A data line gives back the payload it was written with, whether or not a space was put after
/// the colon; and only a data line has one.
pub proof fn a_data_line_carries_its_payload(line: Seq<char>, payload: Seq<char>)
    ensures
        stream::payload_of("data: "@ + payload) == Some(payload),
        payload.len() == 0 || payload[0] != ' ' ==> stream::payload_of("data:"@ + payload) == Some(
            payload,
        ),
        stream::payload_of(line) is Some <==> line.len() >= 5 && line.take(5) == "data:"@,
        stream::payload_of(line) == Some(payload) ==> line == "data: "@ + payload || line
            == "data:"@ + payload,
{
    reveal_strlit("data:");
    reveal_strlit("data: ");
    assert("data:"@.len() == 5);
    assert("data: "@ =~= "data:"@.push(' '));
    let spaced = "data: "@ + payload;
    assert("data:"@.is_prefix_of(spaced));
    assert(spaced.skip(5)[0] == ' ');
    assert(spaced.skip(5).skip(1) =~= payload);
    let bare = "data:"@ + payload;
    assert("data:"@.is_prefix_of(bare));
    assert(bare.skip(5) =~= payload);
    if line.len() >= 5 && line.take(5) == "data:"@ {
        assert("data:"@ =~= line.subrange(0, 5));
    }
    if "data:"@.is_prefix_of(line) {
        assert(line.take(5) =~= "data:"@);
        assert(line =~= "data:"@ + line.skip(5));
        let rest = line.skip(5);
        if rest.len() > 0 && rest[0] == ' ' {
            assert(line =~= "data: "@ + rest.skip(1));
        }
    }
}

/// A stream ends with a response that is completed, failed or incomplete, or with an error, and
/// with nothing else.
pub proof fn four_events_end_a_stream(event: StreamEvent, ends: bool)
    requires
        call_ensures(StreamEvent::is_terminal, (&event,), ends),
    ensures
        ends == match event {
            StreamEvent::Completed(_)
            | StreamEvent::Failed(_)
            | StreamEvent::Incomplete(_)
            | StreamEvent::Error(_) => true,
            _ => false,
        },
        event@.terminal() == ends,
{
}

/// Only answer text is shown as answer text: a delta of a refusal or of reasoning is not.
pub proof fn only_answer_text_is_shown_as_answer(event: StreamEvent, delta: Option<&str>)
    requires
        call_ensures(StreamEvent::answer_text_delta, (&event,), delta),
    ensures
        match event@ {
            StreamEventView::TextDelta { stream, delta: sent, .. } => match stream {
                TextStream::Output => delta matches Some(shown) && shown@ == sent,
                _ => delta is None,
            },
            _ => delta is None,
        },
{
}

/// A response at a stage of progress is in progress or queued, as the stage says.
pub proof fn a_stage_has_its_status(stage: ProgressStage, status: ResponseStatus)
    requires
        call_ensures(ProgressStage::status, (stage,), status),
    ensures
        status is InProgress <==> stage is InProgress,
        status is Queued <==> stage !is InProgress,
{
}

/// Each documented HTTP status stands for its own error, and no other status for any.
pub proof fn each_status_stands_for_its_error(status: u16, error: Option<ErrorType>)
    requires
        call_ensures(ErrorType::from_status, (status,), error),
    ensures
        error == Some(ErrorType::InvalidRequest) <==> status == 400 || status == 422,
        error == Some(ErrorType::Authentication) <==> status == 401,
        error == Some(ErrorType::Permission) <==> status == 403,
        error == Some(ErrorType::NotFound) <==> status == 404,
        error == Some(ErrorType::RateLimit) <==> status == 429,
        error == Some(ErrorType::ServerError) <==> 500 <= status < 600,
        error is None <==> !(status == 400 || status == 401 || status == 403 || status == 404
            || status == 422 || status == 429 || 500 <= status < 600),
{
}

/// Arguments are held as they arrived. Blank ones decode to an object without fields, and any
/// others to what their own text reads as.
pub proof fn arguments_decode_to_what_they_say(
    wire: &str,
    held: FunctionArguments,
    shown: &str,
)
    requires
        call_ensures(FunctionArguments::from_wire, (wire,), held),
        call_ensures(FunctionArguments::as_str, (&held,), shown),
    ensures
        shown@ == wire@,
        (forall|i: int| 0 <= i < wire@.len() ==> text::is_white_space(#[trigger] wire@[i])) ==> (
        FunctionArguments::decoded(held@) matches Ok(JsonView::Object(fields)) && fields.len()
            == 0),
        (exists|i: int| 0 <= i < wire@.len() && !text::is_white_space(#[trigger] wire@[i]))
            ==> FunctionArguments::decoded(held@) == crate::json::parsed(wire@),
{
}

/// A response reads out the answer, the refusal, the summary and the calls of each item, in
/// order: what one more item adds is added at the end, each text to its own.
pub proof fn a_response_reads_out_its_items(
    before: Response,
    after: Response,
    item: OutputItemView,
    text_before: String,
    text_after: String,
    refusal_before: String,
    refusal_after: String,
    summary_before: String,
    summary_after: String,
)
    requires
        after@.output == before@.output.push(item),
        call_ensures(Response::text, (&before,), text_before),
        call_ensures(Response::text, (&after,), text_after),
        call_ensures(Response::refusal, (&before,), refusal_before),
        call_ensures(Response::refusal, (&after,), refusal_after),
        call_ensures(Response::reasoning_summary, (&before,), summary_before),
        call_ensures(Response::reasoning_summary, (&after,), summary_after),
    ensures
        before@.output.len() == 0 ==> text_before@.len() == 0 && refusal_before@.len() == 0
            && summary_before@.len() == 0,
        text_after@ == text_before@ + match item {
            OutputItemView::Message { text, .. } => text,
            _ => Seq::empty(),
        },
        refusal_after@ == refusal_before@ + match item {
            OutputItemView::Message { refusal, .. } => refusal,
            _ => Seq::empty(),
        },
        summary_after@ == summary_before@ + match item {
            OutputItemView::Reasoning(reasoning) => reasoning.summary,
            _ => Seq::empty(),
        },
{
    let output = before@.output;
    assert(output.push(item) =~= output + seq![item]);
    output_laws::every_text_is_joined_in_order(ItemText::Answer, output, seq![item]);
    output_laws::every_text_is_joined_in_order(ItemText::Refusal, output, seq![item]);
    output_laws::every_text_is_joined_in_order(ItemText::Summary, output, seq![item]);
    if output.len() == 0 {
        output_laws::every_text_is_joined_in_order(ItemText::Answer, output, output);
        output_laws::every_text_is_joined_in_order(ItemText::Refusal, output, output);
        output_laws::every_text_is_joined_in_order(ItemText::Summary, output, output);
    }
}

/// The calls of a response are its function calls and no other item, in order.
pub proof fn a_response_lists_its_calls(
    before: Response,
    after: Response,
    item: OutputItemView,
    calls_before: Vec<&CalledFunction>,
    calls_after: Vec<&CalledFunction>,
)
    requires
        after@.output == before@.output.push(item),
        call_ensures(Response::function_calls, (&before,), calls_before),
        call_ensures(Response::function_calls, (&after,), calls_after),
    ensures
        before@.output.len() == 0 ==> calls_before@.len() == 0,
        match item {
            OutputItemView::FunctionCall(call) => {
                &&& calls_after@.len() == calls_before@.len() + 1
                &&& calls_after@.last()@ == call
            },
            _ => calls_after@.len() == calls_before@.len(),
        },
        forall|i: int|
            0 <= i < calls_before@.len() ==> (#[trigger] calls_after@[i])@ == calls_before@[i]@,
{
    let output = before@.output;
    let earlier = views::list_view(calls_before@);
    let later = views::list_view(calls_after@);
    assert(output.push(item) =~= output + seq![item]);
    output_laws::every_call_is_found(output, seq![item]);
    if output.len() == 0 {
        output_laws::every_call_is_found(output, output);
    }
    assert(earlier.len() == calls_before@.len());
    assert(later.len() == calls_after@.len());
    assert forall|i: int| 0 <= i < calls_before@.len() implies (#[trigger] calls_after@[i])@
        == calls_before@[i]@ by {
        assert(later[i] == earlier[i]);
        assert(later[i] == calls_after@[i]@);
        assert(earlier[i] == calls_before@[i]@);
    }
    match item {
        OutputItemView::FunctionCall(call) => {
            assert(later.last() == call);
            assert(later[later.len() - 1] == calls_after@[calls_after@.len() - 1]@);
        },
        _ => {},
    }
}

/// A response is completed exactly where the API says it is, and a settled stream exactly where
/// it ended so.
pub proof fn completion_is_what_was_reported(
    response: Response,
    settled: Settled,
    whole: bool,
    ended: bool,
)
    requires
        call_ensures(Response::is_completed, (&response,), whole),
        call_ensures(Settled::is_completed, (&settled,), ended),
    ensures
        whole <==> (response.status matches Some(status) && status is Completed),
        ended <==> settled@.outcome is Completed,
{
}

/// A settled stream has an error exactly where it failed or broke off with one, and then that.
pub proof fn a_settled_stream_has_the_error_it_ended_with(
    settled: Settled,
    error: Option<&ResponseError>,
)
    requires
        call_ensures(Settled::error, (&settled,), error),
    ensures
        match settled@.outcome {
            OutcomeView::Failed { error: sent } => error matches Some(found) && found@ == sent,
            OutcomeView::Errored { error: sent } => error matches Some(found) && found@ == sent,
            OutcomeView::Completed | OutcomeView::Incomplete { .. } => error is None,
        },
{
}

/// What a stream shows while it runs is its own answer and its own summary, and it has ended
/// exactly where an ending is held.
pub proof fn a_running_stream_shows_its_own_text(
    held: Settling,
    answer: String,
    summary: String,
    events: usize,
    ended: bool,
)
    requires
        call_ensures(Settling::text_so_far, (&held,), answer),
        call_ensures(Settling::reasoning_summary_so_far, (&held,), summary),
        call_ensures(Settling::event_count, (&held,), events),
        call_ensures(Settling::is_terminated, (&held,), ended),
    ensures
        answer@ == stream::joined_text(held@.text_parts, TextStream::Output, None),
        summary@ == stream::joined_text(held@.text_parts, TextStream::ReasoningSummary, None),
        events == held@.events,
        ended <==> held@.terminal is Some,
{
}

/// The cache hits are counted against all of the input, and not at all where there was none.
pub proof fn cache_hits_are_counted_against_the_input(
    usage: Usage,
    counts: Option<(u32, u32)>,
    ordinary: u32,
)
    requires
        call_ensures(Usage::cache_hit_counts, (&usage,), counts),
        call_ensures(Usage::uncached_input_tokens, (&usage,), ordinary),
    ensures
        counts is None <==> usage.input_tokens == 0,
        counts matches Some((hits, all)) ==> hits == usage.input_tokens_details.cached_tokens && all
            == usage.input_tokens,
        usage.input_tokens_details.cached_tokens + usage.input_tokens_details.cache_write_tokens
            <= usage.input_tokens ==> ordinary + usage.input_tokens_details.cached_tokens
            + usage.input_tokens_details.cache_write_tokens == usage.input_tokens,
{
}

} // verus!
