//! Every choice a caller makes on a request is seen in its body, in its own field and in no
//! other.
//!
//! Each law takes the outcome of a setter, and states what the body says under the field the
//! choice is sent in, and that every other field says what it said before.
use vstd::prelude::*;

use crate::body_laws;
use crate::json::{JsonView, NumberView};
use crate::metadata::Metadata;
use crate::model::Model;
use crate::prefix::{PrefixSettings, TextFormat};
use crate::request::{Request, RequestError, RequestErrorView, Transport, UncacheableInstructions};
use crate::tools::ToolChoice;
use crate::values::{Include, ReasoningSummary, ServiceTier, Truncation, Verbosity};

verus! {

/// A tool choice stands under `tool_choice` in the body, and changes no other field.
pub proof fn a_tool_choice_is_sent(
    before: Request,
    choice: ToolChoice,
    after: Request,
)
    requires
        call_ensures(Request::with_tool_choice, (before, choice), after),
    ensures
        after.body().field("tool_choice"@) == Some(choice@.wire()),
        forall|i: int|
            0 <= i < before.table().len() && i != 7 ==> #[trigger] after.table()[i]
                == before.table()[i],
{
    body_laws::a_body_holds_its_table(after, 7);
}

/// A cache key stands under `prompt_cache_key` in the body, and changes no other field.
pub proof fn a_cache_key_is_sent(
    before: Request,
    key: &str,
    after: Request,
)
    requires
        call_ensures(Request::with_prompt_cache_key, (before, key), after),
    ensures
        after.body().field("prompt_cache_key"@) == Some(JsonView::Text(key@)),
        forall|i: int|
            0 <= i < before.table().len() && i != 10 ==> #[trigger] after.table()[i]
                == before.table()[i],
{
    body_laws::a_body_holds_its_table(after, 10);
}

/// A cap on generated tokens stands under `max_output_tokens` in the body, and changes no other field.
pub proof fn a_token_cap_is_sent(
    before: Request,
    cap: u32,
    after: Request,
)
    requires
        call_ensures(Request::with_max_output_tokens, (before, cap), Ok::<Request, RequestError>(after)),
    ensures
        after.body().field("max_output_tokens"@) == Some(JsonView::Number(NumberView::PosInt(cap as u64))),
        forall|i: int|
            0 <= i < before.table().len() && i != 12 ==> #[trigger] after.table()[i]
                == before.table()[i],
{
    body_laws::a_body_holds_its_table(after, 12);
}

/// Per-request instructions stands under `instructions` in the body, and changes no other field.
pub proof fn instructions_are_sent(
    before: Request,
    instructions: UncacheableInstructions,
    after: Request,
)
    requires
        call_ensures(Request::with_instructions, (before, instructions), after),
    ensures
        after.body().field("instructions"@) == Some(JsonView::Text(instructions.0@)),
        forall|i: int|
            0 <= i < before.table().len() && i != 2 ==> #[trigger] after.table()[i]
                == before.table()[i],
{
    body_laws::a_body_holds_its_table(after, 2);
}

/// A service tier stands under `service_tier` in the body, and changes no other field.
pub proof fn a_service_tier_is_sent(
    before: Request,
    tier: ServiceTier,
    after: Request,
)
    requires
        call_ensures(Request::with_service_tier, (before, tier), after),
    ensures
        after.body().field("service_tier"@) == Some(JsonView::Text(tier.wire())),
        forall|i: int|
            0 <= i < before.table().len() && i != 14 ==> #[trigger] after.table()[i]
                == before.table()[i],
{
    body_laws::a_body_holds_its_table(after, 14);
}

/// A safety identifier stands under `safety_identifier` in the body, and changes no other field.
pub proof fn a_safety_identifier_is_sent(
    before: Request,
    identifier: &str,
    after: Request,
)
    requires
        call_ensures(Request::with_safety_identifier, (before, identifier), after),
    ensures
        after.body().field("safety_identifier"@) == Some(JsonView::Text(identifier@)),
        forall|i: int|
            0 <= i < before.table().len() && i != 16 ==> #[trigger] after.table()[i]
                == before.table()[i],
{
    body_laws::a_body_holds_its_table(after, 16);
}

/// A truncation stands under `truncation` in the body, and changes no other field.
pub proof fn a_truncation_is_sent(
    before: Request,
    truncation: Truncation,
    after: Request,
)
    requires
        call_ensures(Request::with_truncation, (before, truncation), after),
    ensures
        after.body().field("truncation"@) == Some(JsonView::Text(truncation.wire())),
        forall|i: int|
            0 <= i < before.table().len() && i != 17 ==> #[trigger] after.table()[i]
                == before.table()[i],
{
    body_laws::a_body_holds_its_table(after, 17);
}

/// A cap on tool calls stands under `max_tool_calls` in the body, and changes no other field.
pub proof fn a_tool_call_cap_is_sent(
    before: Request,
    cap: u32,
    after: Request,
)
    requires
        call_ensures(Request::with_max_tool_calls, (before, cap), after),
    ensures
        after.body().field("max_tool_calls"@) == Some(JsonView::Number(NumberView::PosInt(cap as u64))),
        forall|i: int|
            0 <= i < before.table().len() && i != 18 ==> #[trigger] after.table()[i]
                == before.table()[i],
{
    body_laws::a_body_holds_its_table(after, 18);
}

/// A refusal to store stands under `store` in the body, and changes no other field.
pub proof fn a_refused_storage_is_sent(
    before: Request,
    after: Request,
)
    requires
        call_ensures(Request::without_storage, (before,), after),
    ensures
        after.body().field("store"@) == Some(JsonView::Bool(false)),
        forall|i: int|
            0 <= i < before.table().len() && i != 21 ==> #[trigger] after.table()[i]
                == before.table()[i],
{
    body_laws::a_body_holds_its_table(after, 21);
}

/// Leave to store stands under `store` in the body, and changes no other field.
pub proof fn an_allowed_storage_is_sent(
    before: Request,
    after: Request,
)
    requires
        call_ensures(Request::with_storage, (before,), after),
    ensures
        after.body().field("store"@) == Some(JsonView::Bool(true)),
        forall|i: int|
            0 <= i < before.table().len() && i != 21 ==> #[trigger] after.table()[i]
                == before.table()[i],
{
    body_laws::a_body_holds_its_table(after, 21);
}

/// A background run stands under `background` in the body, and changes no other field.
pub proof fn a_background_run_is_sent(
    before: Request,
    after: Request,
)
    requires
        call_ensures(Request::in_background, (before,), after),
    ensures
        after.body().field("background"@) == Some(JsonView::Bool(true)),
        forall|i: int|
            0 <= i < before.table().len() && i != 22 ==> #[trigger] after.table()[i]
                == before.table()[i],
{
    body_laws::a_body_holds_its_table(after, 22);
}

/// A foreground run stands under `background` in the body, and changes no other field.
pub proof fn a_foreground_run_is_sent(
    before: Request,
    after: Request,
)
    requires
        call_ensures(Request::in_foreground, (before,), after),
    ensures
        after.body().field("background"@) == Some(JsonView::Bool(false)),
        forall|i: int|
            0 <= i < before.table().len() && i != 22 ==> #[trigger] after.table()[i]
                == before.table()[i],
{
    body_laws::a_body_holds_its_table(after, 22);
}

/// A cap on generated tokens is refused exactly where the model does not take it: at zero, and
/// over its maximum.
pub proof fn a_token_cap_is_within_the_model(
    before: Request,
    cap: u32,
    outcome: Result<Request, RequestError>,
)
    requires
        call_ensures(Request::with_max_output_tokens, (before, cap), outcome),
    ensures
        outcome is Ok <==> cap != 0 && cap <= 128_000,
        outcome matches Err(error) ==> error@ == (RequestErrorView::MaxOutputTokensOutOfRange {
            max_output_tokens: cap,
            model_maximum: 128_000,
        }),
{
}

/// A streamed request says so, with its choice of padding where it makes one; a buffered one
/// says neither.
pub proof fn a_transport_is_sent(
    before: Request,
    padded: bool,
    streamed: Request,
    chosen: Request,
    buffered: Request,
)
    requires
        call_ensures(Request::streaming, (before,), streamed),
        call_ensures(Request::streaming_with_obfuscation, (before, padded), chosen),
        call_ensures(Request::without_streaming, (before,), buffered),
    ensures
        streamed.body().field("stream"@) == Some(JsonView::Bool(true)),
        streamed.body().field("stream_options"@) is None,
        chosen.body().field("stream"@) == Some(JsonView::Bool(true)),
        chosen.body().field("stream_options"@) matches Some(options) && options.field(
            "include_obfuscation"@,
        ) == Some(JsonView::Bool(padded)),
        buffered.body().field("stream"@) == Some(JsonView::Bool(false)),
        buffered.body().field("stream_options"@) is None,
        forall|i: int|
            0 <= i < before.table().len() && i != 19 && i != 20 ==> #[trigger] streamed.table()[i]
                == before.table()[i] && chosen.table()[i] == before.table()[i]
                && buffered.table()[i] == before.table()[i],
{
    body_laws::each_choice_stands_under_its_name(streamed);
    body_laws::each_choice_stands_under_its_name(chosen);
    body_laws::each_choice_stands_under_its_name(buffered);
}

/// Extra output that is asked for is asked for in the order it was, each once, and changes no
/// other field.
pub proof fn an_extra_output_is_sent(before: Request, entry: Include, after: Request)
    requires
        call_ensures(Request::including, (before, entry), after),
    ensures
        after.body().items_at("include"@) is Some,
        after.includes@.contains(entry),
        before.includes@.is_prefix_of(after.includes@),
        after.includes@.len() <= before.includes@.len() + 1,
        before.includes@.contains(entry) ==> after.includes@ == before.includes@,
        forall|i: int|
            0 <= i < after.includes@.len() ==> (#[trigger] after.body().items_at(
                "include"@,
            )->0[i]).text() == Some(after.includes@[i].wire()),
        forall|i: int|
            0 <= i < before.table().len() && i != 13 ==> #[trigger] after.table()[i]
                == before.table()[i],
{
    if !before.includes@.contains(entry) {
        assert(after.includes@.last() == entry);
    }
    body_laws::each_choice_stands_under_its_name(after);
}

/// Asking for replayable reasoning is asking for the reasoning's encrypted content.
pub proof fn replayable_reasoning_is_encrypted_content(before: Request, after: Request)
    requires
        call_ensures(Request::with_replayable_reasoning, (before,), after),
    ensures
        after.includes@.contains(Include::ReasoningEncryptedContent),
        forall|entry: Include| #[trigger]
            after.includes@.contains(entry) && entry != Include::ReasoningEncryptedContent
                ==> before.includes@.contains(entry),
        before.includes@.is_prefix_of(after.includes@),
{
    if !before.includes@.contains(Include::ReasoningEncryptedContent) {
        assert(after.includes@.last() == Include::ReasoningEncryptedContent);
        assert forall|entry: Include| #[trigger]
            after.includes@.contains(entry) && entry
                != Include::ReasoningEncryptedContent implies before.includes@.contains(entry) by {
            let i = choose|i: int| 0 <= i < after.includes@.len() && after.includes@[i] == entry;
            assert(before.includes@[i] == entry);
        }
    }
}

/// Metadata that is attached is sent pair by pair, and none is sent where it is empty.
pub proof fn attached_metadata_is_sent(before: Request, metadata: Metadata, after: Request)
    requires
        call_ensures(Request::with_metadata, (before, metadata), after),
    ensures
        metadata@.len() == 0 ==> after.body().field("metadata"@) is None,
        metadata@.len() > 0 ==> {
            &&& after.body().field("metadata"@) matches Some(JsonView::Object(fields))
            &&& fields.len() == metadata@.len()
            &&& forall|i: int|
                0 <= i < fields.len() ==> (#[trigger] fields[i]).0 == metadata@[i].0 && fields[i].1
                    == JsonView::Text(metadata@[i].1)
        },
        forall|i: int|
            0 <= i < before.table().len() && i != 15 ==> #[trigger] after.table()[i]
                == before.table()[i],
{
    body_laws::each_choice_stands_under_its_name(after);
}

/// A prefix setter changes its own setting and no other.
pub proof fn a_prefix_setter_changes_its_own_setting(
    before: PrefixSettings,
    format: TextFormat,
    verbosity: Verbosity,
    threshold: Option<u32>,
    summary: ReasoningSummary,
    formatted: PrefixSettings,
    sized: PrefixSettings,
    serial: PrefixSettings,
    compacted: PrefixSettings,
    summed: PrefixSettings,
)
    requires
        call_ensures(PrefixSettings::with_text_format, (before, format), formatted),
        call_ensures(PrefixSettings::with_verbosity, (before, verbosity), sized),
        call_ensures(PrefixSettings::with_serial_tool_calls, (before,), serial),
        call_ensures(PrefixSettings::with_compaction, (before, threshold), compacted),
        call_ensures(PrefixSettings::with_reasoning_summary, (before, summary), summed),
    ensures
        formatted.text_format == format,
        formatted == (PrefixSettings { text_format: formatted.text_format, ..before }),
        sized.verbosity == verbosity,
        sized == (PrefixSettings { verbosity: sized.verbosity, ..before }),
        !serial.parallel_tool_calls,
        serial == (PrefixSettings { parallel_tool_calls: serial.parallel_tool_calls, ..before }),
        compacted.context_management matches Some(compaction) && compaction.compact_threshold
            == threshold,
        compacted == (PrefixSettings {
            context_management: compacted.context_management,
            ..before
        }),
        summed.reasoning_summary == Some(summary),
        summed == (PrefixSettings { reasoning_summary: summed.reasoning_summary, ..before }),
{
}

/// A new request over a context sends the documented defaults and no choice the caller did not
/// make.
pub proof fn a_new_request_makes_no_choice(request: Request)
    requires
        request.fresh(request.context, request.prefix),
    ensures
        request.body().text_at("tool_choice"@) == Some("auto"@),
        request.body().field("stream"@) == Some(JsonView::Bool(false)),
        request.body().field("store"@) == Some(JsonView::Bool(true)),
        request.body().field("background"@) == Some(JsonView::Bool(false)),
        request.body().field("instructions"@) is None,
        request.body().field("prompt_cache_key"@) is None,
        request.body().field("max_output_tokens"@) is None,
        request.body().field("include"@) is None,
        request.body().field("service_tier"@) is None,
        request.body().field("metadata"@) is None,
        request.body().field("safety_identifier"@) is None,
        request.body().field("truncation"@) is None,
        request.body().field("max_tool_calls"@) is None,
        request.body().field("stream_options"@) is None,
{
    body_laws::each_choice_stands_under_its_name(request);
    body_laws::an_empty_list_is_never_sent(request);
}

} // verus!
