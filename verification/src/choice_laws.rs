//! Every choice a caller makes on a request can be taken back.
//!
//! Each law takes the outcomes of a setter and of its counterpart, and states that the pair
//! leaves nothing behind: what the setter chose is gone, and everything else is as it was.
use vstd::prelude::*;

use crate::metadata::Metadata;
use crate::model::{
    EffortMediumToXhigh, EffortNoneToMax, EffortNoneToXhigh, Gpt5_4, Gpt5_5, Gpt5_5Pro, Gpt5_6,
    Gpt6Sol,
};
use crate::prefix::PrefixSettings;
use crate::request;
use crate::request::{Request, Transport};
use crate::values::{CacheRetention, Include, ReasoningSummary, ServiceTier, Truncation};

verus! {

/// Forbidding parallel tool calls and allowing them again is allowing them.
pub proof fn serial_tool_calls_can_be_taken_back(
    before: PrefixSettings,
    chosen: PrefixSettings,
    after: PrefixSettings,
)
    requires
        call_ensures(PrefixSettings::with_serial_tool_calls, (before,), chosen),
        call_ensures(PrefixSettings::with_parallel_tool_calls, (chosen,), after),
    ensures
        after == (PrefixSettings { parallel_tool_calls: true, ..before }),
{
}

/// Enabling compaction and taking it back leaves none.
pub proof fn compaction_can_be_taken_back(
    before: PrefixSettings,
    threshold: Option<u32>,
    chosen: PrefixSettings,
    after: PrefixSettings,
)
    requires
        call_ensures(PrefixSettings::with_compaction, (before, threshold), chosen),
        call_ensures(PrefixSettings::without_compaction, (chosen,), after),
    ensures
        after == (PrefixSettings { context_management: None, ..before }),
{
}

/// Asking for a reasoning summary and taking it back leaves none asked for.
pub proof fn a_reasoning_summary_can_be_taken_back(
    before: PrefixSettings,
    summary: ReasoningSummary,
    chosen: PrefixSettings,
    after: PrefixSettings,
)
    requires
        call_ensures(PrefixSettings::with_reasoning_summary, (before, summary), chosen),
        call_ensures(PrefixSettings::without_reasoning_summary, (chosen,), after),
    ensures
        after == (PrefixSettings { reasoning_summary: None, ..before }),
{
}

/// Choosing an effort and taking it back leaves none stated.
pub proof fn an_effort_of_gpt5_6_can_be_taken_back(
    before: Gpt5_6,
    effort: EffortNoneToMax,
    chosen: Gpt5_6,
    after: Gpt5_6,
)
    requires
        call_ensures(Gpt5_6::with_effort, (before, effort), chosen),
        call_ensures(Gpt5_6::without_effort, (chosen,), after),
    ensures
        after == (Gpt5_6 { effort: None, ..before }),
{
}

/// Choosing an effort and taking it back leaves none stated.
pub proof fn an_effort_of_gpt6sol_can_be_taken_back(
    before: Gpt6Sol,
    effort: EffortNoneToMax,
    chosen: Gpt6Sol,
    after: Gpt6Sol,
)
    requires
        call_ensures(Gpt6Sol::with_effort, (before, effort), chosen),
        call_ensures(Gpt6Sol::without_effort, (chosen,), after),
    ensures
        after == (Gpt6Sol { effort: None, ..before }),
{
}

/// Choosing an effort and taking it back leaves none stated.
pub proof fn an_effort_of_gpt5_5_can_be_taken_back(
    before: Gpt5_5,
    effort: EffortNoneToXhigh,
    chosen: Gpt5_5,
    after: Gpt5_5,
)
    requires
        call_ensures(Gpt5_5::with_effort, (before, effort), chosen),
        call_ensures(Gpt5_5::without_effort, (chosen,), after),
    ensures
        after == (Gpt5_5 { effort: None, ..before }),
{
}

/// Choosing an effort and taking it back leaves none stated.
pub proof fn an_effort_of_gpt5_5pro_can_be_taken_back(
    before: Gpt5_5Pro,
    effort: EffortMediumToXhigh,
    chosen: Gpt5_5Pro,
    after: Gpt5_5Pro,
)
    requires
        call_ensures(Gpt5_5Pro::with_effort, (before, effort), chosen),
        call_ensures(Gpt5_5Pro::without_effort, (chosen,), after),
    ensures
        after == (Gpt5_5Pro { effort: None, ..before }),
{
}

/// Choosing an effort and taking it back leaves none stated.
pub proof fn an_effort_of_gpt5_4_can_be_taken_back(
    before: Gpt5_4,
    effort: EffortNoneToXhigh,
    chosen: Gpt5_4,
    after: Gpt5_4,
)
    requires
        call_ensures(Gpt5_4::with_effort, (before, effort), chosen),
        call_ensures(Gpt5_4::without_effort, (chosen,), after),
    ensures
        after == (Gpt5_4 { effort: None, ..before }),
{
}

/// Choosing a retention and taking it back leaves none stated.
pub proof fn a_retention_can_be_taken_back(
    before: Gpt5_4,
    retention: CacheRetention,
    chosen: Gpt5_4,
    after: Gpt5_4,
)
    requires
        call_ensures(Gpt5_4::with_retention, (before, retention), chosen),
        call_ensures(Gpt5_4::without_retention, (chosen,), after),
    ensures
        after == (Gpt5_4 { retention: None, ..before }),
{
}

/// A stream asked for and taken back is a buffered request.
pub proof fn streaming_can_be_taken_back(
    before: Request,
    chosen: Request,
    after: Request,
)
    requires
        call_ensures(Request::streaming, (before,), chosen),
        call_ensures(Request::without_streaming, (chosen,), after),
    ensures
        after == (Request { transport: Transport::Buffered, ..before }),
{
}

/// A stream with a stated obfuscation taken back is a buffered request.
pub proof fn an_obfuscation_choice_can_be_taken_back(
    before: Request,
    padded: bool,
    chosen: Request,
    after: Request,
)
    requires
        call_ensures(Request::streaming_with_obfuscation, (before, padded), chosen),
        call_ensures(Request::without_streaming, (chosen,), after),
    ensures
        after == (Request { transport: Transport::Buffered, ..before }),
{
}

/// Refusing storage and allowing it again is allowing it.
pub proof fn refusing_storage_can_be_taken_back(
    before: Request,
    chosen: Request,
    after: Request,
)
    requires
        call_ensures(Request::without_storage, (before,), chosen),
        call_ensures(Request::with_storage, (chosen,), after),
    ensures
        after == (Request { store: true, ..before }),
{
}

/// Choosing a service tier and taking it back leaves the choice to the project.
pub proof fn a_service_tier_can_be_taken_back(
    before: Request,
    tier: ServiceTier,
    chosen: Request,
    after: Request,
)
    requires
        call_ensures(Request::with_service_tier, (before, tier), chosen),
        call_ensures(Request::without_service_tier, (chosen,), after),
    ensures
        after == (Request { service_tier: None, ..before }),
{
}

/// Attaching metadata and taking it back leaves none.
pub proof fn metadata_can_be_taken_back(
    before: Request,
    metadata: Metadata,
    chosen: Request,
    after: Request,
)
    requires
        call_ensures(Request::with_metadata, (before, metadata), chosen),
        call_ensures(Request::without_metadata, (chosen,), after),
    ensures
        after == (Request { metadata: None, ..before }),
{
}

/// Attributing a request and taking it back leaves it unattributed.
pub proof fn a_safety_identifier_can_be_taken_back(
    before: Request,
    identifier: &str,
    chosen: Request,
    after: Request,
)
    requires
        call_ensures(Request::with_safety_identifier, (before, identifier), chosen),
        call_ensures(Request::without_safety_identifier, (chosen,), after),
    ensures
        after == (Request { safety_identifier: None, ..before }),
{
}

/// Choosing a truncation and taking it back leaves the default.
pub proof fn a_truncation_can_be_taken_back(
    before: Request,
    truncation: Truncation,
    chosen: Request,
    after: Request,
)
    requires
        call_ensures(Request::with_truncation, (before, truncation), chosen),
        call_ensures(Request::without_truncation, (chosen,), after),
    ensures
        after == (Request { truncation: None, ..before }),
{
}

/// Capping tool calls and lifting the cap leaves none.
pub proof fn a_tool_call_cap_can_be_taken_back(
    before: Request,
    cap: u32,
    chosen: Request,
    after: Request,
)
    requires
        call_ensures(Request::with_max_tool_calls, (before, cap), chosen),
        call_ensures(Request::without_max_tool_calls, (chosen,), after),
    ensures
        after == (Request { max_tool_calls: None, ..before }),
{
}

/// Sending a request to the background and back is leaving it in front.
pub proof fn background_can_be_taken_back(
    before: Request,
    chosen: Request,
    after: Request,
)
    requires
        call_ensures(Request::in_background, (before,), chosen),
        call_ensures(Request::in_foreground, (chosen,), after),
    ensures
        after == (Request { background: false, ..before }),
{
}

/// Asking for an extra piece of output and taking it back leaves the list without it, and as
/// it was where it had not been asked for.
pub proof fn an_extra_output_can_be_taken_back(
    before: Request,
    entry: Include,
    chosen: Request,
    after: Request,
)
    requires
        call_ensures(Request::including, (before, entry), chosen),
        call_ensures(Request::excluding, (chosen, entry), after),
    ensures
        after == (Request { includes: after.includes, ..before }),
        after.includes@ == request::without(before.includes@, entry),
        !before.includes@.contains(entry) ==> after.includes@ == before.includes@,
{
    request::excluding_takes_every_copy(before.includes@, entry);
    if !before.includes@.contains(entry) {
        request::excluding_undoes_including(before.includes@, entry);
    }
}

} // verus!
