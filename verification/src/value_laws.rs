//! The strings the API documents for each value.
use vstd::prelude::*;

use crate::values::{
    AssistantPhase, CacheMode, CacheRetention, CacheTtl, ErrorType, FileDetail, HostedTool, ImageDetail, Include, IncompleteReason, InputRole, ReasoningContext, ReasoningEffort, ReasoningMode, ReasoningSummary, ResponseStatus, ServiceTier, Truncation, Verbosity,
};
use crate::model::{
    EffortMediumToXhigh, EffortNoneToMax, EffortNoneToXhigh, ExtendedRetentionOnly, ModelId,
};
use crate::tools::{
    AllowedToolsMode,
};
use crate::stream::{
    PartBoundary, ProgressStage, TextStream,
};

verus! {

/// A string is sent for a [`InputRole`] exactly where it is the one documented for it.
pub proof fn the_strings_of_input_role(s: Seq<char>)
    ensures
        s == InputRole::Developer.wire() <==> s == "developer"@,
        s == InputRole::User.wire() <==> s == "user"@,
{
}

/// A string is sent for a [`AssistantPhase`] exactly where it is the one documented for it.
pub proof fn the_strings_of_assistant_phase(s: Seq<char>)
    ensures
        s == AssistantPhase::Commentary.wire() <==> s == "commentary"@,
        s == AssistantPhase::FinalAnswer.wire() <==> s == "final_answer"@,
        AssistantPhase::named(s) == Some(AssistantPhase::Commentary) <==> s == "commentary"@,
        AssistantPhase::named(s) == Some(AssistantPhase::FinalAnswer) <==> s == "final_answer"@,
{
    reveal_strlit("commentary");
    reveal_strlit("final_answer");
    assert("commentary"@.len() == 10);
    assert("final_answer"@.len() == 12);
    assert(AssistantPhase::Commentary.wire() == "commentary"@);
    assert(AssistantPhase::FinalAnswer.wire() == "final_answer"@);
    if let Some(v) = AssistantPhase::named(s) {
        assert(v.wire() == s);
    }
}

/// A string is sent for a [`ImageDetail`] exactly where it is the one documented for it.
pub proof fn the_strings_of_image_detail(s: Seq<char>)
    ensures
        s == ImageDetail::Auto.wire() <==> s == "auto"@,
        s == ImageDetail::Low.wire() <==> s == "low"@,
        s == ImageDetail::High.wire() <==> s == "high"@,
        s == ImageDetail::Original.wire() <==> s == "original"@,
{
}

/// A string is sent for a [`FileDetail`] exactly where it is the one documented for it.
pub proof fn the_strings_of_file_detail(s: Seq<char>)
    ensures
        s == FileDetail::Auto.wire() <==> s == "auto"@,
        s == FileDetail::High.wire() <==> s == "high"@,
{
}

/// A string is sent for a [`Verbosity`] exactly where it is the one documented for it.
pub proof fn the_strings_of_verbosity(s: Seq<char>)
    ensures
        s == Verbosity::Low.wire() <==> s == "low"@,
        s == Verbosity::Medium.wire() <==> s == "medium"@,
        s == Verbosity::High.wire() <==> s == "high"@,
{
}

/// A string is sent for a [`ReasoningContext`] exactly where it is the one documented for it.
pub proof fn the_strings_of_reasoning_context(s: Seq<char>)
    ensures
        s == ReasoningContext::Auto.wire() <==> s == "auto"@,
        s == ReasoningContext::CurrentTurn.wire() <==> s == "current_turn"@,
        s == ReasoningContext::AllTurns.wire() <==> s == "all_turns"@,
{
}

/// A string is sent for a [`ReasoningEffort`] exactly where it is the one documented for it.
pub proof fn the_strings_of_reasoning_effort(s: Seq<char>)
    ensures
        s == ReasoningEffort::NoReasoning.wire() <==> s == "none"@,
        s == ReasoningEffort::Low.wire() <==> s == "low"@,
        s == ReasoningEffort::Medium.wire() <==> s == "medium"@,
        s == ReasoningEffort::High.wire() <==> s == "high"@,
        s == ReasoningEffort::Xhigh.wire() <==> s == "xhigh"@,
        s == ReasoningEffort::Max.wire() <==> s == "max"@,
{
}

/// A string is sent for a [`ReasoningMode`] exactly where it is the one documented for it.
pub proof fn the_strings_of_reasoning_mode(s: Seq<char>)
    ensures
        s == ReasoningMode::Standard.wire() <==> s == "standard"@,
        s == ReasoningMode::Pro.wire() <==> s == "pro"@,
{
}

/// A string is sent for a [`ReasoningSummary`] exactly where it is the one documented for it.
pub proof fn the_strings_of_reasoning_summary(s: Seq<char>)
    ensures
        s == ReasoningSummary::Auto.wire() <==> s == "auto"@,
        s == ReasoningSummary::Concise.wire() <==> s == "concise"@,
        s == ReasoningSummary::Detailed.wire() <==> s == "detailed"@,
{
}

/// A string is sent for a [`CacheMode`] exactly where it is the one documented for it.
pub proof fn the_strings_of_cache_mode(s: Seq<char>)
    ensures
        s == CacheMode::Implicit.wire() <==> s == "implicit"@,
        s == CacheMode::Explicit.wire() <==> s == "explicit"@,
{
}

/// A string is sent for a [`CacheTtl`] exactly where it is the one documented for it.
pub proof fn the_strings_of_cache_ttl(s: Seq<char>)
    ensures
        s == CacheTtl::ThirtyMinutes.wire() <==> s == "30m"@,
{
}

/// A string is sent for a [`CacheRetention`] exactly where it is the one documented for it.
pub proof fn the_strings_of_cache_retention(s: Seq<char>)
    ensures
        s == CacheRetention::InMemory.wire() <==> s == "in_memory"@,
        s == CacheRetention::TwentyFourHours.wire() <==> s == "24h"@,
{
}

/// A string is sent for a [`Include`] exactly where it is the one documented for it.
pub proof fn the_strings_of_include(s: Seq<char>)
    ensures
        s == Include::ReasoningEncryptedContent.wire() <==> s == "reasoning.encrypted_content"@,
        s == Include::FileSearchCallResults.wire() <==> s == "file_search_call.results"@,
        s == Include::WebSearchCallResults.wire() <==> s == "web_search_call.results"@,
        s == Include::WebSearchCallActionSources.wire() <==> s == "web_search_call.action.sources"@,
        s == Include::MessageInputImageUrl.wire() <==> s == "message.input_image.image_url"@,
        s == Include::ComputerCallOutputImageUrl.wire() <==> s == "computer_call_output.output.image_url"@,
        s == Include::CodeInterpreterCallOutputs.wire() <==> s == "code_interpreter_call.outputs"@,
        s == Include::MessageOutputTextLogprobs.wire() <==> s == "message.output_text.logprobs"@,
{
}

/// A string is sent for a [`ServiceTier`] exactly where it is the one documented for it.
pub proof fn the_strings_of_service_tier(s: Seq<char>)
    ensures
        s == ServiceTier::Auto.wire() <==> s == "auto"@,
        s == ServiceTier::Default.wire() <==> s == "default"@,
        s == ServiceTier::Flex.wire() <==> s == "flex"@,
        s == ServiceTier::Scale.wire() <==> s == "scale"@,
        s == ServiceTier::Priority.wire() <==> s == "priority"@,
        s == ServiceTier::Fast.wire() <==> s == "fast"@,
        s == ServiceTier::Ultrafast.wire() <==> s == "ultrafast"@,
        ServiceTier::named(s) == Some(ServiceTier::Auto) <==> s == "auto"@,
        ServiceTier::named(s) == Some(ServiceTier::Default) <==> s == "default"@,
        ServiceTier::named(s) == Some(ServiceTier::Flex) <==> s == "flex"@,
        ServiceTier::named(s) == Some(ServiceTier::Scale) <==> s == "scale"@,
        ServiceTier::named(s) == Some(ServiceTier::Priority) <==> s == "priority"@,
        ServiceTier::named(s) == Some(ServiceTier::Fast) <==> s == "fast"@,
        ServiceTier::named(s) == Some(ServiceTier::Ultrafast) <==> s == "ultrafast"@,
{
    reveal_strlit("auto");
    reveal_strlit("default");
    reveal_strlit("flex");
    reveal_strlit("scale");
    reveal_strlit("priority");
    reveal_strlit("fast");
    reveal_strlit("ultrafast");
    assert("auto"@.len() == 4);
    assert("default"@.len() == 7);
    assert("flex"@.len() == 4);
    assert("scale"@.len() == 5);
    assert("priority"@.len() == 8);
    assert("fast"@.len() == 4);
    assert("ultrafast"@.len() == 9);
    assert("auto"@[0] == 'a');
    assert("flex"@[0] == 'f');
    assert("fast"@[0] == 'f');
    assert("flex"@[1] == 'l');
    assert("fast"@[1] == 'a');
    assert(ServiceTier::Auto.wire() == "auto"@);
    assert(ServiceTier::Default.wire() == "default"@);
    assert(ServiceTier::Flex.wire() == "flex"@);
    assert(ServiceTier::Scale.wire() == "scale"@);
    assert(ServiceTier::Priority.wire() == "priority"@);
    assert(ServiceTier::Fast.wire() == "fast"@);
    assert(ServiceTier::Ultrafast.wire() == "ultrafast"@);
    if let Some(v) = ServiceTier::named(s) {
        assert(v.wire() == s);
    }
}

/// A string is sent for a [`Truncation`] exactly where it is the one documented for it.
pub proof fn the_strings_of_truncation(s: Seq<char>)
    ensures
        s == Truncation::Auto.wire() <==> s == "auto"@,
        s == Truncation::Disabled.wire() <==> s == "disabled"@,
{
}

/// A string is sent for a [`ResponseStatus`] exactly where it is the one documented for it.
pub proof fn the_strings_of_response_status(s: Seq<char>)
    ensures
        s == ResponseStatus::Completed.wire() <==> s == "completed"@,
        s == ResponseStatus::Failed.wire() <==> s == "failed"@,
        s == ResponseStatus::InProgress.wire() <==> s == "in_progress"@,
        s == ResponseStatus::Cancelled.wire() <==> s == "cancelled"@,
        s == ResponseStatus::Queued.wire() <==> s == "queued"@,
        s == ResponseStatus::Incomplete.wire() <==> s == "incomplete"@,
        ResponseStatus::named(s) == Some(ResponseStatus::Completed) <==> s == "completed"@,
        ResponseStatus::named(s) == Some(ResponseStatus::Failed) <==> s == "failed"@,
        ResponseStatus::named(s) == Some(ResponseStatus::InProgress) <==> s == "in_progress"@,
        ResponseStatus::named(s) == Some(ResponseStatus::Cancelled) <==> s == "cancelled"@,
        ResponseStatus::named(s) == Some(ResponseStatus::Queued) <==> s == "queued"@,
        ResponseStatus::named(s) == Some(ResponseStatus::Incomplete) <==> s == "incomplete"@,
{
    reveal_strlit("completed");
    reveal_strlit("failed");
    reveal_strlit("in_progress");
    reveal_strlit("cancelled");
    reveal_strlit("queued");
    reveal_strlit("incomplete");
    assert("completed"@.len() == 9);
    assert("failed"@.len() == 6);
    assert("in_progress"@.len() == 11);
    assert("cancelled"@.len() == 9);
    assert("queued"@.len() == 6);
    assert("incomplete"@.len() == 10);
    assert("completed"@[1] == 'o');
    assert("cancelled"@[1] == 'a');
    assert("failed"@[0] == 'f');
    assert("queued"@[0] == 'q');
    assert(ResponseStatus::Completed.wire() == "completed"@);
    assert(ResponseStatus::Failed.wire() == "failed"@);
    assert(ResponseStatus::InProgress.wire() == "in_progress"@);
    assert(ResponseStatus::Cancelled.wire() == "cancelled"@);
    assert(ResponseStatus::Queued.wire() == "queued"@);
    assert(ResponseStatus::Incomplete.wire() == "incomplete"@);
    if let Some(v) = ResponseStatus::named(s) {
        assert(v.wire() == s);
    }
}

/// A string is sent for a [`HostedTool`] exactly where it is the one documented for it.
pub proof fn the_strings_of_hosted_tool(s: Seq<char>)
    ensures
        s == HostedTool::FileSearch.wire() <==> s == "file_search"@,
        s == HostedTool::WebSearch.wire() <==> s == "web_search"@,
        s == HostedTool::CodeInterpreter.wire() <==> s == "code_interpreter"@,
        s == HostedTool::ImageGeneration.wire() <==> s == "image_generation"@,
        s == HostedTool::Mcp.wire() <==> s == "mcp"@,
        s == HostedTool::McpListTools.wire() <==> s == "mcp_list_tools"@,
        s == HostedTool::Shell.wire() <==> s == "shell"@,
        s == HostedTool::LocalShell.wire() <==> s == "local_shell"@,
        s == HostedTool::Computer.wire() <==> s == "computer"@,
        s == HostedTool::ApplyPatch.wire() <==> s == "apply_patch"@,
        s == HostedTool::Custom.wire() <==> s == "custom"@,
        s == HostedTool::ToolSearch.wire() <==> s == "tool_search"@,
        HostedTool::named(s) == Some(HostedTool::FileSearch) <==> s == "file_search"@,
        HostedTool::named(s) == Some(HostedTool::WebSearch) <==> s == "web_search"@,
        HostedTool::named(s) == Some(HostedTool::CodeInterpreter) <==> s == "code_interpreter"@,
        HostedTool::named(s) == Some(HostedTool::ImageGeneration) <==> s == "image_generation"@,
        HostedTool::named(s) == Some(HostedTool::Mcp) <==> s == "mcp"@,
        HostedTool::named(s) == Some(HostedTool::McpListTools) <==> s == "mcp_list_tools"@,
        HostedTool::named(s) == Some(HostedTool::Shell) <==> s == "shell"@,
        HostedTool::named(s) == Some(HostedTool::LocalShell) <==> s == "local_shell"@,
        HostedTool::named(s) == Some(HostedTool::Computer) <==> s == "computer"@,
        HostedTool::named(s) == Some(HostedTool::ApplyPatch) <==> s == "apply_patch"@,
        HostedTool::named(s) == Some(HostedTool::Custom) <==> s == "custom"@,
        HostedTool::named(s) == Some(HostedTool::ToolSearch) <==> s == "tool_search"@,
{
    reveal_strlit("file_search");
    reveal_strlit("web_search");
    reveal_strlit("code_interpreter");
    reveal_strlit("image_generation");
    reveal_strlit("mcp");
    reveal_strlit("mcp_list_tools");
    reveal_strlit("shell");
    reveal_strlit("local_shell");
    reveal_strlit("computer");
    reveal_strlit("apply_patch");
    reveal_strlit("custom");
    reveal_strlit("tool_search");
    assert("file_search"@.len() == 11);
    assert("web_search"@.len() == 10);
    assert("code_interpreter"@.len() == 16);
    assert("image_generation"@.len() == 16);
    assert("mcp"@.len() == 3);
    assert("mcp_list_tools"@.len() == 14);
    assert("shell"@.len() == 5);
    assert("local_shell"@.len() == 11);
    assert("computer"@.len() == 8);
    assert("apply_patch"@.len() == 11);
    assert("custom"@.len() == 6);
    assert("tool_search"@.len() == 11);
    assert("file_search"@[0] == 'f');
    assert("local_shell"@[0] == 'l');
    assert("apply_patch"@[0] == 'a');
    assert("tool_search"@[0] == 't');
    assert("code_interpreter"@[0] == 'c');
    assert("image_generation"@[0] == 'i');
    assert(HostedTool::FileSearch.wire() == "file_search"@);
    assert(HostedTool::WebSearch.wire() == "web_search"@);
    assert(HostedTool::CodeInterpreter.wire() == "code_interpreter"@);
    assert(HostedTool::ImageGeneration.wire() == "image_generation"@);
    assert(HostedTool::Mcp.wire() == "mcp"@);
    assert(HostedTool::McpListTools.wire() == "mcp_list_tools"@);
    assert(HostedTool::Shell.wire() == "shell"@);
    assert(HostedTool::LocalShell.wire() == "local_shell"@);
    assert(HostedTool::Computer.wire() == "computer"@);
    assert(HostedTool::ApplyPatch.wire() == "apply_patch"@);
    assert(HostedTool::Custom.wire() == "custom"@);
    assert(HostedTool::ToolSearch.wire() == "tool_search"@);
    if let Some(v) = HostedTool::named(s) {
        assert(v.wire() == s);
    }
}

/// A string is sent for a [`IncompleteReason`] exactly where it is the one documented for it.
pub proof fn the_strings_of_incomplete_reason(s: Seq<char>)
    ensures
        s == IncompleteReason::MaxOutputTokens.wire() <==> s == "max_output_tokens"@,
        s == IncompleteReason::ContentFilter.wire() <==> s == "content_filter"@,
        IncompleteReason::named(s) == Some(IncompleteReason::MaxOutputTokens) <==> s == "max_output_tokens"@,
        IncompleteReason::named(s) == Some(IncompleteReason::ContentFilter) <==> s == "content_filter"@,
{
    reveal_strlit("max_output_tokens");
    reveal_strlit("content_filter");
    assert("max_output_tokens"@.len() == 17);
    assert("content_filter"@.len() == 14);
    assert(IncompleteReason::MaxOutputTokens.wire() == "max_output_tokens"@);
    assert(IncompleteReason::ContentFilter.wire() == "content_filter"@);
    if let Some(v) = IncompleteReason::named(s) {
        assert(v.wire() == s);
    }
}

/// A string is sent for a [`ErrorType`] exactly where it is the one documented for it.
pub proof fn the_strings_of_error_type(s: Seq<char>)
    ensures
        s == ErrorType::InvalidRequest.wire() <==> s == "invalid_request_error"@,
        s == ErrorType::Authentication.wire() <==> s == "authentication_error"@,
        s == ErrorType::Permission.wire() <==> s == "permission_error"@,
        s == ErrorType::NotFound.wire() <==> s == "not_found_error"@,
        s == ErrorType::RateLimit.wire() <==> s == "rate_limit_error"@,
        s == ErrorType::ServerError.wire() <==> s == "server_error"@,
        ErrorType::named(s) == Some(ErrorType::InvalidRequest) <==> s == "invalid_request_error"@,
        ErrorType::named(s) == Some(ErrorType::Authentication) <==> s == "authentication_error"@,
        ErrorType::named(s) == Some(ErrorType::Permission) <==> s == "permission_error"@,
        ErrorType::named(s) == Some(ErrorType::NotFound) <==> s == "not_found_error"@,
        ErrorType::named(s) == Some(ErrorType::RateLimit) <==> s == "rate_limit_error"@,
        ErrorType::named(s) == Some(ErrorType::ServerError) <==> s == "server_error"@,
{
    reveal_strlit("invalid_request_error");
    reveal_strlit("authentication_error");
    reveal_strlit("permission_error");
    reveal_strlit("not_found_error");
    reveal_strlit("rate_limit_error");
    reveal_strlit("server_error");
    assert("invalid_request_error"@.len() == 21);
    assert("authentication_error"@.len() == 20);
    assert("permission_error"@.len() == 16);
    assert("not_found_error"@.len() == 15);
    assert("rate_limit_error"@.len() == 16);
    assert("server_error"@.len() == 12);
    assert("permission_error"@[0] == 'p');
    assert("rate_limit_error"@[0] == 'r');
    assert(ErrorType::InvalidRequest.wire() == "invalid_request_error"@);
    assert(ErrorType::Authentication.wire() == "authentication_error"@);
    assert(ErrorType::Permission.wire() == "permission_error"@);
    assert(ErrorType::NotFound.wire() == "not_found_error"@);
    assert(ErrorType::RateLimit.wire() == "rate_limit_error"@);
    assert(ErrorType::ServerError.wire() == "server_error"@);
    if let Some(v) = ErrorType::named(s) {
        assert(v.wire() == s);
    }
}

/// A string is sent for a [`EffortNoneToMax`] exactly where it is the one documented for it.
pub proof fn the_strings_of_effort_none_to_max(s: Seq<char>)
    ensures
        s == EffortNoneToMax::NoReasoning.wire() <==> s == "none"@,
        s == EffortNoneToMax::Low.wire() <==> s == "low"@,
        s == EffortNoneToMax::Medium.wire() <==> s == "medium"@,
        s == EffortNoneToMax::High.wire() <==> s == "high"@,
        s == EffortNoneToMax::Xhigh.wire() <==> s == "xhigh"@,
        s == EffortNoneToMax::Max.wire() <==> s == "max"@,
{
}

/// A string is sent for a [`EffortNoneToXhigh`] exactly where it is the one documented for it.
pub proof fn the_strings_of_effort_none_to_xhigh(s: Seq<char>)
    ensures
        s == EffortNoneToXhigh::NoReasoning.wire() <==> s == "none"@,
        s == EffortNoneToXhigh::Low.wire() <==> s == "low"@,
        s == EffortNoneToXhigh::Medium.wire() <==> s == "medium"@,
        s == EffortNoneToXhigh::High.wire() <==> s == "high"@,
        s == EffortNoneToXhigh::Xhigh.wire() <==> s == "xhigh"@,
{
}

/// A string is sent for a [`EffortMediumToXhigh`] exactly where it is the one documented for it.
pub proof fn the_strings_of_effort_medium_to_xhigh(s: Seq<char>)
    ensures
        s == EffortMediumToXhigh::Medium.wire() <==> s == "medium"@,
        s == EffortMediumToXhigh::High.wire() <==> s == "high"@,
        s == EffortMediumToXhigh::Xhigh.wire() <==> s == "xhigh"@,
{
}

/// A string is sent for a [`ExtendedRetentionOnly`] exactly where it is the one documented for it.
pub proof fn the_strings_of_extended_retention_only(s: Seq<char>)
    ensures
        s == ExtendedRetentionOnly::TwentyFourHours.wire() <==> s == "24h"@,
{
}

/// A string is sent for a [`ModelId`] exactly where it is the one documented for it.
pub proof fn the_strings_of_model_id(s: Seq<char>)
    ensures
        s == ModelId::Gpt5_6Sol.wire() <==> s == "gpt-5.6-sol"@,
        s == ModelId::Gpt5_6Terra.wire() <==> s == "gpt-5.6-terra"@,
        s == ModelId::Gpt5_6Luna.wire() <==> s == "gpt-5.6-luna"@,
        s == ModelId::Gpt5_5.wire() <==> s == "gpt-5.5"@,
        s == ModelId::Gpt5_5Pro.wire() <==> s == "gpt-5.5-pro"@,
        s == ModelId::Gpt5_4.wire() <==> s == "gpt-5.4"@,
        s == ModelId::Gpt6Sol.wire() <==> s == "gpt-6-sol"@,
{
}

/// A string is sent for a [`AllowedToolsMode`] exactly where it is the one documented for it.
pub proof fn the_strings_of_allowed_tools_mode(s: Seq<char>)
    ensures
        s == AllowedToolsMode::Auto.wire() <==> s == "auto"@,
        s == AllowedToolsMode::Required.wire() <==> s == "required"@,
{
}

/// A string is sent for a [`TextStream`] exactly where it is the one documented for it.
pub proof fn the_strings_of_text_stream(s: Seq<char>)
    ensures
        s == TextStream::Output.wire() <==> s == "output_text"@,
        s == TextStream::Refusal.wire() <==> s == "refusal"@,
        s == TextStream::ReasoningSummary.wire() <==> s == "reasoning_summary_text"@,
        s == TextStream::Reasoning.wire() <==> s == "reasoning_text"@,
{
}

/// A string is sent for a [`PartBoundary`] exactly where it is the one documented for it.
pub proof fn the_strings_of_part_boundary(s: Seq<char>)
    ensures
        s == PartBoundary::Added.wire() <==> s == "added"@,
        s == PartBoundary::Done.wire() <==> s == "done"@,
{
}

/// A string is sent for a [`ProgressStage`] exactly where it is the one documented for it.
pub proof fn the_strings_of_progress_stage(s: Seq<char>)
    ensures
        s == ProgressStage::Created.wire() <==> s == "response.created"@,
        s == ProgressStage::Queued.wire() <==> s == "response.queued"@,
        s == ProgressStage::InProgress.wire() <==> s == "response.in_progress"@,
{
}

} // verus!
