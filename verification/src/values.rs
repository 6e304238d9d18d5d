//! Wire vocabulary: enums whose variants are exactly the strings the API
//! accepts, and the lookup tables between the two.
use vstd::prelude::*;

pub use crate::metadata::{Metadata, MetadataError};
use crate::text::same;

verus! {

/// Which of the two roles that speak the *input* vocabulary is speaking.
/// `Developer` outranks `User`.
#[derive(Debug, Clone, Copy, PartialEq, Eq, PartialOrd, Ord, Hash, Structural)]
pub enum InputRole {
    /// Instructions from the application. Outranks `user`.
    Developer,
    /// Input from the person using the application.
    User,
}

impl InputRole {
    /// The string that names this value on the wire.
    pub open spec fn wire(self) -> Seq<char> {
        match self {
            InputRole::Developer => "developer"@,
            InputRole::User => "user"@,
        }
    }

    /// The exact string this variant serializes to.
    pub fn as_str(self) -> (s: &'static str)
        ensures
            s@ == self.wire(),
    {
        match self {
            InputRole::Developer => "developer",
            InputRole::User => "user",
        }
    }

    /// No two values share a string.
    pub proof fn wire_is_one_to_one(a: InputRole, b: InputRole)
        requires
            a.wire() == b.wire(),
        ensures
            a == b,
    {
        reveal_strlit("developer");
        reveal_strlit("user");
        assert("developer"@.len() == 9);
        assert("user"@.len() == 4);
    }
}

/// Whether an assistant message was intermediate commentary or the final
/// answer. OpenAI asks that the value be preserved and resent on every
/// replayed assistant message; dropping it degrades tool-heavy flows.
#[derive(Debug, Clone, Copy, PartialEq, Eq, PartialOrd, Ord, Hash, Structural)]
pub enum AssistantPhase {
    /// An interim update, such as a preamble before a tool call.
    Commentary,
    /// The completed answer for that turn.
    FinalAnswer,
}

impl AssistantPhase {
    /// The string that names this value on the wire.
    pub open spec fn wire(self) -> Seq<char> {
        match self {
            AssistantPhase::Commentary => "commentary"@,
            AssistantPhase::FinalAnswer => "final_answer"@,
        }
    }

    /// The exact string this variant serializes to.
    pub fn as_str(self) -> (s: &'static str)
        ensures
            s@ == self.wire(),
    {
        match self {
            AssistantPhase::Commentary => "commentary",
            AssistantPhase::FinalAnswer => "final_answer",
        }
    }

    /// No two values share a string.
    pub proof fn wire_is_one_to_one(a: AssistantPhase, b: AssistantPhase)
        requires
            a.wire() == b.wire(),
        ensures
            a == b,
    {
        reveal_strlit("commentary");
        reveal_strlit("final_answer");
        assert("commentary"@.len() == 10);
        assert("final_answer"@.len() == 12);
    }

    /// The value a string names, where it names one.
    pub open spec fn named(s: Seq<char>) -> Option<Self> {
        if exists|v: AssistantPhase| #[trigger] v.wire() == s {
            Some(choose|v: AssistantPhase| #[trigger] v.wire() == s)
        } else {
            None
        }
    }

    /// The documented inverse of [`Self::as_str`]. `None` for any string the API does not
    /// define, so a newly added value is visible as unknown.
    pub fn from_str(s: &str) -> (value: Option<Self>)
        ensures
            value == Self::named(s@),
            match value {
                Some(v) => v.wire() == s@,
                None => forall|v: AssistantPhase| #[trigger] v.wire() != s@,
            },
    {
        let value =
        if same(s, "commentary") {
            Some(AssistantPhase::Commentary)
        } else if same(s, "final_answer") {
            Some(AssistantPhase::FinalAnswer)
        } else {
            None
        };
        proof {
            match value {
                Some(v) => {
                    assert(v.wire() == s@);
                    Self::wire_is_one_to_one(v, choose|w: AssistantPhase| #[trigger] w.wire() == s@);
                },
                None => {},
            }
        }
        value
    }

    /// Reading back the string of a value gives the value.
    pub proof fn reads_back(v: Self)
        ensures
            Self::named(v.wire()) == Some(v),
    {
        Self::wire_is_one_to_one(v, choose|w: AssistantPhase| #[trigger] w.wire() == v.wire());
    }
}

/// How much of an image the model is asked to look at. Higher detail costs
/// more input tokens and, because images sit inside the hashed prefix,
/// changing it invalidates the cache from that image onward.
#[derive(Debug, Clone, Copy, PartialEq, Eq, PartialOrd, Ord, Hash, Structural)]
pub enum ImageDetail {
    /// Let OpenAI choose. On GPT-5.6+ this renders at high quality.
    Auto,
    /// Cheaper, coarser rendering.
    Low,
    /// Finer rendering, more input tokens.
    High,
    /// The image exactly as supplied, unresized.
    Original,
}

impl ImageDetail {
    /// The string that names this value on the wire.
    pub open spec fn wire(self) -> Seq<char> {
        match self {
            ImageDetail::Auto => "auto"@,
            ImageDetail::Low => "low"@,
            ImageDetail::High => "high"@,
            ImageDetail::Original => "original"@,
        }
    }

    /// The exact string this variant serializes to.
    pub fn as_str(self) -> (s: &'static str)
        ensures
            s@ == self.wire(),
    {
        match self {
            ImageDetail::Auto => "auto",
            ImageDetail::Low => "low",
            ImageDetail::High => "high",
            ImageDetail::Original => "original",
        }
    }

    /// No two values share a string.
    pub proof fn wire_is_one_to_one(a: ImageDetail, b: ImageDetail)
        requires
            a.wire() == b.wire(),
        ensures
            a == b,
    {
        reveal_strlit("auto");
        reveal_strlit("low");
        reveal_strlit("high");
        reveal_strlit("original");
        assert("auto"@.len() == 4);
        assert("low"@.len() == 3);
        assert("high"@.len() == 4);
        assert("original"@.len() == 8);
        assert("auto"@[0] == 'a');
        assert("high"@[0] == 'h');
    }
}

/// How much of a file the model is asked to look at.
#[derive(Debug, Clone, Copy, PartialEq, Eq, PartialOrd, Ord, Hash, Structural)]
pub enum FileDetail {
    /// Let OpenAI choose.
    Auto,
    /// Finer rendering, more input tokens.
    High,
}

impl FileDetail {
    /// The string that names this value on the wire.
    pub open spec fn wire(self) -> Seq<char> {
        match self {
            FileDetail::Auto => "auto"@,
            FileDetail::High => "high"@,
        }
    }

    /// The exact string this variant serializes to.
    pub fn as_str(self) -> (s: &'static str)
        ensures
            s@ == self.wire(),
    {
        match self {
            FileDetail::Auto => "auto",
            FileDetail::High => "high",
        }
    }

    /// No two values share a string.
    pub proof fn wire_is_one_to_one(a: FileDetail, b: FileDetail)
        requires
            a.wire() == b.wire(),
        ensures
            a == b,
    {
        reveal_strlit("auto");
        reveal_strlit("high");
        assert("auto"@.len() == 4);
        assert("high"@.len() == 4);
        assert("auto"@[0] == 'a');
        assert("high"@[0] == 'h');
    }
}

/// How verbose the answer should be. Part of the hashed prefix: OpenAI
/// turns it into instructions the model reads.
#[derive(Debug, Clone, Copy, PartialEq, Eq, PartialOrd, Ord, Hash, Structural)]
pub enum Verbosity {
    /// Terser answers.
    Low,
    /// The API default.
    Medium,
    /// Fuller answers.
    High,
}

impl Verbosity {
    /// The string that names this value on the wire.
    pub open spec fn wire(self) -> Seq<char> {
        match self {
            Verbosity::Low => "low"@,
            Verbosity::Medium => "medium"@,
            Verbosity::High => "high"@,
        }
    }

    /// The exact string this variant serializes to.
    pub fn as_str(self) -> (s: &'static str)
        ensures
            s@ == self.wire(),
    {
        match self {
            Verbosity::Low => "low",
            Verbosity::Medium => "medium",
            Verbosity::High => "high",
        }
    }

    /// No two values share a string.
    pub proof fn wire_is_one_to_one(a: Verbosity, b: Verbosity)
        requires
            a.wire() == b.wire(),
        ensures
            a == b,
    {
        reveal_strlit("low");
        reveal_strlit("medium");
        reveal_strlit("high");
        assert("low"@.len() == 3);
        assert("medium"@.len() == 6);
        assert("high"@.len() == 4);
    }
}

/// Which earlier reasoning the model may render into this turn. Part of the
/// hashed prefix, because it changes what the model is shown.
#[derive(Debug, Clone, Copy, PartialEq, Eq, PartialOrd, Ord, Hash, Structural)]
pub enum ReasoningContext {
    /// Let the model decide. The API's documented default: "If omitted or
    /// set to `auto`, the model determines the context mode." So `auto` is
    /// the spelling of the default, and the crate emits it rather than
    /// choosing `all_turns` on the caller's behalf — the GPT-5.6 family
    /// resolves `auto` to `all_turns` and earlier models to `current_turn`,
    /// which is a fact about the model, not about this request.
    Auto,
    /// Reasoning from the active turn only.
    CurrentTurn,
    /// Reasoning from earlier turns too.
    AllTurns,
}

impl ReasoningContext {
    /// The string that names this value on the wire.
    pub open spec fn wire(self) -> Seq<char> {
        match self {
            ReasoningContext::Auto => "auto"@,
            ReasoningContext::CurrentTurn => "current_turn"@,
            ReasoningContext::AllTurns => "all_turns"@,
        }
    }

    /// The exact string this variant serializes to.
    pub fn as_str(self) -> (s: &'static str)
        ensures
            s@ == self.wire(),
    {
        match self {
            ReasoningContext::Auto => "auto",
            ReasoningContext::CurrentTurn => "current_turn",
            ReasoningContext::AllTurns => "all_turns",
        }
    }

    /// No two values share a string.
    pub proof fn wire_is_one_to_one(a: ReasoningContext, b: ReasoningContext)
        requires
            a.wire() == b.wire(),
        ensures
            a == b,
    {
        reveal_strlit("auto");
        reveal_strlit("current_turn");
        reveal_strlit("all_turns");
        assert("auto"@.len() == 4);
        assert("current_turn"@.len() == 12);
        assert("all_turns"@.len() == 9);
    }
}

/// How much compute the model spends before answering, on GPT-5.6 models.
/// Earlier generations reject `Max`, which is why effort is carried per
/// model rather than shared — see [`crate::model`].
#[derive(Debug, Clone, Copy, PartialEq, Eq, PartialOrd, Ord, Hash, Structural)]
pub enum ReasoningEffort {
    /// No reasoning tokens at all.
    NoReasoning,
    /// Modest reasoning.
    Low,
    /// The GPT-5.6 default.
    Medium,
    /// Deeper reasoning.
    High,
    /// Long runs.
    Xhigh,
    /// The most reasoning available. GPT-5.6 and later only.
    Max,
}

impl ReasoningEffort {
    /// The string that names this value on the wire.
    pub open spec fn wire(self) -> Seq<char> {
        match self {
            ReasoningEffort::NoReasoning => "none"@,
            ReasoningEffort::Low => "low"@,
            ReasoningEffort::Medium => "medium"@,
            ReasoningEffort::High => "high"@,
            ReasoningEffort::Xhigh => "xhigh"@,
            ReasoningEffort::Max => "max"@,
        }
    }

    /// The exact string this variant serializes to.
    pub fn as_str(self) -> (s: &'static str)
        ensures
            s@ == self.wire(),
    {
        match self {
            ReasoningEffort::NoReasoning => "none",
            ReasoningEffort::Low => "low",
            ReasoningEffort::Medium => "medium",
            ReasoningEffort::High => "high",
            ReasoningEffort::Xhigh => "xhigh",
            ReasoningEffort::Max => "max",
        }
    }

    /// No two values share a string.
    pub proof fn wire_is_one_to_one(a: ReasoningEffort, b: ReasoningEffort)
        requires
            a.wire() == b.wire(),
        ensures
            a == b,
    {
        reveal_strlit("none");
        reveal_strlit("low");
        reveal_strlit("medium");
        reveal_strlit("high");
        reveal_strlit("xhigh");
        reveal_strlit("max");
        assert("none"@.len() == 4);
        assert("low"@.len() == 3);
        assert("medium"@.len() == 6);
        assert("high"@.len() == 4);
        assert("xhigh"@.len() == 5);
        assert("max"@.len() == 3);
        assert("none"@[0] == 'n');
        assert("low"@[0] == 'l');
        assert("high"@[0] == 'h');
        assert("max"@[0] == 'm');
    }
}

/// Standard or Pro execution, independent of effort. GPT-5.6 only.
#[derive(Debug, Clone, Copy, PartialEq, Eq, PartialOrd, Ord, Hash, Structural)]
pub enum ReasoningMode {
    /// The default execution path.
    Standard,
    /// More model work per request, billed at the same token rates.
    Pro,
}

impl ReasoningMode {
    /// The string that names this value on the wire.
    pub open spec fn wire(self) -> Seq<char> {
        match self {
            ReasoningMode::Standard => "standard"@,
            ReasoningMode::Pro => "pro"@,
        }
    }

    /// The exact string this variant serializes to.
    pub fn as_str(self) -> (s: &'static str)
        ensures
            s@ == self.wire(),
    {
        match self {
            ReasoningMode::Standard => "standard",
            ReasoningMode::Pro => "pro",
        }
    }

    /// No two values share a string.
    pub proof fn wire_is_one_to_one(a: ReasoningMode, b: ReasoningMode)
        requires
            a.wire() == b.wire(),
        ensures
            a == b,
    {
        reveal_strlit("standard");
        reveal_strlit("pro");
        assert("standard"@.len() == 8);
        assert("pro"@.len() == 3);
    }
}

/// How much of the model's own reasoning to summarize back to the caller.
/// Summaries are output, not input, so this does not affect the prefix.
#[derive(Debug, Clone, Copy, PartialEq, Eq, PartialOrd, Ord, Hash, Structural)]
pub enum ReasoningSummary {
    /// The most detailed summarizer the model offers.
    Auto,
    /// A short summary.
    Concise,
    /// A long summary.
    Detailed,
}

impl ReasoningSummary {
    /// The string that names this value on the wire.
    pub open spec fn wire(self) -> Seq<char> {
        match self {
            ReasoningSummary::Auto => "auto"@,
            ReasoningSummary::Concise => "concise"@,
            ReasoningSummary::Detailed => "detailed"@,
        }
    }

    /// The exact string this variant serializes to.
    pub fn as_str(self) -> (s: &'static str)
        ensures
            s@ == self.wire(),
    {
        match self {
            ReasoningSummary::Auto => "auto",
            ReasoningSummary::Concise => "concise",
            ReasoningSummary::Detailed => "detailed",
        }
    }

    /// No two values share a string.
    pub proof fn wire_is_one_to_one(a: ReasoningSummary, b: ReasoningSummary)
        requires
            a.wire() == b.wire(),
        ensures
            a == b,
    {
        reveal_strlit("auto");
        reveal_strlit("concise");
        reveal_strlit("detailed");
        assert("auto"@.len() == 4);
        assert("concise"@.len() == 7);
        assert("detailed"@.len() == 8);
    }
}

/// `prompt_cache_options.mode`, on GPT-5.6 and later.
#[derive(Debug, Clone, Copy, PartialEq, Eq, PartialOrd, Ord, Hash, Structural)]
pub enum CacheMode {
    /// OpenAI adds a breakpoint at the end of the latest eligible message,
    /// consuming one write slot and leaving three for explicit ones.
    Implicit,
    /// No automatic breakpoint: all four slots are yours. With no explicit
    /// breakpoint at all, the request uses no caching whatsoever.
    Explicit,
}

impl CacheMode {
    /// The string that names this value on the wire.
    pub open spec fn wire(self) -> Seq<char> {
        match self {
            CacheMode::Implicit => "implicit"@,
            CacheMode::Explicit => "explicit"@,
        }
    }

    /// The exact string this variant serializes to.
    pub fn as_str(self) -> (s: &'static str)
        ensures
            s@ == self.wire(),
    {
        match self {
            CacheMode::Implicit => "implicit",
            CacheMode::Explicit => "explicit",
        }
    }

    /// No two values share a string.
    pub proof fn wire_is_one_to_one(a: CacheMode, b: CacheMode)
        requires
            a.wire() == b.wire(),
        ensures
            a == b,
    {
        reveal_strlit("implicit");
        reveal_strlit("explicit");
        assert("implicit"@.len() == 8);
        assert("explicit"@.len() == 8);
        assert("implicit"@[0] == 'i');
        assert("explicit"@[0] == 'e');
    }
}

/// `prompt_cache_options.ttl`, the minimum lifetime of every breakpoint the
/// request writes. GPT-5.6 and later accept exactly one value, so this
/// enum has exactly one variant — the type states the constraint instead of
/// inviting a string the API would refuse.
#[derive(Debug, Clone, Copy, PartialEq, Eq, PartialOrd, Ord, Hash, Structural)]
pub enum CacheTtl {
    /// Thirty minutes after the latest write or reuse; also the default.
    ThirtyMinutes,
}

impl CacheTtl {
    /// The string that names this value on the wire.
    pub open spec fn wire(self) -> Seq<char> {
        match self {
            CacheTtl::ThirtyMinutes => "30m"@,
        }
    }

    /// The exact string this variant serializes to.
    pub fn as_str(self) -> (s: &'static str)
        ensures
            s@ == self.wire(),
    {
        match self {
            CacheTtl::ThirtyMinutes => "30m",
        }
    }

    /// No two values share a string.
    pub proof fn wire_is_one_to_one(a: CacheTtl, b: CacheTtl)
        requires
            a.wire() == b.wire(),
        ensures
            a == b,
    {
    }
}

/// `prompt_cache_retention`, the *maximum* retention policy on models older
/// than GPT-5.6. A different field from [`CacheTtl`], on different models,
/// which is why the two live on different model types and can never be
/// sent together.
#[derive(Debug, Clone, Copy, PartialEq, Eq, PartialOrd, Ord, Hash, Structural)]
pub enum CacheRetention {
    /// GPU-local only: roughly 5–10 minutes idle, up to an hour. The
    /// default for organizations with Zero Data Retention.
    InMemory,
    /// Extended retention: typically ~30 minutes, up to 24 hours.
    TwentyFourHours,
}

impl CacheRetention {
    /// The string that names this value on the wire.
    pub open spec fn wire(self) -> Seq<char> {
        match self {
            CacheRetention::InMemory => "in_memory"@,
            CacheRetention::TwentyFourHours => "24h"@,
        }
    }

    /// The exact string this variant serializes to.
    pub fn as_str(self) -> (s: &'static str)
        ensures
            s@ == self.wire(),
    {
        match self {
            CacheRetention::InMemory => "in_memory",
            CacheRetention::TwentyFourHours => "24h",
        }
    }

    /// No two values share a string.
    pub proof fn wire_is_one_to_one(a: CacheRetention, b: CacheRetention)
        requires
            a.wire() == b.wire(),
        ensures
            a == b,
    {
        reveal_strlit("in_memory");
        reveal_strlit("24h");
        assert("in_memory"@.len() == 9);
        assert("24h"@.len() == 3);
    }
}

/// One entry of `include`: extra output the response omits unless asked for.
#[derive(Debug, Clone, Copy, PartialEq, Eq, PartialOrd, Ord, Hash, Structural)]
pub enum Include {
    /// The reasoning item's replayable opaque payload. Required to replay
    /// reasoning with `store: false` or under Zero Data Retention; see
    /// [`Context::push_reasoning`](crate::context::Context::push_reasoning),
    /// which is what consumes it.
    ReasoningEncryptedContent,
    /// The file-search tool call's search results.
    FileSearchCallResults,
    /// The web-search tool call's results.
    WebSearchCallResults,
    /// The sources behind the web-search tool call's action.
    WebSearchCallActionSources,
    /// Image URLs from an input message, echoed back.
    MessageInputImageUrl,
    /// Image URLs from a computer-call output.
    ComputerCallOutputImageUrl,
    /// What the code interpreter's Python execution printed.
    CodeInterpreterCallOutputs,
    /// Per-token log probabilities on assistant messages.
    MessageOutputTextLogprobs,
}

impl Include {
    /// The string that names this value on the wire.
    pub open spec fn wire(self) -> Seq<char> {
        match self {
            Include::ReasoningEncryptedContent => "reasoning.encrypted_content"@,
            Include::FileSearchCallResults => "file_search_call.results"@,
            Include::WebSearchCallResults => "web_search_call.results"@,
            Include::WebSearchCallActionSources => "web_search_call.action.sources"@,
            Include::MessageInputImageUrl => "message.input_image.image_url"@,
            Include::ComputerCallOutputImageUrl => "computer_call_output.output.image_url"@,
            Include::CodeInterpreterCallOutputs => "code_interpreter_call.outputs"@,
            Include::MessageOutputTextLogprobs => "message.output_text.logprobs"@,
        }
    }

    /// The exact string this variant serializes to.
    pub fn as_str(self) -> (s: &'static str)
        ensures
            s@ == self.wire(),
    {
        match self {
            Include::ReasoningEncryptedContent => "reasoning.encrypted_content",
            Include::FileSearchCallResults => "file_search_call.results",
            Include::WebSearchCallResults => "web_search_call.results",
            Include::WebSearchCallActionSources => "web_search_call.action.sources",
            Include::MessageInputImageUrl => "message.input_image.image_url",
            Include::ComputerCallOutputImageUrl => "computer_call_output.output.image_url",
            Include::CodeInterpreterCallOutputs => "code_interpreter_call.outputs",
            Include::MessageOutputTextLogprobs => "message.output_text.logprobs",
        }
    }

    /// No two values share a string.
    pub proof fn wire_is_one_to_one(a: Include, b: Include)
        requires
            a.wire() == b.wire(),
        ensures
            a == b,
    {
        reveal_strlit("reasoning.encrypted_content");
        reveal_strlit("file_search_call.results");
        reveal_strlit("web_search_call.results");
        reveal_strlit("web_search_call.action.sources");
        reveal_strlit("message.input_image.image_url");
        reveal_strlit("computer_call_output.output.image_url");
        reveal_strlit("code_interpreter_call.outputs");
        reveal_strlit("message.output_text.logprobs");
        assert("reasoning.encrypted_content"@.len() == 27);
        assert("file_search_call.results"@.len() == 24);
        assert("web_search_call.results"@.len() == 23);
        assert("web_search_call.action.sources"@.len() == 30);
        assert("message.input_image.image_url"@.len() == 29);
        assert("computer_call_output.output.image_url"@.len() == 37);
        assert("code_interpreter_call.outputs"@.len() == 29);
        assert("message.output_text.logprobs"@.len() == 28);
        assert("message.input_image.image_url"@[0] == 'm');
        assert("code_interpreter_call.outputs"@[0] == 'c');
    }
}

/// `service_tier`: which processing pool serves the request.
#[derive(Debug, Clone, Copy, PartialEq, Eq, PartialOrd, Ord, Hash, Structural)]
pub enum ServiceTier {
    /// Whatever the project is configured for. The documented default.
    Auto,
    /// Standard pricing and performance.
    Default,
    /// Flex processing: cheaper, slower, and it may be queued.
    Flex,
    /// Scale processing.
    Scale,
    /// Priority processing. Also what a `fast` request is reported as.
    Priority,
    /// Fast mode, reported back as [`Self::Priority`].
    Fast,
    /// Ultrafast processing, access-controlled and limited to some models.
    Ultrafast,
}

impl ServiceTier {
    /// The string that names this value on the wire.
    pub open spec fn wire(self) -> Seq<char> {
        match self {
            ServiceTier::Auto => "auto"@,
            ServiceTier::Default => "default"@,
            ServiceTier::Flex => "flex"@,
            ServiceTier::Scale => "scale"@,
            ServiceTier::Priority => "priority"@,
            ServiceTier::Fast => "fast"@,
            ServiceTier::Ultrafast => "ultrafast"@,
        }
    }

    /// The exact string this variant serializes to.
    pub fn as_str(self) -> (s: &'static str)
        ensures
            s@ == self.wire(),
    {
        match self {
            ServiceTier::Auto => "auto",
            ServiceTier::Default => "default",
            ServiceTier::Flex => "flex",
            ServiceTier::Scale => "scale",
            ServiceTier::Priority => "priority",
            ServiceTier::Fast => "fast",
            ServiceTier::Ultrafast => "ultrafast",
        }
    }

    /// No two values share a string.
    pub proof fn wire_is_one_to_one(a: ServiceTier, b: ServiceTier)
        requires
            a.wire() == b.wire(),
        ensures
            a == b,
    {
        reveal_strlit("auto");
        reveal_strlit("default");
        reveal_strlit("flex");
        reveal_strlit("scale");
        reveal_strlit("priority");
        reveal_strlit("fast");
        reveal_strlit("ultrafast");
        assert("auto"@.len() == 4);
        assert("default"@.len() == 7);
        assert("flex"@.len() == 4);
        assert("scale"@.len() == 5);
        assert("priority"@.len() == 8);
        assert("fast"@.len() == 4);
        assert("ultrafast"@.len() == 9);
        assert("auto"@[0] == 'a');
        assert("flex"@[0] == 'f');
        assert("flex"@[1] == 'l');
        assert("fast"@[0] == 'f');
        assert("fast"@[1] == 'a');
    }

    /// The value a string names, where it names one.
    pub open spec fn named(s: Seq<char>) -> Option<Self> {
        if exists|v: ServiceTier| #[trigger] v.wire() == s {
            Some(choose|v: ServiceTier| #[trigger] v.wire() == s)
        } else {
            None
        }
    }

    /// The documented inverse of [`Self::as_str`]. `None` for any string the API does not
    /// define, so a newly added value is visible as unknown.
    pub fn from_str(s: &str) -> (value: Option<Self>)
        ensures
            value == Self::named(s@),
            match value {
                Some(v) => v.wire() == s@,
                None => forall|v: ServiceTier| #[trigger] v.wire() != s@,
            },
    {
        let value =
        if same(s, "auto") {
            Some(ServiceTier::Auto)
        } else if same(s, "default") {
            Some(ServiceTier::Default)
        } else if same(s, "flex") {
            Some(ServiceTier::Flex)
        } else if same(s, "scale") {
            Some(ServiceTier::Scale)
        } else if same(s, "priority") {
            Some(ServiceTier::Priority)
        } else if same(s, "fast") {
            Some(ServiceTier::Fast)
        } else if same(s, "ultrafast") {
            Some(ServiceTier::Ultrafast)
        } else {
            None
        };
        proof {
            match value {
                Some(v) => {
                    assert(v.wire() == s@);
                    Self::wire_is_one_to_one(v, choose|w: ServiceTier| #[trigger] w.wire() == s@);
                },
                None => {},
            }
        }
        value
    }

    /// Reading back the string of a value gives the value.
    pub proof fn reads_back(v: Self)
        ensures
            Self::named(v.wire()) == Some(v),
    {
        Self::wire_is_one_to_one(v, choose|w: ServiceTier| #[trigger] w.wire() == v.wire());
    }
}

/// `truncation`: what to do when the input exceeds the context window.
#[derive(Debug, Clone, Copy, PartialEq, Eq, PartialOrd, Ord, Hash, Structural)]
pub enum Truncation {
    /// Drop items from the beginning of the conversation to fit.
    Auto,
    /// Fail with a 400 instead. The documented default.
    Disabled,
}

impl Truncation {
    /// The string that names this value on the wire.
    pub open spec fn wire(self) -> Seq<char> {
        match self {
            Truncation::Auto => "auto"@,
            Truncation::Disabled => "disabled"@,
        }
    }

    /// The exact string this variant serializes to.
    pub fn as_str(self) -> (s: &'static str)
        ensures
            s@ == self.wire(),
    {
        match self {
            Truncation::Auto => "auto",
            Truncation::Disabled => "disabled",
        }
    }

    /// No two values share a string.
    pub proof fn wire_is_one_to_one(a: Truncation, b: Truncation)
        requires
            a.wire() == b.wire(),
        ensures
            a == b,
    {
        reveal_strlit("auto");
        reveal_strlit("disabled");
        assert("auto"@.len() == 4);
        assert("disabled"@.len() == 8);
    }
}

/// `status` on a response object: where generation got to.
#[derive(Debug, Clone, Copy, PartialEq, Eq, PartialOrd, Ord, Hash, Structural)]
pub enum ResponseStatus {
    /// The model answered.
    Completed,
    /// Generation failed; `error` says why.
    Failed,
    /// Still generating.
    InProgress,
    /// A caller cancelled it.
    Cancelled,
    /// Accepted and waiting for capacity. Reached under `background` or a
    /// queued service tier.
    Queued,
    /// Stopped short; `incomplete_details.reason` says why.
    Incomplete,
}

impl ResponseStatus {
    /// The string that names this value on the wire.
    pub open spec fn wire(self) -> Seq<char> {
        match self {
            ResponseStatus::Completed => "completed"@,
            ResponseStatus::Failed => "failed"@,
            ResponseStatus::InProgress => "in_progress"@,
            ResponseStatus::Cancelled => "cancelled"@,
            ResponseStatus::Queued => "queued"@,
            ResponseStatus::Incomplete => "incomplete"@,
        }
    }

    /// The exact string this variant serializes to.
    pub fn as_str(self) -> (s: &'static str)
        ensures
            s@ == self.wire(),
    {
        match self {
            ResponseStatus::Completed => "completed",
            ResponseStatus::Failed => "failed",
            ResponseStatus::InProgress => "in_progress",
            ResponseStatus::Cancelled => "cancelled",
            ResponseStatus::Queued => "queued",
            ResponseStatus::Incomplete => "incomplete",
        }
    }

    /// No two values share a string.
    pub proof fn wire_is_one_to_one(a: ResponseStatus, b: ResponseStatus)
        requires
            a.wire() == b.wire(),
        ensures
            a == b,
    {
        reveal_strlit("completed");
        reveal_strlit("failed");
        reveal_strlit("in_progress");
        reveal_strlit("cancelled");
        reveal_strlit("queued");
        reveal_strlit("incomplete");
        assert("completed"@.len() == 9);
        assert("failed"@.len() == 6);
        assert("in_progress"@.len() == 11);
        assert("cancelled"@.len() == 9);
        assert("queued"@.len() == 6);
        assert("incomplete"@.len() == 10);
        assert("completed"@[1] == 'o');
        assert("failed"@[0] == 'f');
        assert("cancelled"@[1] == 'a');
        assert("queued"@[0] == 'q');
    }

    /// The value a string names, where it names one.
    pub open spec fn named(s: Seq<char>) -> Option<Self> {
        if exists|v: ResponseStatus| #[trigger] v.wire() == s {
            Some(choose|v: ResponseStatus| #[trigger] v.wire() == s)
        } else {
            None
        }
    }

    /// The documented inverse of [`Self::as_str`]. `None` for any string the API does not
    /// define, so a newly added value is visible as unknown.
    pub fn from_str(s: &str) -> (value: Option<Self>)
        ensures
            value == Self::named(s@),
            match value {
                Some(v) => v.wire() == s@,
                None => forall|v: ResponseStatus| #[trigger] v.wire() != s@,
            },
    {
        let value =
        if same(s, "completed") {
            Some(ResponseStatus::Completed)
        } else if same(s, "failed") {
            Some(ResponseStatus::Failed)
        } else if same(s, "in_progress") {
            Some(ResponseStatus::InProgress)
        } else if same(s, "cancelled") {
            Some(ResponseStatus::Cancelled)
        } else if same(s, "queued") {
            Some(ResponseStatus::Queued)
        } else if same(s, "incomplete") {
            Some(ResponseStatus::Incomplete)
        } else {
            None
        };
        proof {
            match value {
                Some(v) => {
                    assert(v.wire() == s@);
                    Self::wire_is_one_to_one(v, choose|w: ResponseStatus| #[trigger] w.wire() == s@);
                },
                None => {},
            }
        }
        value
    }

    /// Reading back the string of a value gives the value.
    pub proof fn reads_back(v: Self)
        ensures
            Self::named(v.wire()) == Some(v),
    {
        Self::wire_is_one_to_one(v, choose|w: ResponseStatus| #[trigger] w.wire() == v.wire());
    }
}

/// Which built-in tool a hosted-tool streaming event belongs to.
#[derive(Debug, Clone, Copy, PartialEq, Eq, PartialOrd, Ord, Hash, Structural)]
pub enum HostedTool {
    /// `file_search`, over vector stores.
    FileSearch,
    /// `web_search`.
    WebSearch,
    /// `code_interpreter`, running Python in a container.
    CodeInterpreter,
    /// `image_generation`.
    ImageGeneration,
    /// An MCP server's tool call.
    Mcp,
    /// An MCP server's tool listing, which precedes any call to it.
    McpListTools,
    /// `shell`, running commands.
    Shell,
    /// `local_shell`, whose commands the caller runs.
    LocalShell,
    /// `computer_use_preview`.
    Computer,
    /// `apply_patch`, editing files.
    ApplyPatch,
    /// A custom tool, whose input is free text rather than JSON.
    Custom,
    /// `tool_search`, which finds other tools.
    ToolSearch,
}

impl HostedTool {
    /// The string that names this value on the wire.
    pub open spec fn wire(self) -> Seq<char> {
        match self {
            HostedTool::FileSearch => "file_search"@,
            HostedTool::WebSearch => "web_search"@,
            HostedTool::CodeInterpreter => "code_interpreter"@,
            HostedTool::ImageGeneration => "image_generation"@,
            HostedTool::Mcp => "mcp"@,
            HostedTool::McpListTools => "mcp_list_tools"@,
            HostedTool::Shell => "shell"@,
            HostedTool::LocalShell => "local_shell"@,
            HostedTool::Computer => "computer"@,
            HostedTool::ApplyPatch => "apply_patch"@,
            HostedTool::Custom => "custom"@,
            HostedTool::ToolSearch => "tool_search"@,
        }
    }

    /// The exact string this variant serializes to.
    pub fn as_str(self) -> (s: &'static str)
        ensures
            s@ == self.wire(),
    {
        match self {
            HostedTool::FileSearch => "file_search",
            HostedTool::WebSearch => "web_search",
            HostedTool::CodeInterpreter => "code_interpreter",
            HostedTool::ImageGeneration => "image_generation",
            HostedTool::Mcp => "mcp",
            HostedTool::McpListTools => "mcp_list_tools",
            HostedTool::Shell => "shell",
            HostedTool::LocalShell => "local_shell",
            HostedTool::Computer => "computer",
            HostedTool::ApplyPatch => "apply_patch",
            HostedTool::Custom => "custom",
            HostedTool::ToolSearch => "tool_search",
        }
    }

    /// No two values share a string.
    pub proof fn wire_is_one_to_one(a: HostedTool, b: HostedTool)
        requires
            a.wire() == b.wire(),
        ensures
            a == b,
    {
        reveal_strlit("file_search");
        reveal_strlit("web_search");
        reveal_strlit("code_interpreter");
        reveal_strlit("image_generation");
        reveal_strlit("mcp");
        reveal_strlit("mcp_list_tools");
        reveal_strlit("shell");
        reveal_strlit("local_shell");
        reveal_strlit("computer");
        reveal_strlit("apply_patch");
        reveal_strlit("custom");
        reveal_strlit("tool_search");
        assert("file_search"@.len() == 11);
        assert("web_search"@.len() == 10);
        assert("code_interpreter"@.len() == 16);
        assert("image_generation"@.len() == 16);
        assert("mcp"@.len() == 3);
        assert("mcp_list_tools"@.len() == 14);
        assert("shell"@.len() == 5);
        assert("local_shell"@.len() == 11);
        assert("computer"@.len() == 8);
        assert("apply_patch"@.len() == 11);
        assert("custom"@.len() == 6);
        assert("tool_search"@.len() == 11);
        assert("file_search"@[0] == 'f');
        assert("code_interpreter"@[0] == 'c');
        assert("image_generation"@[0] == 'i');
        assert("local_shell"@[0] == 'l');
        assert("apply_patch"@[0] == 'a');
        assert("tool_search"@[0] == 't');
    }

    /// The value a string names, where it names one.
    pub open spec fn named(s: Seq<char>) -> Option<Self> {
        if exists|v: HostedTool| #[trigger] v.wire() == s {
            Some(choose|v: HostedTool| #[trigger] v.wire() == s)
        } else {
            None
        }
    }

    /// The documented inverse of [`Self::as_str`]. `None` for any string the API does not
    /// define, so a newly added value is visible as unknown.
    pub fn from_str(s: &str) -> (value: Option<Self>)
        ensures
            value == Self::named(s@),
            match value {
                Some(v) => v.wire() == s@,
                None => forall|v: HostedTool| #[trigger] v.wire() != s@,
            },
    {
        let value =
        if same(s, "file_search") {
            Some(HostedTool::FileSearch)
        } else if same(s, "web_search") {
            Some(HostedTool::WebSearch)
        } else if same(s, "code_interpreter") {
            Some(HostedTool::CodeInterpreter)
        } else if same(s, "image_generation") {
            Some(HostedTool::ImageGeneration)
        } else if same(s, "mcp") {
            Some(HostedTool::Mcp)
        } else if same(s, "mcp_list_tools") {
            Some(HostedTool::McpListTools)
        } else if same(s, "shell") {
            Some(HostedTool::Shell)
        } else if same(s, "local_shell") {
            Some(HostedTool::LocalShell)
        } else if same(s, "computer") {
            Some(HostedTool::Computer)
        } else if same(s, "apply_patch") {
            Some(HostedTool::ApplyPatch)
        } else if same(s, "custom") {
            Some(HostedTool::Custom)
        } else if same(s, "tool_search") {
            Some(HostedTool::ToolSearch)
        } else {
            None
        };
        proof {
            match value {
                Some(v) => {
                    assert(v.wire() == s@);
                    Self::wire_is_one_to_one(v, choose|w: HostedTool| #[trigger] w.wire() == s@);
                },
                None => {},
            }
        }
        value
    }

    /// Reading back the string of a value gives the value.
    pub proof fn reads_back(v: Self)
        ensures
            Self::named(v.wire()) == Some(v),
    {
        Self::wire_is_one_to_one(v, choose|w: HostedTool| #[trigger] w.wire() == v.wire());
    }
}

/// Why a response stopped short of a complete answer.
#[derive(Debug, Clone, Copy, PartialEq, Eq, PartialOrd, Ord, Hash, Structural)]
pub enum IncompleteReason {
    /// Generation hit `max_output_tokens` or the context window.
    MaxOutputTokens,
    /// A safety filter interrupted the response.
    ContentFilter,
}

impl IncompleteReason {
    /// The string that names this value on the wire.
    pub open spec fn wire(self) -> Seq<char> {
        match self {
            IncompleteReason::MaxOutputTokens => "max_output_tokens"@,
            IncompleteReason::ContentFilter => "content_filter"@,
        }
    }

    /// The exact string this variant serializes to.
    pub fn as_str(self) -> (s: &'static str)
        ensures
            s@ == self.wire(),
    {
        match self {
            IncompleteReason::MaxOutputTokens => "max_output_tokens",
            IncompleteReason::ContentFilter => "content_filter",
        }
    }

    /// No two values share a string.
    pub proof fn wire_is_one_to_one(a: IncompleteReason, b: IncompleteReason)
        requires
            a.wire() == b.wire(),
        ensures
            a == b,
    {
        reveal_strlit("max_output_tokens");
        reveal_strlit("content_filter");
        assert("max_output_tokens"@.len() == 17);
        assert("content_filter"@.len() == 14);
    }

    /// The value a string names, where it names one.
    pub open spec fn named(s: Seq<char>) -> Option<Self> {
        if exists|v: IncompleteReason| #[trigger] v.wire() == s {
            Some(choose|v: IncompleteReason| #[trigger] v.wire() == s)
        } else {
            None
        }
    }

    /// The documented inverse of [`Self::as_str`]. `None` for any string the API does not
    /// define, so a newly added value is visible as unknown.
    pub fn from_str(s: &str) -> (value: Option<Self>)
        ensures
            value == Self::named(s@),
            match value {
                Some(v) => v.wire() == s@,
                None => forall|v: IncompleteReason| #[trigger] v.wire() != s@,
            },
    {
        let value =
        if same(s, "max_output_tokens") {
            Some(IncompleteReason::MaxOutputTokens)
        } else if same(s, "content_filter") {
            Some(IncompleteReason::ContentFilter)
        } else {
            None
        };
        proof {
            match value {
                Some(v) => {
                    assert(v.wire() == s@);
                    Self::wire_is_one_to_one(v, choose|w: IncompleteReason| #[trigger] w.wire() == s@);
                },
                None => {},
            }
        }
        value
    }

    /// Reading back the string of a value gives the value.
    pub proof fn reads_back(v: Self)
        ensures
            Self::named(v.wire()) == Some(v),
    {
        Self::wire_is_one_to_one(v, choose|w: IncompleteReason| #[trigger] w.wire() == v.wire());
    }
}

/// The `error.type` OpenAI returns on a failed request. Useful for deciding
/// whether to retry: `RateLimit` and `ServerError` are transient, the rest
/// are the caller's own bug.
#[derive(Debug, Clone, Copy, PartialEq, Eq, PartialOrd, Ord, Hash, Structural)]
pub enum ErrorType {
    /// The request itself was malformed or refused.
    InvalidRequest,
    /// The credential was missing, wrong, or revoked.
    Authentication,
    /// The credential is valid but lacks access.
    Permission,
    /// The named object does not exist.
    NotFound,
    /// A rate or spend limit was hit. Transient.
    RateLimit,
    /// A failure on OpenAI's side. Transient.
    ServerError,
}

impl ErrorType {
    /// The string that names this value on the wire.
    pub open spec fn wire(self) -> Seq<char> {
        match self {
            ErrorType::InvalidRequest => "invalid_request_error"@,
            ErrorType::Authentication => "authentication_error"@,
            ErrorType::Permission => "permission_error"@,
            ErrorType::NotFound => "not_found_error"@,
            ErrorType::RateLimit => "rate_limit_error"@,
            ErrorType::ServerError => "server_error"@,
        }
    }

    /// The exact string this variant serializes to.
    pub fn as_str(self) -> (s: &'static str)
        ensures
            s@ == self.wire(),
    {
        match self {
            ErrorType::InvalidRequest => "invalid_request_error",
            ErrorType::Authentication => "authentication_error",
            ErrorType::Permission => "permission_error",
            ErrorType::NotFound => "not_found_error",
            ErrorType::RateLimit => "rate_limit_error",
            ErrorType::ServerError => "server_error",
        }
    }

    /// No two values share a string.
    pub proof fn wire_is_one_to_one(a: ErrorType, b: ErrorType)
        requires
            a.wire() == b.wire(),
        ensures
            a == b,
    {
        reveal_strlit("invalid_request_error");
        reveal_strlit("authentication_error");
        reveal_strlit("permission_error");
        reveal_strlit("not_found_error");
        reveal_strlit("rate_limit_error");
        reveal_strlit("server_error");
        assert("invalid_request_error"@.len() == 21);
        assert("authentication_error"@.len() == 20);
        assert("permission_error"@.len() == 16);
        assert("not_found_error"@.len() == 15);
        assert("rate_limit_error"@.len() == 16);
        assert("server_error"@.len() == 12);
        assert("permission_error"@[0] == 'p');
        assert("rate_limit_error"@[0] == 'r');
    }

    /// The value a string names, where it names one.
    pub open spec fn named(s: Seq<char>) -> Option<Self> {
        if exists|v: ErrorType| #[trigger] v.wire() == s {
            Some(choose|v: ErrorType| #[trigger] v.wire() == s)
        } else {
            None
        }
    }

    /// The documented inverse of [`Self::as_str`]. `None` for any string the API does not
    /// define, so a newly added value is visible as unknown.
    pub fn from_str(s: &str) -> (value: Option<Self>)
        ensures
            value == Self::named(s@),
            match value {
                Some(v) => v.wire() == s@,
                None => forall|v: ErrorType| #[trigger] v.wire() != s@,
            },
    {
        let value =
        if same(s, "invalid_request_error") {
            Some(ErrorType::InvalidRequest)
        } else if same(s, "authentication_error") {
            Some(ErrorType::Authentication)
        } else if same(s, "permission_error") {
            Some(ErrorType::Permission)
        } else if same(s, "not_found_error") {
            Some(ErrorType::NotFound)
        } else if same(s, "rate_limit_error") {
            Some(ErrorType::RateLimit)
        } else if same(s, "server_error") {
            Some(ErrorType::ServerError)
        } else {
            None
        };
        proof {
            match value {
                Some(v) => {
                    assert(v.wire() == s@);
                    Self::wire_is_one_to_one(v, choose|w: ErrorType| #[trigger] w.wire() == s@);
                },
                None => {},
            }
        }
        value
    }

    /// Reading back the string of a value gives the value.
    pub proof fn reads_back(v: Self)
        ensures
            Self::named(v.wire()) == Some(v),
    {
        Self::wire_is_one_to_one(v, choose|w: ErrorType| #[trigger] w.wire() == v.wire());
    }
}

impl ErrorType {
    /// The error an HTTP status stands for, where it stands for one.
    pub open spec fn of_status(status: u16) -> Option<Self> {
        if status == 400 || status == 422 {
            Some(ErrorType::InvalidRequest)
        } else if status == 401 {
            Some(ErrorType::Authentication)
        } else if status == 403 {
            Some(ErrorType::Permission)
        } else if status == 404 {
            Some(ErrorType::NotFound)
        } else if status == 429 {
            Some(ErrorType::RateLimit)
        } else if 500 <= status <= 599 {
            Some(ErrorType::ServerError)
        } else {
            None
        }
    }

    /// The documented HTTP-status-to-error mapping. `None` for a status OpenAI does not
    /// document, so an unexpected code stays visibly unexpected.
    pub fn from_status(status: u16) -> (error: Option<Self>)
        ensures
            error == Self::of_status(status),
    {
        match status {
            400 | 422 => Some(Self::InvalidRequest),
            401 => Some(Self::Authentication),
            403 => Some(Self::Permission),
            404 => Some(Self::NotFound),
            429 => Some(Self::RateLimit),
            500..=599 => Some(Self::ServerError),
            _ => None,
        }
    }
}

} // verus!
