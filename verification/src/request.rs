//! The `POST /v1/responses` request, and the per-call settings that do not touch the hashed
//! prefix.
//!
//! Every public field on [`Request`] beside the context and the prefix settings is one OpenAI
//! does *not* hash, so any of them may change from request to request at no cache cost.
//!
//! [`Request::new`] is the only construction path, so the two checks the type system cannot
//! express, the cache-write budget and whether the model honors explicit breakpoints at all,
//! cannot be skipped.
use vstd::prelude::*;

use crate::context;
use crate::context::{Context, CACHE_WRITE_SLOTS};
use crate::metadata::Metadata;
use crate::model::Model;
use crate::prefix::PrefixSettings;
use crate::text;
use crate::tools::ToolChoice;
use crate::values::{CacheMode, Include, ServiceTier, Truncation};
use crate::views;

verus! {

/// Top-level `instructions`, which **cannot carry a cache breakpoint**.
///
/// The name is the warning: instructions you intend to reuse must instead live in an
/// `input_text` block inside a developer message. It remains useful for per-request
/// instructions you *want* outside the reusable prefix, such as a timestamp.
#[derive(Debug, Clone, PartialEq, Eq)]
pub struct UncacheableInstructions(pub String);

impl View for UncacheableInstructions {
    type V = Seq<char>;

    open spec fn view(&self) -> Seq<char> {
        self.0@
    }
}

impl UncacheableInstructions {
    /// Instructions that will not be cached, and are not meant to be.
    pub fn new(text: &str) -> (instructions: Self)
        ensures
            instructions.0@ == text@,
    {
        Self(text.to_owned())
    }
}

/// How many of the four per-request cache writes the caller's own breakpoints may use.
///
/// Under [`CacheMode::Implicit`] OpenAI spends one on a breakpoint it places itself, leaving
/// three. Under [`CacheMode::Explicit`] all four are the caller's. On models older than
/// GPT-5.6 explicit breakpoints do not exist, so the budget is zero.
#[derive(Debug, Clone, Copy, PartialEq, Eq, Structural)]
pub struct CacheWriteBudget {
    /// Explicit breakpoints this request may carry.
    pub explicit_slots: usize,
    /// Whether OpenAI adds one of its own, spending a slot.
    pub implicit_breakpoint: bool,
}

impl CacheWriteBudget {
    /// The budget a model and its caching mode allow.
    pub open spec fn allowed(model: Model) -> Self {
        match model.cache_options() {
            Some(caching) => match caching.mode {
                CacheMode::Implicit => CacheWriteBudget {
                    explicit_slots: 3,
                    implicit_breakpoint: true,
                },
                CacheMode::Explicit => CacheWriteBudget {
                    explicit_slots: 4,
                    implicit_breakpoint: false,
                },
            },
            None => CacheWriteBudget { explicit_slots: 0, implicit_breakpoint: true },
        }
    }

    /// The budget a model and its caching mode allow.
    pub fn of(model: &Model) -> (budget: Self)
        ensures
            budget == Self::allowed(*model),
    {
        match model.caching() {
            Some(caching) => match caching.mode {
                CacheMode::Implicit => Self {
                    explicit_slots: CACHE_WRITE_SLOTS - 1,
                    implicit_breakpoint: true,
                },
                CacheMode::Explicit => Self {
                    explicit_slots: CACHE_WRITE_SLOTS,
                    implicit_breakpoint: false,
                },
            },
            // Earlier generations place implicit breakpoints only.
            None => Self { explicit_slots: 0, implicit_breakpoint: true },
        }
    }

    /// On a model with explicit breakpoints the caller's slots and OpenAI's own breakpoint are
    /// exactly the four writes of a request.
    pub proof fn the_budget_is_four_writes(model: Model)
        requires
            model.identity().honors_breakpoints(),
        ensures
            CacheWriteBudget::allowed(model).explicit_slots + if CacheWriteBudget::allowed(
                model,
            ).implicit_breakpoint {
                1int
            } else {
                0int
            } == CACHE_WRITE_SLOTS,
    {
    }
}

/// Why a request was refused before it could be sent.
#[derive(Debug, Clone, PartialEq, Eq)]
#[allow(inconsistent_fields)]
pub enum RequestError {
    /// `max_output_tokens` outside `1..=` the model's maximum. Reasoning tokens count toward
    /// it.
    MaxOutputTokensOutOfRange {
        /// What was asked for.
        max_output_tokens: u32,
        /// What the model allows.
        model_maximum: u32,
    },
    /// More explicit breakpoints than this model and caching mode can write.
    TooManyExplicitBreakpoints {
        /// How many the context holds.
        placed: usize,
        /// How many this model and mode allow.
        budget: usize,
    },
    /// Explicit breakpoints on a model that ignores them.
    ExplicitBreakpointsUnsupported {
        /// The model's wire identifier.
        model: &'static str,
        /// How many the context holds.
        placed: usize,
    },
}

/// What a [`RequestError`] holds.
#[verifier::ext_equal]
pub enum RequestErrorView {
    MaxOutputTokensOutOfRange { max_output_tokens: u32, model_maximum: u32 },
    TooManyExplicitBreakpoints { placed: nat, budget: nat },
    ExplicitBreakpointsUnsupported { model: Seq<char>, placed: nat },
}

impl View for RequestError {
    type V = RequestErrorView;

    open spec fn view(&self) -> RequestErrorView {
        match self {
            RequestError::MaxOutputTokensOutOfRange {
                max_output_tokens,
                model_maximum,
            } => RequestErrorView::MaxOutputTokensOutOfRange {
                max_output_tokens: *max_output_tokens,
                model_maximum: *model_maximum,
            },
            RequestError::TooManyExplicitBreakpoints {
                placed,
                budget,
            } => RequestErrorView::TooManyExplicitBreakpoints {
                placed: *placed as nat,
                budget: *budget as nat,
            },
            RequestError::ExplicitBreakpointsUnsupported {
                model,
                placed,
            } => RequestErrorView::ExplicitBreakpointsUnsupported {
                model: model@,
                placed: *placed as nat,
            },
        }
    }
}

impl RequestErrorView {
    /// The error in words.
    pub open spec fn words(self) -> Seq<char> {
        match self {
            RequestErrorView::MaxOutputTokensOutOfRange { max_output_tokens, model_maximum } => {
                "max_output_tokens ("@ + text::decimal(max_output_tokens as nat)
                    + ") must be in 1..="@ + text::decimal(model_maximum as nat)
                    + " for this model"@
            },
            RequestErrorView::TooManyExplicitBreakpoints { placed, budget } => text::decimal(placed)
                + " explicit cache breakpoints exceed this request's budget of "@ + text::decimal(
                budget,
            ),
            RequestErrorView::ExplicitBreakpointsUnsupported { model, placed } => model
                + " ignores explicit cache breakpoints, but "@ + text::decimal(placed)
                + " are placed"@,
        }
    }
}

impl RequestError {
    /// The error in words.
    pub fn message(&self) -> (words: String)
        ensures
            words@ == self@.words(),
    {
        match self {
            RequestError::MaxOutputTokensOutOfRange { max_output_tokens, model_maximum } => {
                let mut words = "max_output_tokens (".to_owned();
                text::append_decimal(&mut words, *max_output_tokens as u64);
                words.append(") must be in 1..=");
                text::append_decimal(&mut words, *model_maximum as u64);
                words.append(" for this model");
                words
            },
            RequestError::TooManyExplicitBreakpoints { placed, budget } => {
                let mut words = String::new();
                text::append_decimal(&mut words, *placed as u64);
                assert(words@ =~= text::decimal(*placed as nat));
                words.append(" explicit cache breakpoints exceed this request's budget of ");
                text::append_decimal(&mut words, *budget as u64);
                words
            },
            RequestError::ExplicitBreakpointsUnsupported { model, placed } => {
                let mut words = (*model).to_owned();
                words.append(" ignores explicit cache breakpoints, but ");
                text::append_decimal(&mut words, *placed as u64);
                words.append(" are placed");
                words
            },
        }
    }
}

/// How the response comes back, with the options that only that way accepts.
///
/// The API pairs `stream` with `stream_options` and refuses the second without the first; one
/// sum type makes the pairing the only shape there is.
#[derive(Debug, Clone, Copy, PartialEq, Eq, Structural)]
pub enum Transport {
    /// The whole response in one body. `stream` is emitted as `false`.
    Buffered,
    /// Server-sent events. `stream` is emitted as `true`.
    Streamed {
        /// Whether deltas carry `obfuscation` padding, which normalizes payload sizes so a
        /// packet length cannot reveal a token length. `None` sends no `stream_options` at all
        /// and leaves OpenAI's default.
        include_obfuscation: Option<bool>,
    },
}

impl Default for Transport {
    fn default() -> (transport: Self)
        ensures
            transport == Transport::Buffered,
    {
        Self::Buffered
    }
}

/// A borrowed [`Context`] plus per-call settings: the `POST /v1/responses` body, as
/// [`Request::to_json`] writes it.
///
/// Every public field after the first two is one the API does *not* hash, so any of them may
/// change from request to request without costing a cached token.
#[derive(Debug)]
pub struct Request<'a> {
    /// Conversation state: the frozen tool array, the items, the breakpoints.
    pub context: &'a Context,
    /// The settings that determine the hashed prefix.
    pub prefix: PrefixSettings,
    /// Which tools may be called this turn. Prefer [`ToolChoice::Allowed`] or
    /// [`ToolChoice::NoCalls`] over editing the array.
    pub tool_choice: ToolChoice,
    /// A routing hint that groups requests sharing a prefix onto the same machine. Not part of
    /// content identity.
    pub prompt_cache_key: Option<String>,
    /// Upper bound on generated tokens, reasoning included. `None` leaves the model free up to
    /// the context window.
    pub max_output_tokens: Option<u32>,
    /// How the response comes back, and, inseparably, what the stream carries.
    pub transport: Transport,
    /// Whether OpenAI stores the response for later retrieval. Always sent, carrying OpenAI's
    /// documented behavior.
    pub store: bool,
    /// Per-request instructions that will not be cached.
    pub instructions: Option<UncacheableInstructions>,
    /// Extra output to send back that the response otherwise omits. Empty by default and then
    /// absent from the body. [`Self::including`] introduces no duplicates.
    pub includes: Vec<Include>,
    /// Which processing pool serves the request. `None` leaves the choice to the project.
    pub service_tier: Option<ServiceTier>,
    /// The caller's own key-value pairs, stored on the response and queryable later.
    pub metadata: Option<Metadata>,
    /// A stable pseudonymous identifier for the end user, so OpenAI can detect abuse without
    /// the caller sending anything identifying.
    pub safety_identifier: Option<String>,
    /// What to do when the input exceeds the context window. `None` leaves the documented
    /// default, which fails the request.
    pub truncation: Option<Truncation>,
    /// A cap on how many built-in tool calls one response may make.
    pub max_tool_calls: Option<u32>,
    /// Whether OpenAI generates the response asynchronously, so the caller polls rather than
    /// holding a socket open for the whole answer.
    pub background: bool,
}

/// What asking for a request over so many breakpoints comes to: an error, or nothing.
pub open spec fn refusal(model: Model, placed: nat) -> Option<RequestErrorView> {
    if placed > 0 && !model.identity().honors_breakpoints() {
        Some(
            RequestErrorView::ExplicitBreakpointsUnsupported {
                model: model.identity().wire(),
                placed,
            },
        )
    } else if placed > CacheWriteBudget::allowed(model).explicit_slots {
        Some(
            RequestErrorView::TooManyExplicitBreakpoints {
                placed,
                budget: CacheWriteBudget::allowed(model).explicit_slots as nat,
            },
        )
    } else {
        None
    }
}

/// A request is refused exactly when its breakpoints exceed what its model and caching mode
/// may write, and one that is not refused writes at most four cache entries, OpenAI's own
/// among them.
pub proof fn a_request_is_refused_exactly_over_budget(model: Model, placed: nat)
    ensures
        refusal(model, placed) is None <==> placed <= CacheWriteBudget::allowed(
            model,
        ).explicit_slots,
        refusal(model, placed) is None ==> placed + if CacheWriteBudget::allowed(
            model,
        ).implicit_breakpoint {
            1int
        } else {
            0int
        } <= CACHE_WRITE_SLOTS,
{
}

/// The list with one more entry, unless it is there already.
pub open spec fn including_once(entries: Seq<Include>, entry: Include) -> Seq<Include> {
    if entries.contains(entry) {
        entries
    } else {
        entries.push(entry)
    }
}

/// The list without an entry.
pub open spec fn without(entries: Seq<Include>, entry: Include) -> Seq<Include>
    decreases entries.len(),
{
    if entries.len() == 0 {
        Seq::empty()
    } else if entries.last() == entry {
        without(entries.drop_last(), entry)
    } else {
        without(entries.drop_last(), entry).push(entries.last())
    }
}

fn listed(entries: &Vec<Include>, entry: Include) -> (r: bool)
    ensures
        r == entries@.contains(entry),
{
    let mut i: usize = 0;
    while i < entries.len()
        invariant
            i <= entries.len(),
            forall|j: int| 0 <= j < i ==> #[trigger] entries@[j] != entry,
        decreases entries.len() - i,
    {
        if entries[i] == entry {
            return true;
        }
        i += 1;
    }
    false
}

impl<'a> Request<'a> {
    /// The single construction path, so its checks cannot be skipped.
    ///
    /// It validates what the type system cannot: that the context's explicit breakpoints fit
    /// the budget this model and caching mode allow, and that the model honors explicit
    /// breakpoints at all.
    pub fn new(context: &'a Context, prefix: PrefixSettings) -> (outcome: Result<
        Self,
        RequestError,
    >)
        requires
            context@.wf(),
        ensures
            match refusal(prefix.model, context::filled(context@.slots)) {
                Some(error) => outcome matches Err(refused) && refused@ == error,
                None => outcome matches Ok(request) && request.fresh(context, prefix),
            },
    {
        let placed: usize = context.breakpoint_count();
        let budget = CacheWriteBudget::of(&prefix.model);
        if placed > 0 && !prefix.model.id().supports_explicit_cache_breakpoints() {
            return Err(
                RequestError::ExplicitBreakpointsUnsupported {
                    model: prefix.model.api_id(),
                    placed,
                },
            );
        }
        if placed > budget.explicit_slots {
            return Err(
                RequestError::TooManyExplicitBreakpoints { placed, budget: budget.explicit_slots },
            );
        }
        Ok(
            Self {
                context,
                prefix,
                tool_choice: ToolChoice::default(),
                prompt_cache_key: None,
                max_output_tokens: None,
                transport: Transport::Buffered,
                store: true,
                instructions: None,
                includes: Vec::new(),
                service_tier: None,
                metadata: None,
                safety_identifier: None,
                truncation: None,
                max_tool_calls: None,
                background: false,
            },
        )
    }

    /// Whether this is a request with every choice left at its documented default.
    pub open spec fn fresh(self, context: &Context, prefix: PrefixSettings) -> bool {
        &&& self.context == context
        &&& self.prefix == prefix
        &&& self.tool_choice is Auto
        &&& self.prompt_cache_key is None
        &&& self.max_output_tokens is None
        &&& self.transport == Transport::Buffered
        &&& self.store
        &&& self.instructions is None
        &&& self.includes@.len() == 0
        &&& self.service_tier is None
        &&& self.metadata is None
        &&& self.safety_identifier is None
        &&& self.truncation is None
        &&& self.max_tool_calls is None
        &&& !self.background
    }

    /// Cap generated tokens, reasoning included.
    ///
    /// Validated here, against this model's maximum, because the bound is a fact about the
    /// model and `0` is refused outright.
    pub fn with_max_output_tokens(self, max_output_tokens: u32) -> (outcome: Result<
        Self,
        RequestError,
    >)
        ensures
            if 1 <= max_output_tokens <= 128_000 {
                outcome == Ok::<Self, RequestError>(
                    Request { max_output_tokens: Some(max_output_tokens), ..self },
                )
            } else {
                outcome matches Err(error) && error@ == (
                RequestErrorView::MaxOutputTokensOutOfRange {
                    max_output_tokens,
                    model_maximum: 128_000,
                })
            },
    {
        let model_maximum: u32 = self.prefix.model.id().max_output_tokens();
        if max_output_tokens == 0 || max_output_tokens > model_maximum {
            return Err(
                RequestError::MaxOutputTokensOutOfRange { max_output_tokens, model_maximum },
            );
        }
        Ok(Self { max_output_tokens: Some(max_output_tokens), ..self })
    }

    /// Restrict what may be called this turn.
    pub fn with_tool_choice(self, tool_choice: ToolChoice) -> (request: Self)
        ensures
            request == (Request { tool_choice, ..self }),
    {
        Self { tool_choice, ..self }
    }

    /// Set the routing hint.
    pub fn with_prompt_cache_key(self, key: &str) -> (request: Self)
        ensures
            request == (Request { prompt_cache_key: request.prompt_cache_key, ..self }),
            views::option_view(request.prompt_cache_key) == Some(key@),
    {
        Self { prompt_cache_key: Some(key.to_owned()), ..self }
    }

    /// Stream the response as server-sent events, saying nothing about obfuscation and so leaving
    /// OpenAI's default of sending it.
    pub fn streaming(self) -> (request: Self)
        ensures
            request == (Request { transport: Transport::Streamed { include_obfuscation: None }, ..self }),
    {
        Self { transport: Transport::Streamed { include_obfuscation: None }, ..self }
    }

    /// Stream, and state whether the deltas carry `obfuscation` padding.
    pub fn streaming_with_obfuscation(self, include_obfuscation: bool) -> (request: Self)
        ensures
            request == (Request { transport: Transport::Streamed { include_obfuscation: Some(include_obfuscation) }, ..self }),
    {
        Self { transport: Transport::Streamed { include_obfuscation: Some(include_obfuscation) }, ..self }
    }

    /// Return the whole response in one body rather than streaming it.
    pub fn without_streaming(self) -> (request: Self)
        ensures
            request == (Request { transport: Transport::Buffered, ..self }),
    {
        Self { transport: Transport::Buffered, ..self }
    }

    /// Whether this request asks for a stream.
    pub fn is_streaming(&self) -> (r: bool)
        ensures
            r == (self.transport is Streamed),
    {
        match self.transport {
            Transport::Streamed { .. } => true,
            Transport::Buffered => false,
        }
    }

    /// Ask OpenAI not to store the response. Reasoning items then arrive with
    /// `encrypted_content`, so they can still be replayed.
    pub fn without_storage(self) -> (request: Self)
        ensures
            request == (Request { store: false, ..self }),
    {
        Self { store: false, ..self }
    }

    /// Let OpenAI store the response for later retrieval, its documented behavior.
    pub fn with_storage(self) -> (request: Self)
        ensures
            request == (Request { store: true, ..self }),
    {
        Self { store: true, ..self }
    }

    /// Add per-request instructions that are deliberately outside the reusable prefix.
    pub fn with_instructions(self, instructions: UncacheableInstructions) -> (request: Self)
        ensures
            request == (Request { instructions: Some(instructions), ..self }),
    {
        Self { instructions: Some(instructions), ..self }
    }

    /// Ask for one extra piece of output, unless it was already asked for.
    pub fn including(self, entry: Include) -> (request: Self)
        ensures
            request == (Request { includes: request.includes, ..self }),
            request.includes@ == including_once(self.includes@, entry),
    {
        let mut request = self;
        if !listed(&request.includes, entry) {
            request.includes.push(entry);
        }
        request
    }

    /// Stop asking for one extra piece of output.
    pub fn excluding(self, entry: Include) -> (request: Self)
        ensures
            request == (Request { includes: request.includes, ..self }),
            request.includes@ == without(self.includes@, entry),
    {
        let ghost all = self.includes@;
        let mut kept: Vec<Include> = Vec::new();
        let mut i: usize = 0;
        assert(all.take(0) =~= Seq::<Include>::empty());
        while i < self.includes.len()
            invariant
                i <= self.includes.len(),
                all == self.includes@,
                kept@ == without(all.take(i as int), entry),
            decreases self.includes.len() - i,
        {
            assert(all.take(i + 1).drop_last() =~= all.take(i as int));
            assert(all.take(i + 1).last() == self.includes@[i as int]);
            if self.includes[i] != entry {
                kept.push(self.includes[i]);
            }
            i += 1;
        }
        assert(all.take(i as int) =~= all);
        Self { includes: kept, ..self }
    }

    /// Ask for the reasoning payload that makes a reasoning item replayable: the one entry a
    /// stateless multi-turn caller needs.
    pub fn with_replayable_reasoning(self) -> (request: Self)
        ensures
            request == (Request { includes: request.includes, ..self }),
            request.includes@ == including_once(
                self.includes@,
                Include::ReasoningEncryptedContent,
            ),
    {
        self.including(Include::ReasoningEncryptedContent)
    }

    /// Choose the processing pool.
    pub fn with_service_tier(self, service_tier: ServiceTier) -> (request: Self)
        ensures
            request == (Request { service_tier: Some(service_tier), ..self }),
    {
        Self { service_tier: Some(service_tier), ..self }
    }

    /// Leave the pool to the project's configuration, sending no `service_tier`.
    pub fn without_service_tier(self) -> (request: Self)
        ensures
            request == (Request { service_tier: None, ..self }),
    {
        Self { service_tier: None, ..self }
    }

    /// Attach the caller's own key-value pairs. An empty map is no metadata, so it is stored as
    /// absence rather than as `{}`.
    pub fn with_metadata(self, metadata: Metadata) -> (request: Self)
        ensures
            request == (Request {
                metadata: if metadata@.len() == 0 {
                    None
                } else {
                    Some(metadata)
                },
                ..self
            }),
    {
        let held = if metadata.is_empty() {
            None
        } else {
            Some(metadata)
        };
        Self { metadata: held, ..self }
    }

    /// Send no metadata.
    pub fn without_metadata(self) -> (request: Self)
        ensures
            request == (Request { metadata: None, ..self }),
    {
        Self { metadata: None, ..self }
    }

    /// Attribute the request to a pseudonymous end user. Hash the real identifier before calling
    /// this.
    pub fn with_safety_identifier(self, identifier: &str) -> (request: Self)
        ensures
            request == (Request { safety_identifier: request.safety_identifier, ..self }),
            views::option_view(request.safety_identifier) == Some(identifier@),
    {
        Self { safety_identifier: Some(identifier.to_owned()), ..self }
    }

    /// Send no safety identifier.
    pub fn without_safety_identifier(self) -> (request: Self)
        ensures
            request == (Request { safety_identifier: None, ..self }),
    {
        Self { safety_identifier: None, ..self }
    }

    /// Choose what an over-long input does.
    pub fn with_truncation(self, truncation: Truncation) -> (request: Self)
        ensures
            request == (Request { truncation: Some(truncation), ..self }),
    {
        Self { truncation: Some(truncation), ..self }
    }

    /// Leave the documented default, which fails an over-long input outright.
    pub fn without_truncation(self) -> (request: Self)
        ensures
            request == (Request { truncation: None, ..self }),
    {
        Self { truncation: None, ..self }
    }

    /// Cap how many hosted-tool calls one response may make.
    pub fn with_max_tool_calls(self, max_tool_calls: u32) -> (request: Self)
        ensures
            request == (Request { max_tool_calls: Some(max_tool_calls), ..self }),
    {
        Self { max_tool_calls: Some(max_tool_calls), ..self }
    }

    /// Lift the hosted-tool call cap.
    pub fn without_max_tool_calls(self) -> (request: Self)
        ensures
            request == (Request { max_tool_calls: None, ..self }),
    {
        Self { max_tool_calls: None, ..self }
    }

    /// Generate the response asynchronously, so it is polled for rather than waited on.
    pub fn in_background(self) -> (request: Self)
        ensures
            request == (Request { background: true, ..self }),
    {
        Self { background: true, ..self }
    }

    /// Generate the response on this request, the documented behavior.
    pub fn in_foreground(self) -> (request: Self)
        ensures
            request == (Request { background: false, ..self }),
    {
        Self { background: false, ..self }
    }

    /// The cache-write budget this request runs under.
    pub fn cache_write_budget(&self) -> (budget: CacheWriteBudget)
        ensures
            budget == CacheWriteBudget::allowed(self.prefix.model),
    {
        CacheWriteBudget::of(&self.prefix.model)
    }
}

/// Asking twice for one piece of output is asking once.
pub proof fn including_is_idempotent(entries: Seq<Include>, entry: Include)
    ensures
        including_once(including_once(entries, entry), entry) == including_once(entries, entry),
        including_once(entries, entry).contains(entry),
        entries.no_duplicates() ==> including_once(entries, entry).no_duplicates(),
{
    let after = including_once(entries, entry);
    if !entries.contains(entry) {
        assert(after.last() == entry);
        if entries.no_duplicates() {
            assert forall|i: int, j: int|
                0 <= i < after.len() && 0 <= j < after.len() && i != j implies after[i]
                != after[j] by {
                if i < entries.len() && j < entries.len() {
                } else if i < entries.len() {
                    assert(entries.contains(after[i]));
                } else {
                    assert(entries.contains(after[j]));
                }
            }
        }
    }
}

/// Taking an entry out leaves the others, in order, and none of it.
pub proof fn excluding_takes_every_copy(entries: Seq<Include>, entry: Include)
    ensures
        !without(entries, entry).contains(entry),
        !entries.contains(entry) ==> without(entries, entry) == entries,
    decreases entries.len(),
{
    if entries.len() > 0 {
        let before = entries.drop_last();
        excluding_takes_every_copy(before, entry);
        if entries.last() != entry {
            let kept = without(entries, entry);
            assert forall|i: int| 0 <= i < kept.len() implies kept[i] != entry by {
                if i < kept.len() - 1 {
                    assert(without(before, entry).contains(kept[i]));
                }
            }
        }
        if !entries.contains(entry) {
            assert forall|i: int| 0 <= i < before.len() implies before[i] != entry by {
                assert(entries.contains(before[i])) by {
                    assert(entries[i] == before[i]);
                }
            }
            assert(entries.contains(entries.last()));
            assert(before.push(entries.last()) =~= entries);
        }
    } else {
        assert(entries =~= Seq::<Include>::empty());
    }
}

/// Excluding undoes including, where the entry was not asked for before.
pub proof fn excluding_undoes_including(entries: Seq<Include>, entry: Include)
    requires
        !entries.contains(entry),
    ensures
        without(including_once(entries, entry), entry) == entries,
{
    excluding_takes_every_copy(entries, entry);
    assert(entries.push(entry).drop_last() =~= entries);
}

} // verus!
