//! One type per accepted-parameter set, plus the facts each model carries.
//!
//! The type boundary follows the parameter set, not the model name: which reasoning
//! efforts a model accepts, which field controls its cache lifetime, and whether explicit
//! cache breakpoints exist on it at all. The three GPT-5.6 tiers accept the same parameters
//! and share one type; the others each have their own.
//!
//! A parameter the API documents no default for starts absent: "told a level" and "not
//! told" are two states, and the crate chooses neither.
use vstd::prelude::*;

use crate::values::{
    CacheMode, CacheRetention, CacheTtl, ReasoningContext, ReasoningEffort, ReasoningMode,
};

pub use crate::model::gpt6_sol::{Gpt6Sol, Gpt6SolCaching};

pub mod gpt6_sol;

verus! {

/// The reasoning efforts GPT-5.6 models accept. `max` exists only here.
#[derive(Debug, Clone, Copy, PartialEq, Eq, PartialOrd, Ord, Hash, Structural)]
pub enum EffortNoneToMax {
    /// No reasoning tokens.
    NoReasoning,
    /// Modest reasoning.
    Low,
    /// Balanced reasoning.
    Medium,
    /// Deeper reasoning.
    High,
    /// Long runs.
    Xhigh,
    /// The most reasoning available.
    Max,
}

impl EffortNoneToMax {
    /// The string that names this value on the wire.
    pub open spec fn wire(self) -> Seq<char> {
        match self {
            EffortNoneToMax::NoReasoning => "none"@,
            EffortNoneToMax::Low => "low"@,
            EffortNoneToMax::Medium => "medium"@,
            EffortNoneToMax::High => "high"@,
            EffortNoneToMax::Xhigh => "xhigh"@,
            EffortNoneToMax::Max => "max"@,
        }
    }

    /// The exact string this variant serializes to.
    pub fn as_str(self) -> (s: &'static str)
        ensures
            s@ == self.wire(),
    {
        match self {
            EffortNoneToMax::NoReasoning => "none",
            EffortNoneToMax::Low => "low",
            EffortNoneToMax::Medium => "medium",
            EffortNoneToMax::High => "high",
            EffortNoneToMax::Xhigh => "xhigh",
            EffortNoneToMax::Max => "max",
        }
    }

    /// No two values share a string.
    pub proof fn wire_is_one_to_one(a: EffortNoneToMax, b: EffortNoneToMax)
        requires
            a.wire() == b.wire(),
        ensures
            a == b,
    {
        reveal_strlit("none");
        reveal_strlit("low");
        reveal_strlit("medium");
        reveal_strlit("high");
        reveal_strlit("xhigh");
        reveal_strlit("max");
        assert("none"@.len() == 4);
        assert("low"@.len() == 3);
        assert("medium"@.len() == 6);
        assert("high"@.len() == 4);
        assert("xhigh"@.len() == 5);
        assert("max"@.len() == 3);
        assert("none"@[0] == 'n');
        assert("low"@[0] == 'l');
        assert("high"@[0] == 'h');
        assert("max"@[0] == 'm');
    }
}

/// The reasoning efforts GPT-5.5 and GPT-5.4 accept. `max` is absent because those models
/// refuse it, so it cannot be written.
#[derive(Debug, Clone, Copy, PartialEq, Eq, PartialOrd, Ord, Hash, Structural)]
pub enum EffortNoneToXhigh {
    /// No reasoning tokens.
    NoReasoning,
    /// Modest reasoning.
    Low,
    /// Balanced reasoning.
    Medium,
    /// Deeper reasoning.
    High,
    /// Long runs.
    Xhigh,
}

impl EffortNoneToXhigh {
    /// The string that names this value on the wire.
    pub open spec fn wire(self) -> Seq<char> {
        match self {
            EffortNoneToXhigh::NoReasoning => "none"@,
            EffortNoneToXhigh::Low => "low"@,
            EffortNoneToXhigh::Medium => "medium"@,
            EffortNoneToXhigh::High => "high"@,
            EffortNoneToXhigh::Xhigh => "xhigh"@,
        }
    }

    /// The exact string this variant serializes to.
    pub fn as_str(self) -> (s: &'static str)
        ensures
            s@ == self.wire(),
    {
        match self {
            EffortNoneToXhigh::NoReasoning => "none",
            EffortNoneToXhigh::Low => "low",
            EffortNoneToXhigh::Medium => "medium",
            EffortNoneToXhigh::High => "high",
            EffortNoneToXhigh::Xhigh => "xhigh",
        }
    }

    /// No two values share a string.
    pub proof fn wire_is_one_to_one(a: EffortNoneToXhigh, b: EffortNoneToXhigh)
        requires
            a.wire() == b.wire(),
        ensures
            a == b,
    {
        reveal_strlit("none");
        reveal_strlit("low");
        reveal_strlit("medium");
        reveal_strlit("high");
        reveal_strlit("xhigh");
        assert("none"@.len() == 4);
        assert("low"@.len() == 3);
        assert("medium"@.len() == 6);
        assert("high"@.len() == 4);
        assert("xhigh"@.len() == 5);
        assert("none"@[0] == 'n');
        assert("high"@[0] == 'h');
    }
}

/// The reasoning efforts GPT-5.5 Pro accepts. Pro always reasons, so `none` and `low` are
/// absent rather than rejected at runtime.
#[derive(Debug, Clone, Copy, PartialEq, Eq, PartialOrd, Ord, Hash, Structural)]
pub enum EffortMediumToXhigh {
    /// The least reasoning Pro offers.
    Medium,
    /// The Pro default.
    High,
    /// Long runs.
    Xhigh,
}

impl EffortMediumToXhigh {
    /// The string that names this value on the wire.
    pub open spec fn wire(self) -> Seq<char> {
        match self {
            EffortMediumToXhigh::Medium => "medium"@,
            EffortMediumToXhigh::High => "high"@,
            EffortMediumToXhigh::Xhigh => "xhigh"@,
        }
    }

    /// The exact string this variant serializes to.
    pub fn as_str(self) -> (s: &'static str)
        ensures
            s@ == self.wire(),
    {
        match self {
            EffortMediumToXhigh::Medium => "medium",
            EffortMediumToXhigh::High => "high",
            EffortMediumToXhigh::Xhigh => "xhigh",
        }
    }

    /// No two values share a string.
    pub proof fn wire_is_one_to_one(a: EffortMediumToXhigh, b: EffortMediumToXhigh)
        requires
            a.wire() == b.wire(),
        ensures
            a == b,
    {
        reveal_strlit("medium");
        reveal_strlit("high");
        reveal_strlit("xhigh");
        assert("medium"@.len() == 6);
        assert("high"@.len() == 4);
        assert("xhigh"@.len() == 5);
    }
}

/// `prompt_cache_retention` on models where only extended retention is supported. One
/// variant, because `in_memory` is refused on these models.
#[derive(Debug, Clone, Copy, PartialEq, Eq, PartialOrd, Ord, Hash, Structural)]
pub enum ExtendedRetentionOnly {
    /// Up to 24 hours.
    TwentyFourHours,
}

impl ExtendedRetentionOnly {
    /// The string that names this value on the wire.
    pub open spec fn wire(self) -> Seq<char> {
        match self {
            ExtendedRetentionOnly::TwentyFourHours => "24h"@,
        }
    }

    /// The exact string this variant serializes to.
    pub fn as_str(self) -> (s: &'static str)
        ensures
            s@ == self.wire(),
    {
        match self {
            ExtendedRetentionOnly::TwentyFourHours => "24h",
        }
    }
}

impl EffortNoneToMax {
    /// The effort in the shared vocabulary.
    pub open spec fn widened(self) -> ReasoningEffort {
        match self {
            EffortNoneToMax::NoReasoning => ReasoningEffort::NoReasoning,
            EffortNoneToMax::Low => ReasoningEffort::Low,
            EffortNoneToMax::Medium => ReasoningEffort::Medium,
            EffortNoneToMax::High => ReasoningEffort::High,
            EffortNoneToMax::Xhigh => ReasoningEffort::Xhigh,
            EffortNoneToMax::Max => ReasoningEffort::Max,
        }
    }

    /// The effort in the shared vocabulary.
    pub fn widen(self) -> (effort: ReasoningEffort)
        ensures
            effort == self.widened(),
    {
        match self {
            EffortNoneToMax::NoReasoning => ReasoningEffort::NoReasoning,
            EffortNoneToMax::Low => ReasoningEffort::Low,
            EffortNoneToMax::Medium => ReasoningEffort::Medium,
            EffortNoneToMax::High => ReasoningEffort::High,
            EffortNoneToMax::Xhigh => ReasoningEffort::Xhigh,
            EffortNoneToMax::Max => ReasoningEffort::Max,
        }
    }

    /// Widening keeps the wire string.
    pub proof fn widening_keeps_the_string(effort: Self)
        ensures
            effort.widened().wire() == effort.wire(),
    {
    }
}

impl EffortNoneToXhigh {
    /// The effort in the shared vocabulary.
    pub open spec fn widened(self) -> ReasoningEffort {
        match self {
            EffortNoneToXhigh::NoReasoning => ReasoningEffort::NoReasoning,
            EffortNoneToXhigh::Low => ReasoningEffort::Low,
            EffortNoneToXhigh::Medium => ReasoningEffort::Medium,
            EffortNoneToXhigh::High => ReasoningEffort::High,
            EffortNoneToXhigh::Xhigh => ReasoningEffort::Xhigh,
        }
    }

    /// The effort in the shared vocabulary.
    pub fn widen(self) -> (effort: ReasoningEffort)
        ensures
            effort == self.widened(),
    {
        match self {
            EffortNoneToXhigh::NoReasoning => ReasoningEffort::NoReasoning,
            EffortNoneToXhigh::Low => ReasoningEffort::Low,
            EffortNoneToXhigh::Medium => ReasoningEffort::Medium,
            EffortNoneToXhigh::High => ReasoningEffort::High,
            EffortNoneToXhigh::Xhigh => ReasoningEffort::Xhigh,
        }
    }

    /// Widening keeps the wire string.
    pub proof fn widening_keeps_the_string(effort: Self)
        ensures
            effort.widened().wire() == effort.wire(),
    {
    }
}

impl EffortMediumToXhigh {
    /// The effort in the shared vocabulary.
    pub open spec fn widened(self) -> ReasoningEffort {
        match self {
            EffortMediumToXhigh::Medium => ReasoningEffort::Medium,
            EffortMediumToXhigh::High => ReasoningEffort::High,
            EffortMediumToXhigh::Xhigh => ReasoningEffort::Xhigh,
        }
    }

    /// The effort in the shared vocabulary.
    pub fn widen(self) -> (effort: ReasoningEffort)
        ensures
            effort == self.widened(),
    {
        match self {
            EffortMediumToXhigh::Medium => ReasoningEffort::Medium,
            EffortMediumToXhigh::High => ReasoningEffort::High,
            EffortMediumToXhigh::Xhigh => ReasoningEffort::Xhigh,
        }
    }

    /// Widening keeps the wire string.
    pub proof fn widening_keeps_the_string(effort: Self)
        ensures
            effort.widened().wire() == effort.wire(),
    {
    }
}

/// Which GPT-5.6 tier to route to. The tiers accept identical parameters and differ only in
/// price.
#[derive(Debug, Clone, Copy, PartialEq, Eq, Hash, Structural)]
pub enum Gpt5_6Tier {
    /// Flagship: the `gpt-5.6` alias points here.
    Sol,
    /// Balanced intelligence and cost.
    Terra,
    /// Cost-sensitive, high-volume workloads.
    Luna,
}

/// `prompt_cache_options`, the caching control of GPT-5.6 and later.
///
/// The mode is not cosmetic: `Implicit` spends one of the four per-request cache-write slots
/// on a breakpoint OpenAI places for you, leaving three for your own.
#[derive(Debug, Clone, Copy, PartialEq, Eq, Structural)]
pub struct Gpt5_6Caching {
    /// Whether OpenAI adds its own breakpoint at the end of the latest eligible message.
    pub mode: CacheMode,
    /// Minimum lifetime of every breakpoint this request writes.
    pub ttl: CacheTtl,
}

impl Gpt5_6Caching {
    /// The API's own defaults.
    pub open spec fn documented() -> Self {
        Gpt5_6Caching { mode: CacheMode::Implicit, ttl: CacheTtl::ThirtyMinutes }
    }
}

impl Default for Gpt5_6Caching {
    /// The API's own defaults: an implicit breakpoint, 30-minute minimum life.
    fn default() -> (caching: Self)
        ensures
            caching == Self::documented(),
    {
        Self { mode: CacheMode::Implicit, ttl: CacheTtl::ThirtyMinutes }
    }
}

/// GPT-5.6 Sol, Terra, or Luna.
///
/// Carries `reasoning.mode` and `reasoning.context`, which earlier models do not accept, and
/// [`Gpt5_6Caching`] rather than a retention policy.
#[derive(Debug, Clone, Copy, PartialEq, Eq, Structural)]
pub struct Gpt5_6 {
    /// Which tier to route to.
    pub tier: Gpt5_6Tier,
    /// How much the model reasons before answering, when the caller says.
    pub effort: Option<EffortNoneToMax>,
    /// Standard or Pro execution, independent of effort, when the caller says.
    pub mode: Option<ReasoningMode>,
    /// Which earlier reasoning is rendered into this turn.
    pub reasoning_context: ReasoningContext,
    /// Breakpoint mode and minimum cache lifetime.
    pub caching: Gpt5_6Caching,
}

impl Gpt5_6 {
    /// The documented defaults, and nothing the API does not document: no effort, no mode,
    /// `auto` context, implicit caching at `30m`.
    pub fn new(tier: Gpt5_6Tier) -> (model: Self)
        ensures
            model == (Gpt5_6 {
                tier,
                effort: None,
                mode: None,
                reasoning_context: ReasoningContext::Auto,
                caching: Gpt5_6Caching::documented(),
            }),
    {
        Self {
            tier,
            effort: None,
            mode: None,
            reasoning_context: ReasoningContext::Auto,
            caching: Gpt5_6Caching::default(),
        }
    }

    /// Set the reasoning effort.
    pub fn with_effort(self, effort: EffortNoneToMax) -> (model: Self)
        ensures
            model == (Gpt5_6 { effort: Some(effort), ..self }),
    {
        Self { effort: Some(effort), ..self }
    }

    /// Leave `reasoning.effort` unsent.
    pub fn without_effort(self) -> (model: Self)
        ensures
            model == (Gpt5_6 { effort: None, ..self }),
    {
        Self { effort: None, ..self }
    }

    /// Select standard or Pro execution.
    pub fn with_mode(self, mode: ReasoningMode) -> (model: Self)
        ensures
            model == (Gpt5_6 { mode: Some(mode), ..self }),
    {
        Self { mode: Some(mode), ..self }
    }

    /// Choose which earlier reasoning the model may render.
    pub fn with_reasoning_context(self, context: ReasoningContext) -> (model: Self)
        ensures
            model == (Gpt5_6 { reasoning_context: context, ..self }),
    {
        Self { reasoning_context: context, ..self }
    }

    /// Turn off OpenAI's implicit breakpoint, freeing all four write slots for breakpoints
    /// you place yourself. With no explicit breakpoint placed, a request in this mode uses no
    /// caching at all.
    pub fn with_explicit_cache_only(self) -> (model: Self)
        ensures
            model == (Gpt5_6 {
                caching: Gpt5_6Caching { mode: CacheMode::Explicit, ttl: self.caching.ttl },
                ..self
            }),
    {
        Self {
            caching: Gpt5_6Caching { mode: CacheMode::Explicit, ttl: self.caching.ttl },
            ..self
        }
    }
}

/// GPT-5.5. No explicit breakpoints, no `max` effort, and extended retention is the only
/// retention this model accepts.
#[derive(Debug, Clone, Copy, PartialEq, Eq, Structural)]
pub struct Gpt5_5 {
    /// How much the model reasons before answering, when the caller says.
    pub effort: Option<EffortNoneToXhigh>,
    /// Maximum cache retention. `in_memory` is refused on this model, so it is not expressible.
    pub retention: ExtendedRetentionOnly,
}

impl Default for Gpt5_5 {
    /// No effort stated.
    fn default() -> (model: Self)
        ensures
            model == (Gpt5_5 { effort: None, retention: ExtendedRetentionOnly::TwentyFourHours }),
    {
        Self { effort: None, retention: ExtendedRetentionOnly::TwentyFourHours }
    }
}

impl Gpt5_5 {
    /// Default parameters. Chain `with_*` to change them.
    pub fn new() -> (model: Self)
        ensures
            model == (Gpt5_5 { effort: None, retention: ExtendedRetentionOnly::TwentyFourHours }),
    {
        Self::default()
    }

    /// Set the reasoning effort.
    pub fn with_effort(self, effort: EffortNoneToXhigh) -> (model: Self)
        ensures
            model == (Gpt5_5 { effort: Some(effort), ..self }),
    {
        Self { effort: Some(effort), ..self }
    }

    /// Leave `reasoning.effort` unsent.
    pub fn without_effort(self) -> (model: Self)
        ensures
            model == (Gpt5_5 { effort: None, ..self }),
    {
        Self { effort: None, ..self }
    }
}

/// GPT-5.5 Pro. Responses-only, always reasoning, and billed with no cached discount.
#[derive(Debug, Clone, Copy, PartialEq, Eq, Structural)]
pub struct Gpt5_5Pro {
    /// How much the model reasons, when the caller says. `none` and `low` do not exist here.
    pub effort: Option<EffortMediumToXhigh>,
    /// Maximum cache retention.
    pub retention: ExtendedRetentionOnly,
}

impl Default for Gpt5_5Pro {
    /// No effort stated.
    fn default() -> (model: Self)
        ensures
            model == (Gpt5_5Pro { effort: None, retention: ExtendedRetentionOnly::TwentyFourHours }),
    {
        Self { effort: None, retention: ExtendedRetentionOnly::TwentyFourHours }
    }
}

impl Gpt5_5Pro {
    /// Default parameters. Chain `with_*` to change them.
    pub fn new() -> (model: Self)
        ensures
            model == (Gpt5_5Pro { effort: None, retention: ExtendedRetentionOnly::TwentyFourHours }),
    {
        Self::default()
    }

    /// Set the reasoning effort.
    pub fn with_effort(self, effort: EffortMediumToXhigh) -> (model: Self)
        ensures
            model == (Gpt5_5Pro { effort: Some(effort), ..self }),
    {
        Self { effort: Some(effort), ..self }
    }

    /// Leave `reasoning.effort` unsent.
    pub fn without_effort(self) -> (model: Self)
        ensures
            model == (Gpt5_5Pro { effort: None, ..self }),
    {
        Self { effort: None, ..self }
    }
}

/// GPT-5.4. The one modeled generation that accepts both retention policies.
#[derive(Debug, Clone, Copy, PartialEq, Eq, Structural)]
pub struct Gpt5_4 {
    /// How much the model reasons before answering, when the caller says.
    pub effort: Option<EffortNoneToXhigh>,
    /// Maximum cache retention, when the caller says. Its default is the organization's own
    /// data-retention policy, so an unstated one is not sent.
    pub retention: Option<CacheRetention>,
}

impl Default for Gpt5_4 {
    /// No effort stated.
    fn default() -> (model: Self)
        ensures
            model == (Gpt5_4 { effort: None, retention: None }),
    {
        Self { effort: None, retention: None }
    }
}

impl Gpt5_4 {
    /// Default parameters. Chain `with_*` to change them.
    pub fn new() -> (model: Self)
        ensures
            model == (Gpt5_4 { effort: None, retention: None }),
    {
        Self::default()
    }

    /// Set the reasoning effort.
    pub fn with_effort(self, effort: EffortNoneToXhigh) -> (model: Self)
        ensures
            model == (Gpt5_4 { effort: Some(effort), ..self }),
    {
        Self { effort: Some(effort), ..self }
    }

    /// Leave `reasoning.effort` unsent.
    pub fn without_effort(self) -> (model: Self)
        ensures
            model == (Gpt5_4 { effort: None, ..self }),
    {
        Self { effort: None, ..self }
    }

    /// Set the maximum retention policy.
    pub fn with_retention(self, retention: CacheRetention) -> (model: Self)
        ensures
            model == (Gpt5_4 { retention: Some(retention), ..self }),
    {
        Self { retention: Some(retention), ..self }
    }

    /// Leave `prompt_cache_retention` unsent.
    pub fn without_retention(self) -> (model: Self)
        ensures
            model == (Gpt5_4 { retention: None, ..self }),
    {
        Self { retention: None, ..self }
    }
}

/// A model's identity, without per-call parameters. Everything here is a documented fact
/// about the model rather than something the caller chooses.
#[derive(Debug, Clone, Copy, PartialEq, Eq, Hash, Structural)]
pub enum ModelId {
    /// `gpt-5.6-sol`.
    Gpt5_6Sol,
    /// `gpt-5.6-terra`.
    Gpt5_6Terra,
    /// `gpt-5.6-luna`.
    Gpt5_6Luna,
    /// `gpt-5.5`.
    Gpt5_5,
    /// `gpt-5.5-pro`.
    Gpt5_5Pro,
    /// `gpt-5.4`.
    Gpt5_4,
    /// `gpt-6-sol`.
    Gpt6Sol,
}

/// List price, as an exact integer count of nanodollars per token.
///
/// Every published per-million-token price, and every cache multiplier applied to it, lands on
/// a whole nanodollar. Every field is a real rate: a model with no cached discount reports its
/// full input rate as the cached rate, and one with no cache-write surcharge its full input
/// rate as the write rate.
///
/// Not represented: the surcharge above 272K input tokens, batch and flex discounts, regional
/// uplift, and the fact that promotional prices expire.
#[derive(Debug, Clone, Copy, PartialEq, Eq, Structural)]
pub struct Pricing {
    /// Ordinary, uncached input tokens.
    pub input_nanodollars_per_token: u64,
    /// Tokens served from the cache.
    pub cached_input_nanodollars_per_token: u64,
    /// Tokens written to the cache.
    pub cache_write_nanodollars_per_token: u64,
    /// Generated tokens, reasoning tokens included.
    pub output_nanodollars_per_token: u64,
}

/// A calendar month. Knowledge cutoffs are published to the day, but the day is not a fact
/// anyone should depend on.
#[derive(Debug, Clone, Copy, PartialEq, Eq, PartialOrd, Ord, Structural)]
pub struct YearMonth {
    /// Four-digit year.
    pub year: u16,
    /// Month, 1 through 12.
    pub month: u8,
}

/// Rates in nanodollars per token, in the order input, cached, written, output.
pub open spec fn rates(input: u64, cached: u64, write: u64, output: u64) -> Pricing {
    Pricing {
        input_nanodollars_per_token: input,
        cached_input_nanodollars_per_token: cached,
        cache_write_nanodollars_per_token: write,
        output_nanodollars_per_token: output,
    }
}

impl ModelId {
    /// The string that names this model on the wire.
    pub open spec fn wire(self) -> Seq<char> {
        match self {
            ModelId::Gpt5_6Sol => "gpt-5.6-sol"@,
            ModelId::Gpt5_6Terra => "gpt-5.6-terra"@,
            ModelId::Gpt5_6Luna => "gpt-5.6-luna"@,
            ModelId::Gpt5_5 => "gpt-5.5"@,
            ModelId::Gpt5_5Pro => "gpt-5.5-pro"@,
            ModelId::Gpt5_4 => "gpt-5.4"@,
            ModelId::Gpt6Sol => "gpt-6-sol"@,
        }
    }

    /// No two models share a string.
    pub proof fn wire_is_one_to_one(a: ModelId, b: ModelId)
        requires
            a.wire() == b.wire(),
        ensures
            a == b,
    {
        reveal_strlit("gpt-5.6-sol");
        reveal_strlit("gpt-5.6-terra");
        reveal_strlit("gpt-5.6-luna");
        reveal_strlit("gpt-5.5");
        reveal_strlit("gpt-5.5-pro");
        reveal_strlit("gpt-5.4");
        reveal_strlit("gpt-6-sol");
        assert("gpt-5.6-sol"@.len() == 11);
        assert("gpt-5.6-terra"@.len() == 13);
        assert("gpt-5.6-luna"@.len() == 12);
        assert("gpt-5.5"@.len() == 7);
        assert("gpt-5.5-pro"@.len() == 11);
        assert("gpt-5.4"@.len() == 7);
        assert("gpt-6-sol"@.len() == 9);
        assert("gpt-5.6-sol"@[6] == '6');
        assert("gpt-5.5"@[6] == '5');
        assert("gpt-5.5-pro"@[6] == '5');
        assert("gpt-5.4"@[6] == '4');
    }

    /// Whether the model honors explicit cache breakpoints: GPT-5.6 introduced them.
    pub open spec fn honors_breakpoints(self) -> bool {
        match self {
            ModelId::Gpt5_6Sol
            | ModelId::Gpt5_6Terra
            | ModelId::Gpt5_6Luna
            | ModelId::Gpt6Sol => true,
            ModelId::Gpt5_5 | ModelId::Gpt5_5Pro | ModelId::Gpt5_4 => false,
        }
    }

    /// The model's list price.
    pub open spec fn list_price(self) -> Pricing {
        match self {
            // Cached reads at 0.1x, cache writes at 1.25x.
            ModelId::Gpt5_6Sol => rates(4_000, 400, 5_000, 20_000),
            ModelId::Gpt5_6Terra => rates(2_000, 200, 2_500, 12_000),
            ModelId::Gpt5_6Luna => rates(200, 20, 250, 1_200),
            ModelId::Gpt6Sol => rates(2_000, 200, 2_500, 10_000),
            // Earlier generations levy no cache-write charge.
            ModelId::Gpt5_5 => rates(5_000, 500, 5_000, 30_000),
            // Pro offers no cached discount.
            ModelId::Gpt5_5Pro => rates(30_000, 30_000, 30_000, 180_000),
            ModelId::Gpt5_4 => rates(2_500, 250, 2_500, 15_000),
        }
    }

    /// The string sent in the `model` field.
    pub fn api_id(self) -> (id: &'static str)
        ensures
            id@ == self.wire(),
    {
        match self {
            ModelId::Gpt5_6Sol => "gpt-5.6-sol",
            ModelId::Gpt5_6Terra => "gpt-5.6-terra",
            ModelId::Gpt5_6Luna => "gpt-5.6-luna",
            ModelId::Gpt5_5 => "gpt-5.5",
            ModelId::Gpt5_5Pro => "gpt-5.5-pro",
            ModelId::Gpt5_4 => "gpt-5.4",
            ModelId::Gpt6Sol => "gpt-6-sol",
        }
    }

    /// Whether `prompt_cache_breakpoint` does anything on this model.
    ///
    /// [`crate::request::Request::new`] refuses a context holding explicit breakpoints
    /// together with a model that ignores them.
    pub fn supports_explicit_cache_breakpoints(self) -> (r: bool)
        ensures
            r == self.honors_breakpoints(),
    {
        match self {
            ModelId::Gpt5_6Sol
            | ModelId::Gpt5_6Terra
            | ModelId::Gpt5_6Luna
            | ModelId::Gpt6Sol => true,
            ModelId::Gpt5_5 | ModelId::Gpt5_5Pro | ModelId::Gpt5_4 => false,
        }
    }

    /// Shortest visible prefix this model will cache, in tokens. Below it, caching is a
    /// silent no-op.
    pub fn min_cacheable_prefix_tokens(self) -> (n: u32)
        ensures
            n == if self.honors_breakpoints() {
                1_024u32
            } else {
                2_048u32
            },
    {
        if self.supports_explicit_cache_breakpoints() {
            1_024
        } else {
            2_048
        }
    }

    /// Total context window in tokens, shared by input and output.
    pub fn context_window_tokens(self) -> (n: u32)
        ensures
            n == 1_050_000,
    {
        1_050_000
    }

    /// Largest `max_output_tokens` this model accepts, reasoning tokens included.
    pub fn max_output_tokens(self) -> (n: u32)
        ensures
            n == 128_000,
    {
        128_000
    }

    /// How much of the context window input may take: what the largest output leaves.
    pub fn max_input_tokens(self) -> (n: u32)
        ensures
            n == 922_000,
    {
        self.context_window_tokens() - self.max_output_tokens()
    }

    /// The effort the model uses when a request states none.
    pub fn default_effort(self) -> (effort: ReasoningEffort)
        ensures
            effort == match self {
                ModelId::Gpt5_5Pro => ReasoningEffort::High,
                ModelId::Gpt5_4 => ReasoningEffort::NoReasoning,
                _ => ReasoningEffort::Medium,
            },
    {
        match self {
            ModelId::Gpt5_5Pro => ReasoningEffort::High,
            ModelId::Gpt5_4 => ReasoningEffort::NoReasoning,
            _ => ReasoningEffort::Medium,
        }
    }

    /// The month through which the model's knowledge is reliable.
    pub fn knowledge_cutoff(self) -> (month: YearMonth)
        ensures
            month == match self {
                ModelId::Gpt5_6Sol | ModelId::Gpt5_6Terra | ModelId::Gpt5_6Luna => YearMonth {
                    year: 2026,
                    month: 2,
                },
                ModelId::Gpt5_5 | ModelId::Gpt5_5Pro => YearMonth { year: 2025, month: 12 },
                ModelId::Gpt5_4 => YearMonth { year: 2025, month: 8 },
                ModelId::Gpt6Sol => YearMonth { year: 2026, month: 4 },
            },
    {
        match self {
            ModelId::Gpt5_6Sol | ModelId::Gpt5_6Terra | ModelId::Gpt5_6Luna => YearMonth {
                year: 2026,
                month: 2,
            },
            ModelId::Gpt5_5 | ModelId::Gpt5_5Pro => YearMonth { year: 2025, month: 12 },
            ModelId::Gpt5_4 => YearMonth { year: 2025, month: 8 },
            ModelId::Gpt6Sol => YearMonth { year: 2026, month: 4 },
        }
    }

    /// List price per token (see [`Pricing`] for what is not represented).
    pub fn pricing(self) -> (price: Pricing)
        ensures
            price == self.list_price(),
    {
        let (input, cached, write, output): (u64, u64, u64, u64) = match self {
            ModelId::Gpt5_6Sol => (4_000, 400, 5_000, 20_000),
            ModelId::Gpt5_6Terra => (2_000, 200, 2_500, 12_000),
            ModelId::Gpt5_6Luna => (200, 20, 250, 1_200),
            ModelId::Gpt6Sol => (2_000, 200, 2_500, 10_000),
            ModelId::Gpt5_5 => (5_000, 500, 5_000, 30_000),
            ModelId::Gpt5_5Pro => (30_000, 30_000, 30_000, 180_000),
            ModelId::Gpt5_4 => (2_500, 250, 2_500, 15_000),
        };
        Pricing {
            input_nanodollars_per_token: input,
            cached_input_nanodollars_per_token: cached,
            cache_write_nanodollars_per_token: write,
            output_nanodollars_per_token: output,
        }
    }

    /// On every model with explicit breakpoints a cache read costs a tenth of ordinary input
    /// and a write a quarter more.
    pub proof fn breakpoint_models_read_at_a_tenth_and_write_at_five_quarters(id: ModelId)
        requires
            id.honors_breakpoints(),
        ensures
            id.list_price().cached_input_nanodollars_per_token * 10
                == id.list_price().input_nanodollars_per_token,
            id.list_price().cache_write_nanodollars_per_token * 4
                == id.list_price().input_nanodollars_per_token * 5,
    {
    }

    /// The generations without explicit breakpoints charge nothing extra for a write.
    pub proof fn earlier_models_write_at_the_input_rate(id: ModelId)
        requires
            !id.honors_breakpoints(),
        ensures
            id.list_price().cache_write_nanodollars_per_token
                == id.list_price().input_nanodollars_per_token,
    {
    }
}

/// A model together with the parameters that model accepts.
///
/// Every variant's payload is a distinct type, so a parameter one model refuses does not
/// exist on that variant.
#[derive(Debug, Clone, Copy, PartialEq, Eq, Structural)]
pub enum Model {
    /// A GPT-5.6 tier.
    Gpt5_6(Gpt5_6),
    /// GPT-5.5.
    Gpt5_5(Gpt5_5),
    /// GPT-5.5 Pro.
    Gpt5_5Pro(Gpt5_5Pro),
    /// GPT-5.4.
    Gpt5_4(Gpt5_4),
    /// GPT-6 Sol.
    Gpt6Sol(Gpt6Sol),
}

impl Model {
    /// The model's identity.
    pub open spec fn identity(self) -> ModelId {
        match self {
            Model::Gpt5_6(m) => match m.tier {
                Gpt5_6Tier::Sol => ModelId::Gpt5_6Sol,
                Gpt5_6Tier::Terra => ModelId::Gpt5_6Terra,
                Gpt5_6Tier::Luna => ModelId::Gpt5_6Luna,
            },
            Model::Gpt5_5(_) => ModelId::Gpt5_5,
            Model::Gpt5_5Pro(_) => ModelId::Gpt5_5Pro,
            Model::Gpt5_4(_) => ModelId::Gpt5_4,
            Model::Gpt6Sol(_) => ModelId::Gpt6Sol,
        }
    }

    /// The caching control of the models that have one; exactly those that honor explicit
    /// breakpoints.
    pub open spec fn cache_options(self) -> Option<Gpt5_6Caching> {
        match self {
            Model::Gpt5_6(m) => Some(m.caching),
            Model::Gpt6Sol(m) => Some(m.caching),
            Model::Gpt5_5(_) | Model::Gpt5_5Pro(_) | Model::Gpt5_4(_) => None,
        }
    }

    /// The caching control, on the models that have one.
    pub fn caching(&self) -> (caching: Option<Gpt5_6Caching>)
        ensures
            caching == self.cache_options(),
    {
        match self {
            Model::Gpt5_6(m) => Some(m.caching),
            Model::Gpt6Sol(m) => Some(m.caching),
            Model::Gpt5_5(_) | Model::Gpt5_5Pro(_) | Model::Gpt5_4(_) => None,
        }
    }

    /// A model has the caching control exactly when it honors explicit breakpoints.
    pub proof fn the_caching_control_comes_with_breakpoints(model: Model)
        ensures
            model.cache_options() is Some <==> model.identity().honors_breakpoints(),
    {
    }

    /// Identity without per-call parameters.
    pub fn id(&self) -> (id: ModelId)
        ensures
            id == self.identity(),
    {
        match self {
            Model::Gpt5_6(m) => match m.tier {
                Gpt5_6Tier::Sol => ModelId::Gpt5_6Sol,
                Gpt5_6Tier::Terra => ModelId::Gpt5_6Terra,
                Gpt5_6Tier::Luna => ModelId::Gpt5_6Luna,
            },
            Model::Gpt5_5(_) => ModelId::Gpt5_5,
            Model::Gpt5_5Pro(_) => ModelId::Gpt5_5Pro,
            Model::Gpt5_4(_) => ModelId::Gpt5_4,
            Model::Gpt6Sol(_) => ModelId::Gpt6Sol,
        }
    }

    /// The string sent in the `model` field.
    pub fn api_id(&self) -> (id: &'static str)
        ensures
            id@ == self.identity().wire(),
    {
        self.id().api_id()
    }

    /// GPT-5.6 Sol with documented defaults.
    pub fn gpt_5_6_sol() -> (model: Gpt5_6)
        ensures
            model == (Gpt5_6 {
                tier: Gpt5_6Tier::Sol,
                effort: None,
                mode: None,
                reasoning_context: ReasoningContext::Auto,
                caching: Gpt5_6Caching::documented(),
            }),
    {
        Gpt5_6::new(Gpt5_6Tier::Sol)
    }

    /// GPT-5.6 Terra with documented defaults.
    pub fn gpt_5_6_terra() -> (model: Gpt5_6)
        ensures
            model == (Gpt5_6 {
                tier: Gpt5_6Tier::Terra,
                effort: None,
                mode: None,
                reasoning_context: ReasoningContext::Auto,
                caching: Gpt5_6Caching::documented(),
            }),
    {
        Gpt5_6::new(Gpt5_6Tier::Terra)
    }

    /// GPT-5.6 Luna with documented defaults.
    pub fn gpt_5_6_luna() -> (model: Gpt5_6)
        ensures
            model == (Gpt5_6 {
                tier: Gpt5_6Tier::Luna,
                effort: None,
                mode: None,
                reasoning_context: ReasoningContext::Auto,
                caching: Gpt5_6Caching::documented(),
            }),
    {
        Gpt5_6::new(Gpt5_6Tier::Luna)
    }

    /// GPT-5.5 with documented defaults.
    pub fn gpt_5_5() -> (model: Gpt5_5)
        ensures
            model == (Gpt5_5 { effort: None, retention: ExtendedRetentionOnly::TwentyFourHours }),
    {
        Gpt5_5::default()
    }

    /// GPT-5.5 Pro with documented defaults.
    pub fn gpt_5_5_pro() -> (model: Gpt5_5Pro)
        ensures
            model == (Gpt5_5Pro { effort: None, retention: ExtendedRetentionOnly::TwentyFourHours }),
    {
        Gpt5_5Pro::default()
    }

    /// GPT-5.4 with documented defaults.
    pub fn gpt_5_4() -> (model: Gpt5_4)
        ensures
            model == (Gpt5_4 { effort: None, retention: None }),
    {
        Gpt5_4::default()
    }

    /// GPT-6 Sol with documented defaults.
    pub fn gpt_6_sol() -> (model: Gpt6Sol)
        ensures
            model == Gpt6Sol::documented(),
    {
        Gpt6Sol::default()
    }
}

/// What names a model: a [`Model`], or the parameters of one.
pub trait IntoModel: Sized {
    /// The model named.
    spec fn named_model(self) -> Model;

    /// The model named.
    fn into_model(self) -> (model: Model)
        ensures
            model == self.named_model(),
    ;
}

impl IntoModel for Model {
    open spec fn named_model(self) -> Model {
        self
    }

    fn into_model(self) -> (model: Model) {
        self
    }
}

impl IntoModel for Gpt5_6 {
    open spec fn named_model(self) -> Model {
        Model::Gpt5_6(self)
    }

    fn into_model(self) -> (model: Model) {
        Model::Gpt5_6(self)
    }
}

impl From<Gpt5_6> for Model {
    fn from(m: Gpt5_6) -> (model: Self) {
        Model::Gpt5_6(m)
    }
}

impl vstd::std_specs::convert::FromSpecImpl<Gpt5_6> for Model {
    open spec fn obeys_from_spec() -> bool {
        true
    }

    open spec fn from_spec(m: Gpt5_6) -> Self {
        Model::Gpt5_6(m)
    }
}

impl IntoModel for Gpt5_5 {
    open spec fn named_model(self) -> Model {
        Model::Gpt5_5(self)
    }

    fn into_model(self) -> (model: Model) {
        Model::Gpt5_5(self)
    }
}

impl From<Gpt5_5> for Model {
    fn from(m: Gpt5_5) -> (model: Self) {
        Model::Gpt5_5(m)
    }
}

impl vstd::std_specs::convert::FromSpecImpl<Gpt5_5> for Model {
    open spec fn obeys_from_spec() -> bool {
        true
    }

    open spec fn from_spec(m: Gpt5_5) -> Self {
        Model::Gpt5_5(m)
    }
}

impl IntoModel for Gpt5_5Pro {
    open spec fn named_model(self) -> Model {
        Model::Gpt5_5Pro(self)
    }

    fn into_model(self) -> (model: Model) {
        Model::Gpt5_5Pro(self)
    }
}

impl From<Gpt5_5Pro> for Model {
    fn from(m: Gpt5_5Pro) -> (model: Self) {
        Model::Gpt5_5Pro(m)
    }
}

impl vstd::std_specs::convert::FromSpecImpl<Gpt5_5Pro> for Model {
    open spec fn obeys_from_spec() -> bool {
        true
    }

    open spec fn from_spec(m: Gpt5_5Pro) -> Self {
        Model::Gpt5_5Pro(m)
    }
}

impl IntoModel for Gpt5_4 {
    open spec fn named_model(self) -> Model {
        Model::Gpt5_4(self)
    }

    fn into_model(self) -> (model: Model) {
        Model::Gpt5_4(self)
    }
}

impl From<Gpt5_4> for Model {
    fn from(m: Gpt5_4) -> (model: Self) {
        Model::Gpt5_4(m)
    }
}

impl vstd::std_specs::convert::FromSpecImpl<Gpt5_4> for Model {
    open spec fn obeys_from_spec() -> bool {
        true
    }

    open spec fn from_spec(m: Gpt5_4) -> Self {
        Model::Gpt5_4(m)
    }
}

impl IntoModel for Gpt6Sol {
    open spec fn named_model(self) -> Model {
        Model::Gpt6Sol(self)
    }

    fn into_model(self) -> (model: Model) {
        Model::Gpt6Sol(self)
    }
}

impl From<Gpt6Sol> for Model {
    fn from(m: Gpt6Sol) -> (model: Self) {
        Model::Gpt6Sol(m)
    }
}

impl vstd::std_specs::convert::FromSpecImpl<Gpt6Sol> for Model {
    open spec fn obeys_from_spec() -> bool {
        true
    }

    open spec fn from_spec(m: Gpt6Sol) -> Self {
        Model::Gpt6Sol(m)
    }
}

} // verus!
