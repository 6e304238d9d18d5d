//! GPT-6 Sol request parameters and cache controls.
use vstd::prelude::*;

use crate::model::{EffortNoneToMax, Gpt5_6Caching};
use crate::values::{CacheMode, ReasoningContext, ReasoningMode};

verus! {

/// The cache controls GPT-6 Sol shares with GPT-5.6.
pub type Gpt6SolCaching = Gpt5_6Caching;

/// GPT-6 Sol's accepted parameter set.
///
/// Sol accepts `none` through `max` and shares the explicit breakpoint and cache-TTL
/// controls of GPT-5.6.
#[derive(Debug, Clone, Copy, PartialEq, Eq, Structural)]
pub struct Gpt6Sol {
    /// How much the model reasons before answering, when the caller says.
    pub effort: Option<EffortNoneToMax>,
    /// Standard or Pro execution, independent of effort, when the caller says.
    pub mode: Option<ReasoningMode>,
    /// Which earlier reasoning is rendered into this turn.
    pub reasoning_context: ReasoningContext,
    /// Breakpoint mode and minimum cache lifetime.
    pub caching: Gpt6SolCaching,
}

impl Default for Gpt6Sol {
    /// Documented defaults are emitted; fields with no documented default stay absent.
    fn default() -> (model: Self)
        ensures
            model == Gpt6Sol::documented(),
    {
        Self {
            effort: None,
            mode: None,
            reasoning_context: ReasoningContext::Auto,
            caching: Gpt6SolCaching::default(),
        }
    }
}

impl Gpt6Sol {
    /// Sol with documented defaults and no invented reasoning choice.
    pub open spec fn documented() -> Self {
        Gpt6Sol {
            effort: None,
            mode: None,
            reasoning_context: ReasoningContext::Auto,
            caching: Gpt5_6Caching::documented(),
        }
    }

    /// Sol with documented defaults and no invented reasoning choice.
    pub fn new() -> (model: Self)
        ensures
            model == Gpt6Sol::documented(),
    {
        Self::default()
    }

    /// Set a reasoning level Sol accepts.
    pub fn with_effort(self, effort: EffortNoneToMax) -> (model: Self)
        ensures
            model == (Gpt6Sol { effort: Some(effort), ..self }),
    {
        Self { effort: Some(effort), ..self }
    }

    /// Leave `reasoning.effort` unsent.
    pub fn without_effort(self) -> (model: Self)
        ensures
            model == (Gpt6Sol { effort: None, ..self }),
    {
        Self { effort: None, ..self }
    }

    /// Select standard or Pro execution.
    pub fn with_mode(self, mode: ReasoningMode) -> (model: Self)
        ensures
            model == (Gpt6Sol { mode: Some(mode), ..self }),
    {
        Self { mode: Some(mode), ..self }
    }

    /// Choose which earlier reasoning the model may render.
    pub fn with_reasoning_context(self, context: ReasoningContext) -> (model: Self)
        ensures
            model == (Gpt6Sol { reasoning_context: context, ..self }),
    {
        Self { reasoning_context: context, ..self }
    }

    /// Choose the breakpoint mode and minimum cache lifetime outright.
    pub fn with_caching(self, caching: Gpt6SolCaching) -> (model: Self)
        ensures
            model == (Gpt6Sol { caching: caching, ..self }),
    {
        Self { caching: caching, ..self }
    }

    /// Turn off OpenAI's implicit breakpoint, leaving all four slots available for explicit
    /// breakpoints.
    pub fn with_explicit_cache_only(self) -> (model: Self)
        ensures
            model == (Gpt6Sol {
                caching: Gpt5_6Caching { mode: CacheMode::Explicit, ttl: self.caching.ttl },
                ..self
            }),
    {
        Self {
            caching: Gpt5_6Caching { mode: CacheMode::Explicit, ttl: self.caching.ttl },
            ..self
        }
    }
}

} // verus!
