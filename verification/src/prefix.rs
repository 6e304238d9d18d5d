//! Everything that determines the bytes OpenAI hashes.
//!
//! OpenAI caches a *rendered prefix*: hidden content, then `tools`, then developer
//! instructions, then the input items. A cache read requires that prefix to be
//! byte-identical, so a setting that changes it must be held constant across a thread. Those
//! settings are gathered into [`PrefixSettings`]; the ones that may vary every request live on
//! [`Request`](crate::request::Request).
use vstd::prelude::*;

use crate::json::{Json, JsonView};
use crate::model::{IntoModel, Model};
use crate::values::{ReasoningEffort, ReasoningSummary, Verbosity};

verus! {

/// `text.format`: plain text, or a JSON Schema the answer must satisfy.
///
/// Part of the hashed prefix: OpenAI turns the schema into instructions the model reads.
#[derive(Debug, Clone, PartialEq)]
pub enum TextFormat {
    /// Ordinary prose. The API default.
    Text,
    /// Structured Outputs: the answer is guaranteed to match `schema`.
    JsonSchema {
        /// Name of the format, `[a-zA-Z0-9_-]{1,64}`.
        name: String,
        /// The schema itself.
        schema: Json,
        /// Whether the model must follow the schema exactly. With `true`, only the
        /// strict-mode subset of JSON Schema is allowed.
        strict: bool,
    },
}

/// What a [`TextFormat`] holds.
#[verifier::ext_equal]
pub enum TextFormatView {
    Text,
    JsonSchema { name: Seq<char>, schema: JsonView, strict: bool },
}

impl View for TextFormat {
    type V = TextFormatView;

    open spec fn view(&self) -> TextFormatView {
        match self {
            TextFormat::Text => TextFormatView::Text,
            TextFormat::JsonSchema { name, schema, strict } => TextFormatView::JsonSchema {
                name: name@,
                schema: schema@,
                strict: *strict,
            },
        }
    }
}

impl Default for TextFormat {
    /// The API default.
    fn default() -> (format: Self)
        ensures
            format is Text,
    {
        Self::Text
    }
}

impl TextFormat {
    /// A schema the answer is guaranteed to match. Strict is on: the point of Structured
    /// Outputs is not having to validate the answer yourself.
    pub fn json_schema(name: &str, schema: Json) -> (format: Self)
        ensures
            format@ == (TextFormatView::JsonSchema { name: name@, schema: schema@, strict: true }),
    {
        Self::JsonSchema { name: name.to_owned(), schema, strict: true }
    }
}

/// `context_management`: let OpenAI compact the conversation when it grows past a threshold.
///
/// Compaction replaces earlier context with a shorter rendering, so it changes the prefix and
/// resets reuse from the first changed token.
#[derive(Debug, Clone, Copy, PartialEq, Eq, Structural)]
pub struct Compaction {
    /// Token count at which compaction triggers. `None` lets OpenAI choose.
    pub compact_threshold: Option<u32>,
}

/// Every per-call setting that changes the bytes OpenAI hashes.
///
/// One value, held constant across a thread, is a prefix that cannot drift.
#[derive(Debug, Clone, PartialEq)]
pub struct PrefixSettings {
    /// The model and its accepted parameters, its reasoning effort and caching field among
    /// them.
    pub model: Model,
    /// Whether the model may call several tools in one turn.
    pub parallel_tool_calls: bool,
    /// Plain text or a JSON Schema.
    pub text_format: TextFormat,
    /// How long the answer should be.
    pub verbosity: Verbosity,
    /// Compaction, if enabled.
    pub context_management: Option<Compaction>,
    /// Whether to return a summary of the model's reasoning. Present here for grouping only:
    /// summaries are output, so this does not affect the prefix.
    pub reasoning_summary: Option<ReasoningSummary>,
}

impl Model {
    /// The chosen effort in the shared vocabulary, where one was chosen.
    pub open spec fn chosen_effort(self) -> Option<ReasoningEffort> {
        match self {
            Model::Gpt5_6(m) => match m.effort {
                Some(effort) => Some(effort.widened()),
                None => None,
            },
            Model::Gpt6Sol(m) => match m.effort {
                Some(effort) => Some(effort.widened()),
                None => None,
            },
            Model::Gpt5_5(m) => match m.effort {
                Some(effort) => Some(effort.widened()),
                None => None,
            },
            Model::Gpt5_4(m) => match m.effort {
                Some(effort) => Some(effort.widened()),
                None => None,
            },
            Model::Gpt5_5Pro(m) => match m.effort {
                Some(effort) => Some(effort.widened()),
                None => None,
            },
        }
    }
}

impl PrefixSettings {
    /// The documented defaults for a model, and nothing the API does not document: parallel
    /// tool calls on, plain text, medium verbosity, no compaction, no reasoning summary.
    pub fn new<M: IntoModel>(model: M) -> (settings: Self)
        ensures
            settings == (PrefixSettings {
                model: model.named_model(),
                parallel_tool_calls: true,
                text_format: TextFormat::Text,
                verbosity: Verbosity::Medium,
                context_management: None,
                reasoning_summary: None,
            }),
    {
        Self {
            model: model.into_model(),
            parallel_tool_calls: true,
            text_format: TextFormat::Text,
            verbosity: Verbosity::Medium,
            context_management: None,
            reasoning_summary: None,
        }
    }

    /// Require the answer to match a JSON Schema.
    pub fn with_text_format(self, format: TextFormat) -> (settings: Self)
        ensures
            settings == (PrefixSettings { text_format: format, ..self }),
    {
        Self { text_format: format, ..self }
    }

    /// Set the answer length.
    pub fn with_verbosity(self, verbosity: Verbosity) -> (settings: Self)
        ensures
            settings == (PrefixSettings { verbosity, ..self }),
    {
        Self { verbosity, ..self }
    }

    /// Forbid calling several tools in one turn.
    pub fn with_serial_tool_calls(self) -> (settings: Self)
        ensures
            settings == (PrefixSettings { parallel_tool_calls: false, ..self }),
    {
        Self { parallel_tool_calls: false, ..self }
    }

    /// Allow calling several tools in one turn, the API's documented default.
    pub fn with_parallel_tool_calls(self) -> (settings: Self)
        ensures
            settings == (PrefixSettings { parallel_tool_calls: true, ..self }),
    {
        Self { parallel_tool_calls: true, ..self }
    }

    /// Enable compaction at a token threshold.
    pub fn with_compaction(self, compact_threshold: Option<u32>) -> (settings: Self)
        ensures
            settings == (PrefixSettings { context_management: Some(Compaction { compact_threshold }), ..self }),
    {
        Self { context_management: Some(Compaction { compact_threshold }), ..self }
    }

    /// Send no `context_management`, so OpenAI compacts nothing.
    pub fn without_compaction(self) -> (settings: Self)
        ensures
            settings == (PrefixSettings { context_management: None, ..self }),
    {
        Self { context_management: None, ..self }
    }

    /// Ask for a summary of the model's reasoning.
    pub fn with_reasoning_summary(self, summary: ReasoningSummary) -> (settings: Self)
        ensures
            settings == (PrefixSettings { reasoning_summary: Some(summary), ..self }),
    {
        Self { reasoning_summary: Some(summary), ..self }
    }

    /// Ask for no reasoning summary, which is to send no `reasoning.summary`.
    pub fn without_reasoning_summary(self) -> (settings: Self)
        ensures
            settings == (PrefixSettings { reasoning_summary: None, ..self }),
    {
        Self { reasoning_summary: None, ..self }
    }

    /// The chosen effort as the shared vocabulary spells it, widened from whichever per-model
    /// effort type the model carries. `None` when the caller chose none, which is what keeps
    /// `reasoning.effort` off the wire.
    pub fn effort(&self) -> (effort: Option<ReasoningEffort>)
        ensures
            effort == self.model.chosen_effort(),
    {
        match &self.model {
            Model::Gpt5_6(m) => match m.effort {
                Some(effort) => Some(effort.widen()),
                None => None,
            },
            Model::Gpt6Sol(m) => match m.effort {
                Some(effort) => Some(effort.widen()),
                None => None,
            },
            Model::Gpt5_5(m) => match m.effort {
                Some(effort) => Some(effort.widen()),
                None => None,
            },
            Model::Gpt5_4(m) => match m.effort {
                Some(effort) => Some(effort.widen()),
                None => None,
            },
            Model::Gpt5_5Pro(m) => match m.effort {
                Some(effort) => Some(effort.widen()),
                None => None,
            },
        }
    }
}

} // verus!
