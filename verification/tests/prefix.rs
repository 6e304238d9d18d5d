//! The settings that determine the hashed prefix.

use openai::json::Json;
use openai::model::{EffortMediumToXhigh, EffortNoneToMax, EffortNoneToXhigh, Model};
use openai::prefix::{PrefixSettings, TextFormat};
use openai::values::{ReasoningEffort, ReasoningSummary, Verbosity};

/// A JSON text as the library reads it.
fn json(text: &str) -> Json {
    Json::parse(text).unwrap()
}

#[test]
fn effort_widens_from_every_model_type() {
    assert_eq!(
        PrefixSettings::new(Model::gpt_5_6_luna().with_effort(EffortNoneToMax::NoReasoning)).effort(),
        Some(ReasoningEffort::NoReasoning)
    );
    assert_eq!(
        PrefixSettings::new(Model::gpt_5_6_sol().with_effort(EffortNoneToMax::Max)).effort(),
        Some(ReasoningEffort::Max)
    );
    assert_eq!(
        PrefixSettings::new(Model::gpt_5_5().with_effort(EffortNoneToXhigh::Xhigh)).effort(),
        Some(ReasoningEffort::Xhigh)
    );
    assert_eq!(
        PrefixSettings::new(Model::gpt_5_5_pro().with_effort(EffortMediumToXhigh::Medium)).effort(),
        Some(ReasoningEffort::Medium)
    );
    assert_eq!(
        PrefixSettings::new(Model::gpt_5_4().with_effort(EffortNoneToXhigh::Low)).effort(),
        Some(ReasoningEffort::Low)
    );

    for model in [Model::from(Model::gpt_5_6_sol()), Model::gpt_5_5().into(), Model::gpt_5_4().into()] {
        assert_eq!(PrefixSettings::new(model).effort(), None);
    }
    assert_eq!(PrefixSettings::new(Model::gpt_5_5_pro()).effort(), None);
}

#[test]
fn documented_defaults_are_stated_and_undocumented_ones_are_absent() {
    let prefix = PrefixSettings::new(Model::gpt_5_6_sol());
    assert!(prefix.parallel_tool_calls);
    assert_eq!(prefix.text_format, TextFormat::Text);
    assert_eq!(prefix.verbosity, Verbosity::Medium);
    assert_eq!(prefix.context_management, None);
    assert_eq!(prefix.reasoning_summary, None);
    assert_eq!(prefix.effort(), None);
}

#[test]
fn every_choice_can_be_taken_back() {
    let prefix = PrefixSettings::new(Model::gpt_5_6_sol())
        .with_serial_tool_calls()
        .with_compaction(Some(200_000))
        .with_reasoning_summary(ReasoningSummary::Detailed);
    assert!(!prefix.parallel_tool_calls);
    assert!(prefix.context_management.is_some());
    assert!(prefix.reasoning_summary.is_some());

    let undone = prefix.with_parallel_tool_calls().without_compaction().without_reasoning_summary();
    assert!(undone.parallel_tool_calls);
    assert_eq!(undone.context_management, None);
    assert_eq!(undone.reasoning_summary, None);
}

#[test]
fn a_json_schema_format_is_strict_by_default() {
    let schema = json(r#"{"type": "object"}"#);
    assert_eq!(
        TextFormat::json_schema("verdict", schema.clone()),
        TextFormat::JsonSchema { name: "verdict".into(), schema, strict: true }
    );
}
