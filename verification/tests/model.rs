//! Facts about models.

use openai::model::{
    EffortMediumToXhigh, EffortNoneToMax, EffortNoneToXhigh, Model, ModelId, YearMonth,
};

#[test]
fn wire_ids_match_the_model_pages() {
    assert_eq!(ModelId::Gpt5_6Sol.api_id(), "gpt-5.6-sol");
    assert_eq!(ModelId::Gpt5_6Terra.api_id(), "gpt-5.6-terra");
    assert_eq!(ModelId::Gpt5_6Luna.api_id(), "gpt-5.6-luna");
    assert_eq!(ModelId::Gpt5_5.api_id(), "gpt-5.5");
    assert_eq!(ModelId::Gpt5_5Pro.api_id(), "gpt-5.5-pro");
    assert_eq!(ModelId::Gpt5_4.api_id(), "gpt-5.4");
}

#[test]
fn tier_choice_selects_the_identity() {
    assert_eq!(Model::from(Model::gpt_5_6_sol()).id(), ModelId::Gpt5_6Sol);
    assert_eq!(Model::from(Model::gpt_5_6_terra()).id(), ModelId::Gpt5_6Terra);
    assert_eq!(Model::from(Model::gpt_5_6_luna()).id(), ModelId::Gpt5_6Luna);
    assert_eq!(Model::from(Model::gpt_5_5()).api_id(), "gpt-5.5");
}

#[test]
fn explicit_breakpoints_are_a_gpt_5_6_feature() {
    assert!(ModelId::Gpt5_6Sol.supports_explicit_cache_breakpoints());
    assert!(ModelId::Gpt5_6Luna.supports_explicit_cache_breakpoints());
    assert!(!ModelId::Gpt5_5.supports_explicit_cache_breakpoints());
    assert!(!ModelId::Gpt5_5Pro.supports_explicit_cache_breakpoints());
    assert!(!ModelId::Gpt5_4.supports_explicit_cache_breakpoints());
}

#[test]
fn minimum_cacheable_prefix_follows_the_generation() {
    assert_eq!(ModelId::Gpt5_6Sol.min_cacheable_prefix_tokens(), 1_024);
    assert_eq!(ModelId::Gpt5_5.min_cacheable_prefix_tokens(), 2_048);
    assert_eq!(ModelId::Gpt5_4.min_cacheable_prefix_tokens(), 2_048);
}

#[test]
fn documented_facts() {
    assert_eq!(ModelId::Gpt5_6Sol.max_output_tokens(), 128_000);
    assert_eq!(ModelId::Gpt5_6Sol.context_window_tokens(), 1_050_000);
    assert_eq!(ModelId::Gpt5_6Sol.knowledge_cutoff(), YearMonth { year: 2026, month: 2 });
    assert_eq!(ModelId::Gpt5_4.knowledge_cutoff(), YearMonth { year: 2025, month: 8 });
    assert!(ModelId::Gpt5_4.knowledge_cutoff() < ModelId::Gpt5_6Sol.knowledge_cutoff());
}

#[test]
fn gpt_5_6_cache_multipliers_hold_exactly() {
    for id in [ModelId::Gpt5_6Sol, ModelId::Gpt5_6Terra, ModelId::Gpt5_6Luna] {
        let p = id.pricing();
        assert_eq!(p.cached_input_nanodollars_per_token * 10, p.input_nanodollars_per_token);
        assert_eq!(p.cache_write_nanodollars_per_token * 4, p.input_nanodollars_per_token * 5);
    }
}

#[test]
fn earlier_generations_price_caching_differently() {
    let five_five = ModelId::Gpt5_5.pricing();
    assert_eq!(five_five.cache_write_nanodollars_per_token, five_five.input_nanodollars_per_token);
    assert_eq!(five_five.cached_input_nanodollars_per_token * 10, five_five.input_nanodollars_per_token);

    let pro = ModelId::Gpt5_5Pro.pricing();
    assert_eq!(pro.cached_input_nanodollars_per_token, pro.input_nanodollars_per_token);
    assert_eq!(pro.cache_write_nanodollars_per_token, pro.input_nanodollars_per_token);
}

#[test]
fn documented_default_effort_differs_per_model() {
    assert_eq!(ModelId::Gpt5_6Sol.default_effort(), EffortNoneToMax::Medium.widen());
    assert_eq!(ModelId::Gpt5_5.default_effort(), EffortNoneToXhigh::Medium.widen());
    assert_eq!(ModelId::Gpt5_5Pro.default_effort(), EffortMediumToXhigh::High.widen());
    assert_eq!(ModelId::Gpt5_4.default_effort(), EffortNoneToXhigh::NoReasoning.widen());
}
