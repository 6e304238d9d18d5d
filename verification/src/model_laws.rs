//! What each model costs, holds and accepts.
use vstd::prelude::*;

use crate::model::{
    Gpt5_4, Gpt5_5, Gpt5_5Pro, Gpt5_6, Gpt5_6Tier, Gpt6Sol, Model, ModelId, Pricing, YearMonth,
};
use crate::model::{EffortMediumToXhigh, EffortNoneToMax, EffortNoneToXhigh};
use crate::values::{
    CacheMode, CacheRetention, ReasoningContext, ReasoningEffort, ReasoningMode,
};

verus! {

/// Whether a price is so many cents for a million tokens of each class: ordinary input, cached
/// input, input written to the cache, and output.
pub open spec fn cents_per_million(
    price: Pricing,
    input: nat,
    cached: nat,
    written: nat,
    output: nat,
) -> bool {
    &&& price.input_nanodollars_per_token * 1_000_000 == input * 10_000_000
    &&& price.cached_input_nanodollars_per_token * 1_000_000 == cached * 10_000_000
    &&& price.cache_write_nanodollars_per_token * 1_000_000 == written * 10_000_000
    &&& price.output_nanodollars_per_token * 1_000_000 == output * 10_000_000
}

/// The published prices, in cents per million tokens.
pub proof fn each_model_has_its_published_price(id: ModelId, price: Pricing)
    requires
        call_ensures(ModelId::pricing, (id,), price),
    ensures
        id.list_price() == price,
        match id {
            ModelId::Gpt5_6Sol => cents_per_million(price, 400, 40, 500, 2_000),
            ModelId::Gpt5_6Terra => cents_per_million(price, 200, 20, 250, 1_200),
            ModelId::Gpt5_6Luna => cents_per_million(price, 20, 2, 25, 120),
            ModelId::Gpt6Sol => cents_per_million(price, 200, 20, 250, 1_000),
            ModelId::Gpt5_5 => cents_per_million(price, 500, 50, 500, 3_000),
            ModelId::Gpt5_5Pro => cents_per_million(price, 3_000, 3_000, 3_000, 18_000),
            ModelId::Gpt5_4 => cents_per_million(price, 250, 25, 250, 1_500),
        },
{
}

/// The largest input and the largest output share the context window between them; the models
/// with explicit breakpoints cache from 1,024 tokens on, the earlier ones from 2,048.
pub proof fn each_model_has_its_published_sizes(
    id: ModelId,
    window: u32,
    input: u32,
    output: u32,
    cacheable: u32,
    breakpoints: bool,
)
    requires
        call_ensures(ModelId::context_window_tokens, (id,), window),
        call_ensures(ModelId::max_input_tokens, (id,), input),
        call_ensures(ModelId::max_output_tokens, (id,), output),
        call_ensures(ModelId::min_cacheable_prefix_tokens, (id,), cacheable),
        call_ensures(ModelId::supports_explicit_cache_breakpoints, (id,), breakpoints),
    ensures
        input + output == window,
        window == 1_050_000,
        output == 128_000,
        breakpoints <==> id is Gpt5_6Sol || id is Gpt5_6Terra || id is Gpt5_6Luna || id is Gpt6Sol,
        cacheable == if breakpoints {
            1_024u32
        } else {
            2_048u32
        },
{
}

/// What each model falls back to where a request states no effort, and when its knowledge ends.
pub proof fn each_model_has_its_published_defaults(
    id: ModelId,
    effort: ReasoningEffort,
    cutoff: YearMonth,
)
    requires
        call_ensures(ModelId::default_effort, (id,), effort),
        call_ensures(ModelId::knowledge_cutoff, (id,), cutoff),
    ensures
        effort is NoReasoning <==> id is Gpt5_4,
        effort is High <==> id is Gpt5_5Pro,
        effort is NoReasoning || effort is High || effort is Medium,
        1 <= cutoff.month <= 12,
        match id {
            ModelId::Gpt6Sol => cutoff.year == 2026 && cutoff.month == 4,
            ModelId::Gpt5_6Sol | ModelId::Gpt5_6Terra | ModelId::Gpt5_6Luna => cutoff.year == 2026
                && cutoff.month == 2,
            ModelId::Gpt5_5 | ModelId::Gpt5_5Pro => cutoff.year == 2025 && cutoff.month == 12,
            ModelId::Gpt5_4 => cutoff.year == 2025 && cutoff.month == 8,
        },
{
}

/// Every model is sent, and named, as itself.
pub proof fn every_model_is_named_as_itself(model: Model, id: ModelId, sent: &str)
    requires
        call_ensures(Model::id, (&model,), id),
        call_ensures(Model::api_id, (&model,), sent),
    ensures
        id == model.identity(),
        match model {
            Model::Gpt5_6(m) => match m.tier {
                Gpt5_6Tier::Sol => sent@ == "gpt-5.6-sol"@ && id is Gpt5_6Sol,
                Gpt5_6Tier::Terra => sent@ == "gpt-5.6-terra"@ && id is Gpt5_6Terra,
                Gpt5_6Tier::Luna => sent@ == "gpt-5.6-luna"@ && id is Gpt5_6Luna,
            },
            Model::Gpt5_5(_) => sent@ == "gpt-5.5"@ && id is Gpt5_5,
            Model::Gpt5_5Pro(_) => sent@ == "gpt-5.5-pro"@ && id is Gpt5_5Pro,
            Model::Gpt5_4(_) => sent@ == "gpt-5.4"@ && id is Gpt5_4,
            Model::Gpt6Sol(_) => sent@ == "gpt-6-sol"@ && id is Gpt6Sol,
        },
{
}

/// The chosen effort is the one the model was given, under the same string, and there is none
/// where it was given none.
pub proof fn a_chosen_effort_is_the_one_given(model: Model)
    ensures
        match model {
            Model::Gpt5_6(m) => match m.effort {
                Some(given) => model.chosen_effort() matches Some(effort) && effort.wire()
                    == given.wire(),
                None => model.chosen_effort() is None,
            },
            Model::Gpt6Sol(m) => match m.effort {
                Some(given) => model.chosen_effort() matches Some(effort) && effort.wire()
                    == given.wire(),
                None => model.chosen_effort() is None,
            },
            Model::Gpt5_5(m) => match m.effort {
                Some(given) => model.chosen_effort() matches Some(effort) && effort.wire()
                    == given.wire(),
                None => model.chosen_effort() is None,
            },
            Model::Gpt5_4(m) => match m.effort {
                Some(given) => model.chosen_effort() matches Some(effort) && effort.wire()
                    == given.wire(),
                None => model.chosen_effort() is None,
            },
            Model::Gpt5_5Pro(m) => match m.effort {
                Some(given) => model.chosen_effort() matches Some(effort) && effort.wire()
                    == given.wire(),
                None => model.chosen_effort() is None,
            },
        },
{
}

/// A setter of GPT-5.6 changes its own parameter and no other.
pub proof fn a_setter_of_gpt5_6_changes_its_own_parameter(
    before: Gpt5_6,
    effort: EffortNoneToMax,
    mode: ReasoningMode,
    context: ReasoningContext,
    trying: Gpt5_6,
    run: Gpt5_6,
    recalling: Gpt5_6,
    marked: Gpt5_6,
)
    requires
        call_ensures(Gpt5_6::with_effort, (before, effort), trying),
        call_ensures(Gpt5_6::with_mode, (before, mode), run),
        call_ensures(Gpt5_6::with_reasoning_context, (before, context), recalling),
        call_ensures(Gpt5_6::with_explicit_cache_only, (before,), marked),
    ensures
        trying.effort == Some(effort),
        trying == (Gpt5_6 { effort: trying.effort, ..before }),
        run.mode == Some(mode),
        run == (Gpt5_6 { mode: run.mode, ..before }),
        recalling.reasoning_context == context,
        recalling == (Gpt5_6 { reasoning_context: recalling.reasoning_context, ..before }),
        marked.caching.mode == CacheMode::Explicit,
        marked.caching.ttl == before.caching.ttl,
        marked == (Gpt5_6 { caching: marked.caching, ..before }),
{
}

/// A setter of an earlier model changes its own parameter and no other.
pub proof fn a_setter_of_an_earlier_model_changes_its_own_parameter(
    gpt5_5: Gpt5_5,
    pro: Gpt5_5Pro,
    gpt5_4: Gpt5_4,
    effort: EffortNoneToXhigh,
    effort_of_pro: EffortMediumToXhigh,
    retention: CacheRetention,
    trying: Gpt5_5,
    pro_trying: Gpt5_5Pro,
    gpt5_4_trying: Gpt5_4,
    keeping: Gpt5_4,
)
    requires
        call_ensures(Gpt5_5::with_effort, (gpt5_5, effort), trying),
        call_ensures(Gpt5_5Pro::with_effort, (pro, effort_of_pro), pro_trying),
        call_ensures(Gpt5_4::with_effort, (gpt5_4, effort), gpt5_4_trying),
        call_ensures(Gpt5_4::with_retention, (gpt5_4, retention), keeping),
    ensures
        trying.effort == Some(effort),
        trying.retention == gpt5_5.retention,
        pro_trying.effort == Some(effort_of_pro),
        pro_trying.retention == pro.retention,
        gpt5_4_trying.effort == Some(effort),
        gpt5_4_trying.retention == gpt5_4.retention,
        keeping.retention == Some(retention),
        keeping.effort == gpt5_4.effort,
{
}

/// A new model states nothing the caller did not choose: no effort, no mode, and the documented
/// caching, an implicit breakpoint kept for thirty minutes at least.
pub proof fn a_new_model_states_its_defaults(tier: Gpt5_6Tier, gpt5_6: Gpt5_6, gpt6_sol: Gpt6Sol)
    requires
        call_ensures(Gpt5_6::new, (tier,), gpt5_6),
        call_ensures(Model::gpt_6_sol, (), gpt6_sol),
    ensures
        gpt5_6.tier == tier,
        gpt5_6.effort is None,
        gpt5_6.mode is None,
        gpt5_6.reasoning_context == ReasoningContext::Auto,
        gpt5_6.caching.mode == CacheMode::Implicit,
        gpt5_6.caching.ttl.wire() == "30m"@,
        gpt6_sol.effort is None,
        gpt6_sol.mode is None,
        gpt6_sol.reasoning_context == ReasoningContext::Auto,
        gpt6_sol.caching.mode == CacheMode::Implicit,
        gpt6_sol.caching.ttl.wire() == "30m"@,
{
}

} // verus!
