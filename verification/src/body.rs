//! The `POST /v1/responses` body.
//!
//! Separate from [`crate::request`], which states what a request *is*, because this file
//! states how it is written down.
//!
//! One rule governs the whole file. An absent field is a genuine runtime absence, never a
//! default elided to save bytes: a field the API documents a default for carries that value,
//! and it is always emitted. An enclosing object whose every field is absent vanishes
//! entirely, because `{}` and no field are two different requests.
use vstd::prelude::*;

use crate::content::{InputItem, InputItemView};
use crate::json;
use crate::json::{no_fields, put, Json, JsonView, NumberView};
use crate::metadata::Metadata;
use crate::model::{ExtendedRetentionOnly, Gpt5_6Caching, Model};
use crate::prefix::{Compaction, PrefixSettings, TextFormat, TextFormatView};
use crate::request::{Request, Transport};
use crate::tools;
use crate::tools::{FunctionTool, FunctionToolView};
use crate::values::{
    CacheRetention, Include, ReasoningContext, ReasoningMode, ReasoningSummary, Verbosity,
};
use crate::views;

verus! {

/// The fields of a table that are present, in the table's order.
pub open spec fn present(table: Seq<(Seq<char>, Option<JsonView>)>) -> Seq<(Seq<char>, JsonView)>
    decreases table.len(),
{
    if table.len() == 0 {
        Seq::empty()
    } else {
        tools::optional_field(present(table.drop_last()), table.last().0, table.last().1)
    }
}

/// A table of fields under construction.
spec fn table_view(table: Seq<(&'static str, Option<Json>)>) -> Seq<
    (Seq<char>, Option<JsonView>),
> {
    Seq::new(table.len(), |i: int| (table[i].0@, views::option_view(table[i].1)))
}

/// The object whose fields are those of a table that are present.
fn assemble(table: Vec<(&'static str, Option<Json>)>) -> (json: Json)
    ensures
        json@ == JsonView::Object(present(table_view(table@))),
{
    let ghost all = table@;
    let ghost view = table_view(all);
    let mut fields = no_fields();
    assert(view.take(0) =~= Seq::<(Seq<char>, Option<JsonView>)>::empty());
    for entry in walk: table
        invariant
            walk.seq() == all,
            view == table_view(all),
            json::fields_view(fields@) == present(view.take(walk.index() as int)),
    {
        proof {
            let i = walk.index() as int;
            assert(view.take(i + 1).drop_last() =~= view.take(i));
            assert(view.take(i + 1).last() == view[i]);
        }
        let (key, value) = entry;
        if let Some(value) = value {
            put(&mut fields, key, value);
        }
    }
    assert(view.take(view.len() as int) =~= view);
    Json::object(fields)
}

/// The tool array, absent where it is empty.
pub open spec fn tools_wire(tools: Seq<FunctionToolView>) -> Option<JsonView> {
    if tools.len() == 0 {
        None
    } else {
        Some(JsonView::Array(Seq::new(tools.len(), |i: int| tools[i].wire())))
    }
}

fn tools_json(tools: &[FunctionTool]) -> (json: Option<Json>)
    ensures
        views::option_view(json) == tools_wire(views::list_view(tools@)),
{
    if tools.len() == 0 {
        return None;
    }
    let mut out: Vec<Json> = Vec::new();
    let mut i: usize = 0;
    while i < tools.len()
        invariant
            i <= tools.len(),
            out.len() == i,
            forall|j: int| 0 <= j < i ==> (#[trigger] out@[j])@ == tools@[j]@.wire(),
        decreases tools.len() - i,
    {
        out.push(tools[i].to_json());
        i += 1;
    }
    assert(views::list_view(out@) =~= tools_wire(views::list_view(tools@))->0->Array_0);
    Some(Json::array(out))
}

/// The input items.
pub open spec fn items_wire(items: Seq<InputItemView>) -> JsonView {
    JsonView::Array(Seq::new(items.len(), |i: int| items[i].wire()))
}

fn items_json(items: &[InputItem]) -> (json: Json)
    ensures
        json@ == items_wire(views::list_view(items@)),
{
    let mut out: Vec<Json> = Vec::new();
    let mut i: usize = 0;
    while i < items.len()
        invariant
            i <= items.len(),
            out.len() == i,
            forall|j: int| 0 <= j < i ==> (#[trigger] out@[j])@ == items@[j]@.wire(),
        decreases items.len() - i,
    {
        out.push(items[i].to_json());
        i += 1;
    }
    assert(views::list_view(out@) =~= items_wire(views::list_view(items@))->Array_0);
    Json::array(out)
}

/// `text.format`.
pub open spec fn format_wire(format: TextFormatView) -> JsonView {
    match format {
        TextFormatView::Text => JsonView::Object(seq![("type"@, JsonView::Text("text"@))]),
        TextFormatView::JsonSchema { name, schema, strict } => JsonView::Object(
            seq![
                ("type"@, JsonView::Text("json_schema"@)),
                ("name"@, JsonView::Text(name)),
                ("schema"@, schema),
                ("strict"@, JsonView::Bool(strict)),
            ],
        ),
    }
}

/// `text`: the format and the verbosity, both always stated.
pub open spec fn text_wire(format: TextFormatView, verbosity: Verbosity) -> JsonView {
    JsonView::Object(
        seq![("format"@, format_wire(format)), ("verbosity"@, JsonView::Text(verbosity.wire()))],
    )
}

fn format_json(format: &TextFormat) -> (json: Json)
    ensures
        json@ == format_wire(format@),
{
    let mut fields = no_fields();
    match format {
        TextFormat::Text => {
            put(&mut fields, "type", Json::text("text"));
        },
        TextFormat::JsonSchema { name, schema, strict } => {
            put(&mut fields, "type", Json::text("json_schema"));
            put(&mut fields, "name", Json::text(name.as_str()));
            put(&mut fields, "schema", schema.clone());
            put(&mut fields, "strict", Json::Bool(*strict));
        },
    }
    assert(json::fields_view(fields@) =~= format_wire(format@)->Object_0);
    Json::object(fields)
}

fn text_settings(format: &TextFormat, verbosity: Verbosity) -> (json: Json)
    ensures
        json@ == text_wire(format@, verbosity),
{
    let mut fields = no_fields();
    put(&mut fields, "format", format_json(format));
    put(&mut fields, "verbosity", Json::text(verbosity.as_str()));
    assert(json::fields_view(fields@) =~= text_wire(format@, verbosity)->Object_0);
    Json::object(fields)
}

impl Model {
    /// Standard or Pro execution, where the model takes the field and the caller chose.
    pub open spec fn reasoning_mode(self) -> Option<ReasoningMode> {
        match self {
            Model::Gpt5_6(m) => m.mode,
            Model::Gpt6Sol(m) => m.mode,
            Model::Gpt5_5(_) | Model::Gpt5_5Pro(_) | Model::Gpt5_4(_) => None,
        }
    }

    /// Which earlier reasoning is rendered, on the models that take the field. It carries its
    /// documented default there.
    pub open spec fn reasoning_context(self) -> Option<ReasoningContext> {
        match self {
            Model::Gpt5_6(m) => Some(m.reasoning_context),
            Model::Gpt6Sol(m) => Some(m.reasoning_context),
            Model::Gpt5_5(_) | Model::Gpt5_5Pro(_) | Model::Gpt5_4(_) => None,
        }
    }

    /// The cache retention to send, on the models that take the field.
    pub open spec fn retention(self) -> Option<CacheRetention> {
        match self {
            Model::Gpt5_6(_) | Model::Gpt6Sol(_) => None,
            Model::Gpt5_5(_) | Model::Gpt5_5Pro(_) => Some(CacheRetention::TwentyFourHours),
            Model::Gpt5_4(m) => m.retention,
        }
    }
}

fn mode_of(model: &Model) -> (mode: Option<ReasoningMode>)
    ensures
        mode == model.reasoning_mode(),
{
    match model {
        Model::Gpt5_6(m) => m.mode,
        Model::Gpt6Sol(m) => m.mode,
        Model::Gpt5_5(_) | Model::Gpt5_5Pro(_) | Model::Gpt5_4(_) => None,
    }
}

fn context_of(model: &Model) -> (context: Option<ReasoningContext>)
    ensures
        context == model.reasoning_context(),
{
    match model {
        Model::Gpt5_6(m) => Some(m.reasoning_context),
        Model::Gpt6Sol(m) => Some(m.reasoning_context),
        Model::Gpt5_5(_) | Model::Gpt5_5Pro(_) | Model::Gpt5_4(_) => None,
    }
}

fn extended(retention: ExtendedRetentionOnly) -> (policy: CacheRetention)
    ensures
        policy == CacheRetention::TwentyFourHours,
{
    match retention {
        ExtendedRetentionOnly::TwentyFourHours => CacheRetention::TwentyFourHours,
    }
}

fn retention_of(model: &Model) -> (retention: Option<CacheRetention>)
    ensures
        retention == model.retention(),
{
    match model {
        Model::Gpt5_6(_) | Model::Gpt6Sol(_) => None,
        Model::Gpt5_5(m) => Some(extended(m.retention)),
        Model::Gpt5_5Pro(m) => Some(extended(m.retention)),
        // The one model that accepts both values, and the one whose default is the
        // organization's data-retention policy rather than a value OpenAI names. So an
        // unstated one stays absent.
        Model::Gpt5_4(m) => m.retention,
    }
}

/// The fields of `reasoning`, each independently present or absent.
pub open spec fn reasoning_table(model: Model, summary: Option<ReasoningSummary>) -> Seq<
    (Seq<char>, Option<JsonView>),
> {
    seq![
        (
            "effort"@,
            match model.chosen_effort() {
                Some(effort) => Some(JsonView::Text(effort.wire())),
                None => None,
            },
        ),
        (
            "mode"@,
            match model.reasoning_mode() {
                Some(mode) => Some(JsonView::Text(mode.wire())),
                None => None,
            },
        ),
        (
            "context"@,
            match model.reasoning_context() {
                Some(context) => Some(JsonView::Text(context.wire())),
                None => None,
            },
        ),
        (
            "summary"@,
            match summary {
                Some(summary) => Some(JsonView::Text(summary.wire())),
                None => None,
            },
        ),
    ]
}

/// The `reasoning` object, absent where it would be empty.
pub open spec fn reasoning_wire(model: Model, summary: Option<ReasoningSummary>) -> Option<
    JsonView,
> {
    if model.chosen_effort() is None && model.reasoning_mode() is None
        && model.reasoning_context() is None && summary is None {
        None
    } else {
        Some(JsonView::Object(present(reasoning_table(model, summary))))
    }
}

fn reasoning_json(prefix: &PrefixSettings) -> (json: Option<Json>)
    ensures
        views::option_view(json) == reasoning_wire(prefix.model, prefix.reasoning_summary),
{
    let effort = prefix.effort();
    let mode = mode_of(&prefix.model);
    let context = context_of(&prefix.model);
    let summary = prefix.reasoning_summary;
    if effort.is_none() && mode.is_none() && context.is_none() && summary.is_none() {
        return None;
    }
    let mut table: Vec<(&'static str, Option<Json>)> = Vec::new();
    table.push(
        (
            "effort",
            match effort {
                Some(effort) => Some(Json::text(effort.as_str())),
                None => None,
            },
        ),
    );
    table.push(
        (
            "mode",
            match mode {
                Some(mode) => Some(Json::text(mode.as_str())),
                None => None,
            },
        ),
    );
    table.push(
        (
            "context",
            match context {
                Some(context) => Some(Json::text(context.as_str())),
                None => None,
            },
        ),
    );
    table.push(
        (
            "summary",
            match summary {
                Some(summary) => Some(Json::text(summary.as_str())),
                None => None,
            },
        ),
    );
    assert(table_view(table@) =~= reasoning_table(prefix.model, summary));
    Some(assemble(table))
}

/// `prompt_cache_options`.
pub open spec fn options_wire(caching: Option<Gpt5_6Caching>) -> Option<JsonView> {
    match caching {
        Some(caching) => Some(
            JsonView::Object(
                seq![
                    ("mode"@, JsonView::Text(caching.mode.wire())),
                    ("ttl"@, JsonView::Text(caching.ttl.wire())),
                ],
            ),
        ),
        None => None,
    }
}

fn options_json(caching: Option<Gpt5_6Caching>) -> (json: Option<Json>)
    ensures
        views::option_view(json) == options_wire(caching),
{
    match caching {
        Some(caching) => {
            let mut fields = no_fields();
            put(&mut fields, "mode", Json::text(caching.mode.as_str()));
            put(&mut fields, "ttl", Json::text(caching.ttl.as_str()));
            assert(json::fields_view(fields@) =~= options_wire(Some(caching))->0->Object_0);
            Some(Json::object(fields))
        },
        None => None,
    }
}

/// An optional count as a JSON value.
pub open spec fn count_json(count: Option<u32>) -> Option<JsonView> {
    match count {
        Some(count) => Some(JsonView::Number(NumberView::PosInt(count as u64))),
        None => None,
    }
}

fn optional_count(count: Option<u32>) -> (json: Option<Json>)
    ensures
        views::option_view(json) == count_json(count),
{
    match count {
        Some(count) => Some(Json::whole(count as u64)),
        None => None,
    }
}

fn optional_text(text: &Option<String>) -> (json: Option<Json>)
    ensures
        views::option_view(json) == tools::text_json(views::option_view(*text)),
{
    match text {
        Some(text) => Some(Json::text(text.as_str())),
        None => None,
    }
}

/// `context_management`: a list of the one thing that may stand in it.
pub open spec fn compaction_wire(compaction: Option<Compaction>) -> Option<JsonView> {
    match compaction {
        Some(compaction) => Some(
            JsonView::Array(
                seq![
                    JsonView::Object(
                        tools::optional_field(
                            seq![("type"@, JsonView::Text("compaction"@))],
                            "compact_threshold"@,
                            count_json(compaction.compact_threshold),
                        ),
                    ),
                ],
            ),
        ),
        None => None,
    }
}

fn compaction_json(compaction: Option<Compaction>) -> (json: Option<Json>)
    ensures
        views::option_view(json) == compaction_wire(compaction),
{
    match compaction {
        Some(compaction) => {
            let mut fields = no_fields();
            put(&mut fields, "type", Json::text("compaction"));
            assert(json::fields_view(fields@) =~= seq![("type"@, JsonView::Text("compaction"@))]);
            if let Some(threshold) = compaction.compact_threshold {
                put(&mut fields, "compact_threshold", Json::whole(threshold as u64));
            }
            let mut list: Vec<Json> = Vec::new();
            list.push(Json::object(fields));
            assert(views::list_view(list@) =~= compaction_wire(Some(compaction))->0->Array_0);
            Some(Json::array(list))
        },
        None => None,
    }
}

/// What extra output is asked for, absent where nothing is.
pub open spec fn includes_wire(entries: Seq<Include>) -> Option<JsonView> {
    if entries.len() == 0 {
        None
    } else {
        Some(
            JsonView::Array(
                Seq::new(entries.len(), |i: int| JsonView::Text(entries[i].wire())),
            ),
        )
    }
}

fn includes_json(entries: &Vec<Include>) -> (json: Option<Json>)
    ensures
        views::option_view(json) == includes_wire(entries@),
{
    if entries.len() == 0 {
        return None;
    }
    let mut out: Vec<Json> = Vec::new();
    let mut i: usize = 0;
    while i < entries.len()
        invariant
            i <= entries.len(),
            out.len() == i,
            forall|j: int|
                0 <= j < i ==> (#[trigger] out@[j])@ == JsonView::Text(entries@[j].wire()),
        decreases entries.len() - i,
    {
        out.push(Json::text(entries[i].as_str()));
        i += 1;
    }
    assert(views::list_view(out@) =~= includes_wire(entries@)->0->Array_0);
    Some(Json::array(out))
}

/// `stream_options`, which stands only in a streamed request that states its one choice.
pub open spec fn stream_options_wire(transport: Transport) -> Option<JsonView> {
    match transport {
        Transport::Streamed { include_obfuscation: Some(padded) } => Some(
            JsonView::Object(seq![("include_obfuscation"@, JsonView::Bool(padded))]),
        ),
        Transport::Streamed { include_obfuscation: None } | Transport::Buffered => None,
    }
}

fn stream_options_json(transport: Transport) -> (json: Option<Json>)
    ensures
        views::option_view(json) == stream_options_wire(transport),
{
    match transport {
        Transport::Streamed { include_obfuscation: Some(padded) } => {
            let mut fields = no_fields();
            put(&mut fields, "include_obfuscation", Json::Bool(padded));
            assert(json::fields_view(fields@) =~= stream_options_wire(
                transport,
            )->0->Object_0);
            Some(Json::object(fields))
        },
        Transport::Streamed { include_obfuscation: None } | Transport::Buffered => None,
    }
}

impl<'a> Request<'a> {
    /// Every field of the body, in the order it is written, with its value where it is sent.
    /// The tools come first after the model, as they do in the prefix.
    pub open spec fn table(self) -> Seq<(Seq<char>, Option<JsonView>)> {
        seq![
            ("model"@, Some(JsonView::Text(self.prefix.model.identity().wire()))),
            ("tools"@, tools_wire(self.context@.tools)),
            (
                "instructions"@,
                tools::text_json(
                    match self.instructions {
                        Some(instructions) => Some(instructions.0@),
                        None => None,
                    },
                ),
            ),
            ("input"@, Some(items_wire(self.context@.items))),
            ("parallel_tool_calls"@, Some(JsonView::Bool(self.prefix.parallel_tool_calls))),
            ("text"@, Some(text_wire(self.prefix.text_format@, self.prefix.verbosity))),
            ("reasoning"@, reasoning_wire(self.prefix.model, self.prefix.reasoning_summary)),
            ("tool_choice"@, Some(self.tool_choice@.wire())),
            ("prompt_cache_options"@, options_wire(self.prefix.model.cache_options())),
            (
                "prompt_cache_retention"@,
                match self.prefix.model.retention() {
                    Some(retention) => Some(JsonView::Text(retention.wire())),
                    None => None,
                },
            ),
            ("prompt_cache_key"@, tools::text_json(views::option_view(self.prompt_cache_key))),
            ("context_management"@, compaction_wire(self.prefix.context_management)),
            ("max_output_tokens"@, count_json(self.max_output_tokens)),
            ("include"@, includes_wire(self.includes@)),
            (
                "service_tier"@,
                match self.service_tier {
                    Some(tier) => Some(JsonView::Text(tier.wire())),
                    None => None,
                },
            ),
            (
                "metadata"@,
                match self.metadata {
                    Some(metadata) if metadata@.len() > 0 => Some(Metadata::wire(metadata@)),
                    _ => None,
                },
            ),
            ("safety_identifier"@, tools::text_json(views::option_view(self.safety_identifier))),
            (
                "truncation"@,
                match self.truncation {
                    Some(truncation) => Some(JsonView::Text(truncation.wire())),
                    None => None,
                },
            ),
            ("max_tool_calls"@, count_json(self.max_tool_calls)),
            ("stream"@, Some(JsonView::Bool(self.transport is Streamed))),
            ("stream_options"@, stream_options_wire(self.transport)),
            ("store"@, Some(JsonView::Bool(self.store))),
            ("background"@, Some(JsonView::Bool(self.background))),
        ]
    }

    /// The body.
    pub open spec fn body(self) -> JsonView {
        JsonView::Object(present(self.table()))
    }

    /// The `POST /v1/responses` body.
    pub fn to_json(&self) -> (json: Json)
        ensures
            json@ == self.body(),
    {
        let mut table: Vec<(&'static str, Option<Json>)> = Vec::new();
        table.push(("model", Some(Json::text(self.prefix.model.api_id()))));
        table.push(("tools", tools_json(self.context.tools())));
        let instructions = match &self.instructions {
            Some(instructions) => Some(Json::text(instructions.0.as_str())),
            None => None,
        };
        table.push(("instructions", instructions));
        table.push(("input", Some(items_json(self.context.items()))));
        table.push(("parallel_tool_calls", Some(Json::Bool(self.prefix.parallel_tool_calls))));
        table.push(("text", Some(text_settings(&self.prefix.text_format, self.prefix.verbosity))));
        table.push(("reasoning", reasoning_json(&self.prefix)));
        table.push(("tool_choice", Some(self.tool_choice.to_json())));
        table.push(("prompt_cache_options", options_json(self.prefix.model.caching())));
        let prompt_cache_retention = match retention_of(&self.prefix.model) {
            Some(retention) => Some(Json::text(retention.as_str())),
            None => None,
        };
        table.push(("prompt_cache_retention", prompt_cache_retention));
        table.push(("prompt_cache_key", optional_text(&self.prompt_cache_key)));
        table.push(("context_management", compaction_json(self.prefix.context_management)));
        table.push(("max_output_tokens", optional_count(self.max_output_tokens)));
        table.push(("include", includes_json(&self.includes)));
        let service_tier = match self.service_tier {
            Some(tier) => Some(Json::text(tier.as_str())),
            None => None,
        };
        table.push(("service_tier", service_tier));
        let metadata = match &self.metadata {
            Some(metadata) if !metadata.is_empty() => Some(metadata.to_json()),
            _ => None,
        };
        table.push(("metadata", metadata));
        table.push(("safety_identifier", optional_text(&self.safety_identifier)));
        let truncation = match self.truncation {
            Some(truncation) => Some(Json::text(truncation.as_str())),
            None => None,
        };
        table.push(("truncation", truncation));
        table.push(("max_tool_calls", optional_count(self.max_tool_calls)));
        table.push(("stream", Some(Json::Bool(self.is_streaming()))));
        table.push(("stream_options", stream_options_json(self.transport)));
        table.push(("store", Some(Json::Bool(self.store))));
        table.push(("background", Some(Json::Bool(self.background))));
        assert(table_view(table@) =~= self.table());
        assemble(table)
    }
}

} // verus!
