//! What holds of request bodies as a whole.
use vstd::prelude::*;

use crate::body;
use crate::json;
use crate::json::{JsonView, NumberView};
use crate::metadata::Metadata;
use crate::model::{EffortMediumToXhigh, EffortNoneToMax, EffortNoneToXhigh, Model};
use crate::prefix::{PrefixSettings, TextFormatView};
use crate::request::{Request, Transport};
use crate::values::CacheRetention;
use crate::views;
use crate::wire_laws;

verus! {

/// Looking a name up after one more field was appended.
proof fn lookup_after_a_push(
    fields: Seq<(Seq<char>, JsonView)>,
    field: (Seq<char>, JsonView),
    key: Seq<char>,
)
    ensures
        json::lookup(fields.push(field), key) == match json::lookup(fields, key) {
            Some(value) => Some(value),
            None => if field.0 == key {
                Some(field.1)
            } else {
                None
            },
        },
    decreases fields.len(),
{
    if fields.len() == 0 {
        assert(fields.push(field).drop_first() =~= fields);
    } else {
        assert(fields.push(field).drop_first() =~= fields.drop_first().push(field));
        lookup_after_a_push(fields.drop_first(), field, key);
    }
}

/// A name no entry of a table carries is not found.
proof fn an_unlisted_name_is_absent(table: Seq<(Seq<char>, Option<JsonView>)>, key: Seq<char>)
    requires
        forall|i: int| 0 <= i < table.len() ==> (#[trigger] table[i]).0 != key,
    ensures
        json::lookup(body::present(table), key) is None,
    decreases table.len(),
{
    if table.len() > 0 {
        assert forall|i: int| 0 <= i < table.drop_last().len() implies (
        #[trigger] table.drop_last()[i]).0 != key by {
            assert(table.drop_last()[i] == table[i]);
        }
        an_unlisted_name_is_absent(table.drop_last(), key);
        assert(table[table.len() - 1].0 != key);
        if let Some(value) = table.last().1 {
            lookup_after_a_push(
                body::present(table.drop_last()),
                (table.last().0, value),
                key,
            );
        }
    }
}

/// Where no other entry carries a name, what is found under it is its entry's value.
proof fn an_entry_is_found(table: Seq<(Seq<char>, Option<JsonView>)>, i: int)
    requires
        0 <= i < table.len(),
        forall|j: int| 0 <= j < table.len() && j != i ==> (#[trigger] table[j]).0 != table[i].0,
    ensures
        json::lookup(body::present(table), table[i].0) == table[i].1,
    decreases table.len(),
{
    let before = table.drop_last();
    assert forall|j: int| 0 <= j < before.len() && j != i implies (#[trigger] before[j]).0
        != table[i].0 by {
        assert(before[j] == table[j]);
    }
    if i == table.len() - 1 {
        an_unlisted_name_is_absent(before, table[i].0);
    } else {
        assert(before[i] == table[i]);
        an_entry_is_found(before, i);
        assert(table[table.len() - 1].0 != table[i].0);
    }
    if let Some(value) = table.last().1 {
        lookup_after_a_push(body::present(before), (table.last().0, value), table[i].0);
    }
}

/// No two fields of a body share a name.
proof fn the_names_are_distinct(request: Request, i: int, j: int)
    requires
        0 <= i < request.table().len(),
        0 <= j < request.table().len(),
        i != j,
    ensures
        request.table()[i].0 != request.table()[j].0,
{
    let table = request.table();
    reveal_strlit("model");
    reveal_strlit("tools");
    reveal_strlit("instructions");
    reveal_strlit("input");
    reveal_strlit("parallel_tool_calls");
    reveal_strlit("text");
    reveal_strlit("reasoning");
    reveal_strlit("tool_choice");
    reveal_strlit("prompt_cache_options");
    reveal_strlit("prompt_cache_retention");
    reveal_strlit("prompt_cache_key");
    reveal_strlit("context_management");
    reveal_strlit("max_output_tokens");
    reveal_strlit("include");
    reveal_strlit("service_tier");
    reveal_strlit("metadata");
    reveal_strlit("safety_identifier");
    reveal_strlit("truncation");
    reveal_strlit("max_tool_calls");
    reveal_strlit("stream");
    reveal_strlit("stream_options");
    reveal_strlit("store");
    reveal_strlit("background");
    assert("model"@.len() == 5 && "model"@[0] == 'm');
    assert("tools"@.len() == 5 && "tools"@[0] == 't');
    assert("instructions"@.len() == 12 && "instructions"@[0] == 'i');
    assert("input"@.len() == 5 && "input"@[0] == 'i');
    assert("parallel_tool_calls"@.len() == 19 && "parallel_tool_calls"@[0] == 'p');
    assert("text"@.len() == 4 && "text"@[0] == 't');
    assert("reasoning"@.len() == 9 && "reasoning"@[0] == 'r');
    assert("tool_choice"@.len() == 11 && "tool_choice"@[0] == 't');
    assert("prompt_cache_options"@.len() == 20 && "prompt_cache_options"@[0] == 'p');
    assert("prompt_cache_retention"@.len() == 22 && "prompt_cache_retention"@[0] == 'p');
    assert("prompt_cache_key"@.len() == 16 && "prompt_cache_key"@[0] == 'p');
    assert("context_management"@.len() == 18 && "context_management"@[0] == 'c');
    assert("max_output_tokens"@.len() == 17 && "max_output_tokens"@[0] == 'm');
    assert("include"@.len() == 7 && "include"@[0] == 'i');
    assert("service_tier"@.len() == 12 && "service_tier"@[0] == 's');
    assert("metadata"@.len() == 8 && "metadata"@[0] == 'm');
    assert("safety_identifier"@.len() == 17 && "safety_identifier"@[0] == 's');
    assert("truncation"@.len() == 10 && "truncation"@[0] == 't');
    assert("max_tool_calls"@.len() == 14 && "max_tool_calls"@[0] == 'm');
    assert("stream"@.len() == 6 && "stream"@[0] == 's');
    assert("stream_options"@.len() == 14 && "stream_options"@[0] == 's');
    assert("store"@.len() == 5 && "store"@[0] == 's');
    assert("background"@.len() == 10 && "background"@[0] == 'b');
}

/// Every field of a body holds what its entry says, and is absent where the entry is.
pub proof fn a_body_holds_its_table(request: Request, i: int)
    requires
        0 <= i < request.table().len(),
    ensures
        request.body().field(request.table()[i].0) == request.table()[i].1,
{
    let table = request.table();
    assert forall|j: int| 0 <= j < table.len() && j != i implies (#[trigger] table[j]).0
        != table[i].0 by {
        the_names_are_distinct(request, i, j);
    }
    an_entry_is_found(table, i);
}

/// A body carries at most one caching field, the one the model's generation takes:
/// `prompt_cache_options` exactly on the models that honor explicit breakpoints, and
/// `prompt_cache_retention` only on the others.
pub proof fn one_caching_field_per_generation(request: Request)
    ensures
        request.body().field("prompt_cache_options"@) is Some
            <==> request.prefix.model.identity().honors_breakpoints(),
        request.body().field("prompt_cache_retention"@) is Some
            ==> !request.prefix.model.identity().honors_breakpoints(),
        request.body().field("prompt_cache_options"@) is None || request.body().field(
            "prompt_cache_retention"@,
        ) is None,
{
    a_body_holds_its_table(request, 8);
    a_body_holds_its_table(request, 9);
}

/// The two models whose only retention is extended always state it.
pub proof fn extended_retention_is_always_stated(request: Request)
    requires
        request.prefix.model is Gpt5_5 || request.prefix.model is Gpt5_5Pro,
    ensures
        request.body().field("prompt_cache_retention"@) == Some(
            JsonView::Text(CacheRetention::TwentyFourHours.wire()),
        ),
{
    a_body_holds_its_table(request, 9);
}

/// `stream_options` stands only beside `stream: true`.
pub proof fn stream_options_come_only_with_a_stream(request: Request)
    ensures
        request.body().field("stream_options"@) is Some ==> request.body().field("stream"@)
            == Some(JsonView::Bool(true)),
        request.body().field("stream"@) == Some(JsonView::Bool(request.transport is Streamed)),
{
    a_body_holds_its_table(request, 19);
    a_body_holds_its_table(request, 20);
}

proof fn an_entry_with_a_value_is_present(table: Seq<(Seq<char>, Option<JsonView>)>, i: int)
    requires
        0 <= i < table.len(),
        table[i].1 is Some,
    ensures
        body::present(table).len() > 0,
    decreases table.len(),
{
    if i < table.len() - 1 {
        assert(table.drop_last()[i] == table[i]);
        an_entry_with_a_value_is_present(table.drop_last(), i);
    }
}

/// An empty `reasoning` object is never sent: the field is absent exactly where there is
/// nothing to put in it.
pub proof fn an_empty_reasoning_object_is_never_sent(request: Request)
    ensures
        request.body().field("reasoning"@) matches Some(reasoning) ==> reasoning matches JsonView::Object(
            fields,
        ) && fields.len() > 0,
        request.body().field("reasoning"@) is None <==> request.prefix.model.chosen_effort()
            is None && request.prefix.model.reasoning_mode() is None
            && request.prefix.model.reasoning_context() is None
            && request.prefix.reasoning_summary is None,
{
    a_body_holds_its_table(request, 6);
    let model = request.prefix.model;
    let table = body::reasoning_table(model, request.prefix.reasoning_summary);
    if model.chosen_effort() is Some {
        an_entry_with_a_value_is_present(table, 0);
    } else if model.reasoning_mode() is Some {
        an_entry_with_a_value_is_present(table, 1);
    } else if model.reasoning_context() is Some {
        an_entry_with_a_value_is_present(table, 2);
    } else if request.prefix.reasoning_summary is Some {
        an_entry_with_a_value_is_present(table, 3);
    }
}

/// The fields that hold a list are absent rather than empty.
pub proof fn an_empty_list_is_never_sent(request: Request)
    ensures
        request.body().field("tools"@) is None <==> request.context@.tools.len() == 0,
        request.body().field("include"@) is None <==> request.includes@.len() == 0,
{
    a_body_holds_its_table(request, 1);
    a_body_holds_its_table(request, 13);
}

/// Metadata is sent exactly where there is some: empty metadata is absent, not `{}`.
pub proof fn empty_metadata_is_never_sent(request: Request)
    ensures
        request.body().field("metadata"@) == match request.metadata {
            Some(metadata) if metadata@.len() > 0 => Some(Metadata::wire(metadata@)),
            _ => None,
        },
{
    a_body_holds_its_table(request, 15);
}

/// Every field with a documented default is stated in every body.
pub proof fn documented_defaults_are_always_stated(request: Request)
    ensures
        request.body().field("model"@) is Some,
        request.body().field("input"@) is Some,
        request.body().field("parallel_tool_calls"@) is Some,
        request.body().field("text"@) is Some,
        request.body().field("tool_choice"@) is Some,
        request.body().field("stream"@) is Some,
        request.body().field("store"@) is Some,
        request.body().field("background"@) is Some,
{
    a_body_holds_its_table(request, 0);
    a_body_holds_its_table(request, 3);
    a_body_holds_its_table(request, 4);
    a_body_holds_its_table(request, 5);
    a_body_holds_its_table(request, 7);
    a_body_holds_its_table(request, 19);
    a_body_holds_its_table(request, 21);
    a_body_holds_its_table(request, 22);
}

/// Whether two prefix settings hold the same.
pub open spec fn same_settings(a: PrefixSettings, b: PrefixSettings) -> bool {
    &&& a.model == b.model
    &&& a.parallel_tool_calls == b.parallel_tool_calls
    &&& a.text_format@ == b.text_format@
    &&& a.verbosity == b.verbosity
    &&& a.context_management == b.context_management
    &&& a.reasoning_summary == b.reasoning_summary
}

/// Per-call settings never reach the hashed prefix: over one conversation and one set of
/// prefix settings, two requests agree on every field the prefix is rendered from, whatever
/// else they set.
pub proof fn per_call_settings_leave_the_prefix_alone(a: Request, b: Request)
    requires
        a.context@.tools == b.context@.tools,
        a.context@.items == b.context@.items,
        same_settings(a.prefix, b.prefix),
    ensures
        a.body().field("model"@) == b.body().field("model"@),
        a.body().field("tools"@) == b.body().field("tools"@),
        a.body().field("input"@) == b.body().field("input"@),
        a.body().field("parallel_tool_calls"@) == b.body().field("parallel_tool_calls"@),
        a.body().field("text"@) == b.body().field("text"@),
        a.body().field("reasoning"@) == b.body().field("reasoning"@),
        a.body().field("prompt_cache_options"@) == b.body().field("prompt_cache_options"@),
        a.body().field("prompt_cache_retention"@) == b.body().field("prompt_cache_retention"@),
        a.body().field("context_management"@) == b.body().field("context_management"@),
{
    a_body_holds_its_table(a, 0);
    a_body_holds_its_table(a, 1);
    a_body_holds_its_table(a, 3);
    a_body_holds_its_table(a, 4);
    a_body_holds_its_table(a, 5);
    a_body_holds_its_table(a, 6);
    a_body_holds_its_table(a, 8);
    a_body_holds_its_table(a, 9);
    a_body_holds_its_table(a, 11);
    a_body_holds_its_table(b, 0);
    a_body_holds_its_table(b, 1);
    a_body_holds_its_table(b, 3);
    a_body_holds_its_table(b, 4);
    a_body_holds_its_table(b, 5);
    a_body_holds_its_table(b, 6);
    a_body_holds_its_table(b, 8);
    a_body_holds_its_table(b, 9);
    a_body_holds_its_table(b, 11);
}

/// Whether two requests set the same beside their conversations and which tools may be called.
pub open spec fn same_but_for_the_tool_choice(a: Request, b: Request) -> bool {
    &&& same_settings(a.prefix, b.prefix)
    &&& views::option_view(a.prompt_cache_key) == views::option_view(b.prompt_cache_key)
    &&& a.max_output_tokens == b.max_output_tokens
    &&& a.transport == b.transport
    &&& a.store == b.store
    &&& views::option_view(a.instructions) == views::option_view(b.instructions)
    &&& a.includes@ == b.includes@
    &&& a.service_tier == b.service_tier
    &&& views::option_view(a.metadata) == views::option_view(b.metadata)
    &&& views::option_view(a.safety_identifier) == views::option_view(b.safety_identifier)
    &&& a.truncation == b.truncation
    &&& a.max_tool_calls == b.max_tool_calls
    &&& a.background == b.background
}

/// Restricting which tools may be called changes `tool_choice` and no other field: the tool
/// array is as it was.
pub proof fn a_tool_choice_leaves_the_tools_alone(a: Request, b: Request)
    requires
        a.context@.tools == b.context@.tools,
        a.context@.items == b.context@.items,
        same_but_for_the_tool_choice(a, b),
    ensures
        a.body().field("tools"@) == b.body().field("tools"@),
        forall|i: int|
            0 <= i < a.table().len() && a.table()[i].0 != "tool_choice"@ ==> #[trigger] a.table()[i]
                == b.table()[i],
{
    per_call_settings_leave_the_prefix_alone(a, b);
}

/// Whether two requests set the same beside their conversations.
pub open spec fn same_choices(a: Request, b: Request) -> bool {
    &&& same_but_for_the_tool_choice(a, b)
    &&& a.tool_choice@ == b.tool_choice@
}

/// A later turn's body is an earlier one's with items appended to `input`: every other field
/// is the same, and every earlier item is written as it was.
pub proof fn a_later_turn_extends_the_body(earlier: Request, later: Request)
    requires
        same_choices(earlier, later),
        later.context@.tools == earlier.context@.tools,
        earlier.context@.items.is_prefix_of(later.context@.items),
    ensures
        earlier.table().len() == later.table().len(),
        forall|i: int|
            0 <= i < earlier.table().len() ==> (#[trigger] earlier.table()[i]).0
                == later.table()[i].0,
        forall|i: int|
            0 <= i < earlier.table().len() && (#[trigger] earlier.table()[i]).0 != "input"@
                ==> earlier.table()[i] == later.table()[i],
        earlier.body().items_at("input"@) is Some,
        later.body().items_at("input"@) is Some,
        earlier.body().items_at("input"@)->0.is_prefix_of(later.body().items_at("input"@)->0),
{
    a_body_holds_its_table(earlier, 3);
    a_body_holds_its_table(later, 3);
    let a = body::items_wire(earlier.context@.items)->Array_0;
    let b = body::items_wire(later.context@.items)->Array_0;
    assert forall|i: int| 0 <= i < a.len() implies a[i] == b[i] by {
        assert(earlier.context@.items[i] == later.context@.items[i]);
    }
    assert(a.is_prefix_of(b));
}

proof fn the_inner_names_differ()
    ensures
        "type"@.len() == 4 && "type"@[0] == 't',
        "name"@.len() == 4 && "name"@[0] == 'n',
        "mode"@.len() == 4 && "mode"@[0] == 'm',
        "ttl"@.len() == 3,
        "format"@.len() == 6 && "format"@[0] == 'f',
        "schema"@.len() == 6 && "schema"@[1] == 'c',
        "strict"@.len() == 6 && "strict"@[1] == 't',
        "effort"@.len() == 6 && "effort"@[0] == 'e',
        "context"@.len() == 7 && "context"@[0] == 'c',
        "summary"@.len() == 7 && "summary"@[0] == 's',
        "verbosity"@.len() == 9,
        "compact_threshold"@.len() == 17,
        "include_obfuscation"@.len() == 19,
{
    reveal_strlit("type");
    reveal_strlit("name");
    reveal_strlit("mode");
    reveal_strlit("ttl");
    reveal_strlit("format");
    reveal_strlit("schema");
    reveal_strlit("strict");
    reveal_strlit("effort");
    reveal_strlit("context");
    reveal_strlit("summary");
    reveal_strlit("verbosity");
    reveal_strlit("compact_threshold");
    reveal_strlit("include_obfuscation");
}

/// The conversation is sent whole and in order: every tool under `tools`, every item under
/// `input`, each as it is sent alone.
pub proof fn the_conversation_is_sent_in_order(request: Request)
    ensures
        request.body().items_at("input"@) is Some,
        request.body().items_at("input"@)->0.len() == request.context@.items.len(),
        forall|i: int|
            0 <= i < request.context@.items.len() ==> #[trigger] request.body().items_at(
                "input"@,
            )->0[i] == request.context@.items[i].wire(),
        request.context@.tools.len() > 0 ==> {
            &&& request.body().items_at("tools"@) is Some
            &&& request.body().items_at("tools"@)->0.len() == request.context@.tools.len()
            &&& forall|i: int|
                0 <= i < request.context@.tools.len() ==> #[trigger] request.body().items_at(
                    "tools"@,
                )->0[i] == request.context@.tools[i].wire()
        },
        request.context@.tools.len() == 0 ==> request.body().field("tools"@) is None,
{
    a_body_holds_its_table(request, 1);
    a_body_holds_its_table(request, 3);
}

/// Each per-call choice stands under its own name, as the caller made it, and one that was not
/// made is absent.
pub proof fn each_choice_stands_under_its_name(request: Request)
    ensures
        request.body().field("tool_choice"@) == Some(request.tool_choice@.wire()),
        request.body().field("store"@) == Some(JsonView::Bool(request.store)),
        request.body().field("background"@) == Some(JsonView::Bool(request.background)),
        request.body().field("stream"@) == Some(
            JsonView::Bool(
                match request.transport {
                    Transport::Streamed { .. } => true,
                    Transport::Buffered => false,
                },
            ),
        ),
        match request.transport {
            Transport::Streamed { include_obfuscation: Some(padded) } => {
                &&& request.body().field("stream_options"@) is Some
                &&& request.body().field("stream_options"@)->0.field("include_obfuscation"@)
                    == Some(JsonView::Bool(padded))
            },
            _ => request.body().field("stream_options"@) is None,
        },
        match request.prompt_cache_key {
            Some(key) => request.body().text_at("prompt_cache_key"@) == Some(key@),
            None => request.body().field("prompt_cache_key"@) is None,
        },
        match request.instructions {
            Some(instructions) => request.body().text_at("instructions"@) == Some(instructions.0@),
            None => request.body().field("instructions"@) is None,
        },
        match request.safety_identifier {
            Some(identifier) => request.body().text_at("safety_identifier"@) == Some(identifier@),
            None => request.body().field("safety_identifier"@) is None,
        },
        match request.max_output_tokens {
            Some(n) => request.body().field("max_output_tokens"@) == Some(
                JsonView::Number(NumberView::PosInt(n as u64)),
            ),
            None => request.body().field("max_output_tokens"@) is None,
        },
        match request.max_tool_calls {
            Some(n) => request.body().field("max_tool_calls"@) == Some(
                JsonView::Number(NumberView::PosInt(n as u64)),
            ),
            None => request.body().field("max_tool_calls"@) is None,
        },
        match request.service_tier {
            Some(tier) => request.body().text_at("service_tier"@) == Some(tier.wire()),
            None => request.body().field("service_tier"@) is None,
        },
        match request.truncation {
            Some(truncation) => request.body().text_at("truncation"@) == Some(truncation.wire()),
            None => request.body().field("truncation"@) is None,
        },
        request.includes@.len() > 0 ==> {
            &&& request.body().items_at("include"@) is Some
            &&& request.body().items_at("include"@)->0.len() == request.includes@.len()
            &&& forall|i: int|
                0 <= i < request.includes@.len() ==> (#[trigger] request.body().items_at(
                    "include"@,
                )->0[i]).text() == Some(request.includes@[i].wire())
        },
        match request.metadata {
            Some(metadata) if metadata@.len() > 0 => {
                &&& request.body().field("metadata"@) matches Some(JsonView::Object(fields))
                &&& fields.len() == metadata@.len()
                &&& forall|i: int|
                    0 <= i < fields.len() ==> (#[trigger] fields[i]).0 == metadata@[i].0
                        && fields[i].1 == JsonView::Text(metadata@[i].1)
            },
            _ => request.body().field("metadata"@) is None,
        },
{
    a_body_holds_its_table(request, 2);
    a_body_holds_its_table(request, 7);
    a_body_holds_its_table(request, 10);
    a_body_holds_its_table(request, 12);
    a_body_holds_its_table(request, 13);
    a_body_holds_its_table(request, 14);
    a_body_holds_its_table(request, 15);
    a_body_holds_its_table(request, 16);
    a_body_holds_its_table(request, 17);
    a_body_holds_its_table(request, 18);
    a_body_holds_its_table(request, 19);
    a_body_holds_its_table(request, 20);
    a_body_holds_its_table(request, 21);
    a_body_holds_its_table(request, 22);
    if let Transport::Streamed { include_obfuscation: Some(padded) } = request.transport {
        wire_laws::a_field_is_found_under_its_name(
            body::stream_options_wire(request.transport)->0->Object_0,
            0,
        );
    }
}

/// Each setting of the prefix stands under its own name: the model, whether calls may run in
/// parallel, the format and length of the answer, and compaction.
pub proof fn each_prefix_setting_stands_under_its_name(request: Request)
    ensures
        request.body().text_at("model"@) == Some(request.prefix.model.identity().wire()),
        request.body().field("parallel_tool_calls"@) == Some(
            JsonView::Bool(request.prefix.parallel_tool_calls),
        ),
        request.body().field("text"@) is Some,
        request.body().field("text"@)->0.text_at("verbosity"@) == Some(
            request.prefix.verbosity.wire(),
        ),
        request.body().field("text"@)->0.field("format"@) matches Some(format)
            && match request.prefix.text_format@ {
            TextFormatView::Text => format.text_at("type"@) == Some("text"@),
            TextFormatView::JsonSchema { name, schema, strict } => {
                &&& format.text_at("type"@) == Some("json_schema"@)
                &&& format.text_at("name"@) == Some(name)
                &&& format.field("schema"@) == Some(schema)
                &&& format.field("strict"@) == Some(JsonView::Bool(strict))
            },
        },
        match request.prefix.context_management {
            Some(compaction) => {
                &&& request.body().items_at("context_management"@) matches Some(list)
                &&& list.len() == 1
                &&& list[0].text_at("type"@) == Some("compaction"@)
                &&& list[0].field("compact_threshold"@) == match compaction.compact_threshold {
                    Some(n) => Some(JsonView::Number(NumberView::PosInt(n as u64))),
                    None => None,
                }
            },
            None => request.body().field("context_management"@) is None,
        },
{
    the_inner_names_differ();
    a_body_holds_its_table(request, 0);
    a_body_holds_its_table(request, 4);
    a_body_holds_its_table(request, 5);
    a_body_holds_its_table(request, 11);
    let format = body::format_wire(request.prefix.text_format@)->Object_0;
    let said = body::text_wire(request.prefix.text_format@, request.prefix.verbosity)->Object_0;
    wire_laws::a_field_is_found_under_its_name(said, 0);
    wire_laws::a_field_is_found_under_its_name(said, 1);
    wire_laws::a_field_is_found_under_its_name(format, 0);
    if request.prefix.text_format@ is JsonSchema {
        wire_laws::a_field_is_found_under_its_name(format, 1);
        wire_laws::a_field_is_found_under_its_name(format, 2);
        wire_laws::a_field_is_found_under_its_name(format, 3);
    }
    if let Some(compaction) = request.prefix.context_management {
        let list = body::compaction_wire(request.prefix.context_management)->0->Array_0;
        let fields = list[0]->Object_0;
        wire_laws::a_field_is_found_under_its_name(fields, 0);
        if compaction.compact_threshold is Some {
            wire_laws::a_field_is_found_under_its_name(fields, 1);
        } else {
            wire_laws::nothing_is_found_under_another_name(fields, "compact_threshold"@);
        }
    }
}

/// What the caller chose of the model's reasoning and caching stands under its own name, each
/// alone, on the models that take it.
pub proof fn each_model_parameter_stands_under_its_name(request: Request)
    ensures
        ({
            let reasoning = match request.body().field("reasoning"@) {
                Some(held) => held,
                None => JsonView::Object(Seq::empty()),
            };
            let (effort, mode, context) = match request.prefix.model {
                Model::Gpt5_6(m) => (
                    match m.effort {
                        Some(effort) => Some(effort.wire()),
                        None => None,
                    },
                    match m.mode {
                        Some(mode) => Some(mode.wire()),
                        None => None,
                    },
                    Some(m.reasoning_context.wire()),
                ),
                Model::Gpt6Sol(m) => (
                    match m.effort {
                        Some(effort) => Some(effort.wire()),
                        None => None,
                    },
                    match m.mode {
                        Some(mode) => Some(mode.wire()),
                        None => None,
                    },
                    Some(m.reasoning_context.wire()),
                ),
                Model::Gpt5_5(m) => (
                    match m.effort {
                        Some(effort) => Some(effort.wire()),
                        None => None,
                    },
                    None,
                    None,
                ),
                Model::Gpt5_5Pro(m) => (
                    match m.effort {
                        Some(effort) => Some(effort.wire()),
                        None => None,
                    },
                    None,
                    None,
                ),
                Model::Gpt5_4(m) => (
                    match m.effort {
                        Some(effort) => Some(effort.wire()),
                        None => None,
                    },
                    None,
                    None,
                ),
            };
            &&& reasoning.text_at("effort"@) == effort
            &&& reasoning.text_at("mode"@) == mode
            &&& reasoning.text_at("context"@) == context
            &&& reasoning.text_at("summary"@) == match request.prefix.reasoning_summary {
                Some(summary) => Some(summary.wire()),
                None => None,
            }
        }),
        match request.prefix.model {
            Model::Gpt5_6(m) => {
                &&& request.body().field("prompt_cache_options"@) matches Some(options)
                &&& options.text_at("mode"@) == Some(m.caching.mode.wire())
                &&& options.text_at("ttl"@) == Some(m.caching.ttl.wire())
            },
            Model::Gpt6Sol(m) => {
                &&& request.body().field("prompt_cache_options"@) matches Some(options)
                &&& options.text_at("mode"@) == Some(m.caching.mode.wire())
                &&& options.text_at("ttl"@) == Some(m.caching.ttl.wire())
            },
            Model::Gpt5_4(m) => request.body().text_at("prompt_cache_retention"@)
                == match m.retention {
                Some(retention) => Some(retention.wire()),
                None => None,
            },
            Model::Gpt5_5(_) | Model::Gpt5_5Pro(_) => request.body().text_at(
                "prompt_cache_retention"@,
            ) == Some("24h"@),
        },
{
    the_inner_names_differ();
    a_body_holds_its_table(request, 6);
    a_body_holds_its_table(request, 8);
    a_body_holds_its_table(request, 9);
    let model = request.prefix.model;
    let table = body::reasoning_table(model, request.prefix.reasoning_summary);
    an_entry_is_found(table, 0);
    an_entry_is_found(table, 1);
    an_entry_is_found(table, 2);
    an_entry_is_found(table, 3);
    if let Some(caching) = model.cache_options() {
        let fields = body::options_wire(model.cache_options())->0->Object_0;
        wire_laws::a_field_is_found_under_its_name(fields, 0);
        wire_laws::a_field_is_found_under_its_name(fields, 1);
    }
    match model {
        Model::Gpt5_6(m) => {
            if let Some(effort) = m.effort {
                EffortNoneToMax::widening_keeps_the_string(effort);
            }
        },
        Model::Gpt6Sol(m) => {
            if let Some(effort) = m.effort {
                EffortNoneToMax::widening_keeps_the_string(effort);
            }
        },
        Model::Gpt5_5(m) => {
            if let Some(effort) = m.effort {
                EffortNoneToXhigh::widening_keeps_the_string(effort);
            }
        },
        Model::Gpt5_4(m) => {
            if let Some(effort) = m.effort {
                EffortNoneToXhigh::widening_keeps_the_string(effort);
            }
        },
        Model::Gpt5_5Pro(m) => {
            if let Some(effort) = m.effort {
                EffortMediumToXhigh::widening_keeps_the_string(effort);
            }
        },
    }
}

/// A body holds nothing but these fields.
pub proof fn a_body_holds_nothing_else(request: Request, key: Seq<char>)
    requires
        request.body().field(key) is Some,
    ensures
        seq![
            "model"@,
            "tools"@,
            "instructions"@,
            "input"@,
            "parallel_tool_calls"@,
            "text"@,
            "reasoning"@,
            "tool_choice"@,
            "prompt_cache_options"@,
            "prompt_cache_retention"@,
            "prompt_cache_key"@,
            "context_management"@,
            "max_output_tokens"@,
            "include"@,
            "service_tier"@,
            "metadata"@,
            "safety_identifier"@,
            "truncation"@,
            "max_tool_calls"@,
            "stream"@,
            "stream_options"@,
            "store"@,
            "background"@,
        ].contains(key),
{
    let names = seq![
        "model"@,
        "tools"@,
        "instructions"@,
        "input"@,
        "parallel_tool_calls"@,
        "text"@,
        "reasoning"@,
        "tool_choice"@,
        "prompt_cache_options"@,
        "prompt_cache_retention"@,
        "prompt_cache_key"@,
        "context_management"@,
        "max_output_tokens"@,
        "include"@,
        "service_tier"@,
        "metadata"@,
        "safety_identifier"@,
        "truncation"@,
        "max_tool_calls"@,
        "stream"@,
        "stream_options"@,
        "store"@,
        "background"@,
    ];
    let table = request.table();
    assert(table.len() == 23);
    assert forall|i: int| 0 <= i < table.len() implies (#[trigger] table[i]).0 == names[i] by {
    }
    if forall|i: int| 0 <= i < table.len() ==> (#[trigger] table[i]).0 != key {
        an_unlisted_name_is_absent(table, key);
    } else {
        let i = choose|i: int| 0 <= i < table.len() && (#[trigger] table[i]).0 == key;
        assert(names[i] == key);
    }
}

} // verus!
