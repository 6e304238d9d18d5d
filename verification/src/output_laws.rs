//! What a decoded response holds: each item repeats its own fields, and what is read off a
//! list of items is read off each of them, in order.
use vstd::prelude::*;

use crate::content::{
    InputItemView, MessageView, OutputBlockView, ReplayedReasoningView,
};
use crate::decode;
use crate::frame_laws;
use crate::items::{
    CalledFunctionView, OutputItemView, ReasoningItemView, ResponseSnapshotView,
};
use crate::json::JsonView;
use crate::response;
use crate::response::{ItemText, ResponseView};
use crate::settled;
use crate::stream::FrameErrorView;
use crate::usage;
use crate::values::{AssistantPhase, HostedTool, IncompleteReason, ResponseStatus, ServiceTier};
use crate::wire_laws;

verus! {

/// What a list contributes is what its two halves contribute, one after the other.
pub proof fn blocks_contribute_in_order(
    a: Seq<JsonView>,
    b: Seq<JsonView>,
    block_type: Option<Seq<char>>,
    key: Seq<char>,
)
    ensures
        decode::pieces_of(a + b, block_type, key) == decode::pieces_of(a, block_type, key)
            + decode::pieces_of(b, block_type, key),
    decreases b.len(),
{
    if b.len() == 0 {
        assert(a + b =~= a);
        assert(decode::pieces_of(a, block_type, key) + Seq::<char>::empty() =~= decode::pieces_of(
            a,
            block_type,
            key,
        ));
    } else {
        assert((a + b).drop_last() =~= a + b.drop_last());
        assert((a + b).last() == b.last());
        blocks_contribute_in_order(a, b.drop_last(), block_type, key);
        assert(decode::pieces_of(a + b, block_type, key) =~= decode::pieces_of(a, block_type, key)
            + decode::pieces_of(b, block_type, key));
    }
}

/// One block contributes the text it holds under the name, where it is of the type asked for
/// or none is asked for, and otherwise nothing.
pub proof fn a_block_contributes_its_text(
    block: JsonView,
    block_type: Option<Seq<char>>,
    key: Seq<char>,
)
    ensures
        decode::pieces_of(seq![block], block_type, key) == match block.text_at(key) {
            Some(text) if block_type is None || block.text_at("type"@) == block_type => text,
            _ => Seq::empty(),
        },
        decode::pieces_of(Seq::empty(), block_type, key).len() == 0,
{
    reveal_with_fuel(decode::pieces_of, 2);
    assert(seq![block].drop_last() =~= Seq::<JsonView>::empty());
    assert(seq![block].last() == block);
    assert(Seq::<char>::empty() + decode::piece_of(block, block_type, key) =~= decode::piece_of(
        block,
        block_type,
        key,
    ));
}

/// A message item holds its own id and phase, the text of its `output_text` blocks and the
/// refusal of its `refusal` blocks. A phase it does not name, or names in a way nobody
/// documented, is none.
pub proof fn a_message_item_holds_its_blocks(item: JsonView)
    requires
        item.text_at("type"@) == Some("message"@),
    ensures
        decode::item_of(item) matches Ok(OutputItemView::Message { id, phase, text, refusal }) && {
            &&& id == item.text_at("id"@)
            &&& phase == Some(AssistantPhase::Commentary) <==> item.text_at("phase"@) == Some(
                "commentary"@,
            )
            &&& phase == Some(AssistantPhase::FinalAnswer) <==> item.text_at("phase"@) == Some(
                "final_answer"@,
            )
            &&& text == match item.items_at("content"@) {
                Some(blocks) => decode::pieces_of(blocks, Some("output_text"@), "text"@),
                None => Seq::empty(),
            }
            &&& refusal == match item.items_at("content"@) {
                Some(blocks) => decode::pieces_of(blocks, Some("refusal"@), "refusal"@),
                None => Seq::empty(),
            }
        },
{
    if let Some(phase) = item.text_at("phase"@) {
        phases_are_named(phase);
    }
}

/// A phase is named by its own string and by no other.
pub proof fn phases_are_named(s: Seq<char>)
    ensures
        AssistantPhase::named(s) == Some(AssistantPhase::Commentary) <==> s == "commentary"@,
        AssistantPhase::named(s) == Some(AssistantPhase::FinalAnswer) <==> s == "final_answer"@,
{
    reveal_strlit("commentary");
    reveal_strlit("final_answer");
    assert("commentary"@.len() == 10 && "final_answer"@.len() == 12);
    assert(AssistantPhase::Commentary.wire() == "commentary"@);
    assert(AssistantPhase::FinalAnswer.wire() == "final_answer"@);
}

/// A function call item holds its own call id, name and arguments; without a call id or a name
/// it is refused, and without arguments they are empty.
pub proof fn a_call_item_holds_its_arguments(item: JsonView)
    requires
        item.text_at("type"@) == Some("function_call"@),
    ensures
        match (item.text_at("call_id"@), item.text_at("name"@)) {
            (Some(call_id), Some(name)) => decode::item_of(item) == Ok::<
                OutputItemView,
                FrameErrorView,
            >(
                OutputItemView::FunctionCall(
                    CalledFunctionView {
                        id: item.text_at("id"@),
                        call_id,
                        name,
                        arguments: match item.text_at("arguments"@) {
                            Some(arguments) => arguments,
                            None => Seq::empty(),
                        },
                    },
                ),
            ),
            _ => decode::item_of(item) is Err,
        },
        item.field("call_id"@) is None ==> decode::item_of(item) == Err::<
            OutputItemView,
            FrameErrorView,
        >(FrameErrorView::MissingField { field: "call_id"@ }),
{
    frame_laws::call_types_differ();
}

/// A reasoning item holds its own id, its payload where that is not empty, and its summary
/// parts in order; without an id it is refused.
pub proof fn a_reasoning_item_holds_its_payload(item: JsonView)
    requires
        item.text_at("type"@) == Some("reasoning"@),
    ensures
        match item.text_at("id"@) {
            Some(id) => decode::item_of(item) matches Ok(OutputItemView::Reasoning(held)) && {
                &&& held.id == id
                &&& match item.text_at("encrypted_content"@) {
                    Some(payload) if payload.len() > 0 => held.encrypted_content == Some(payload),
                    _ => held.encrypted_content is None,
                }
                &&& held.summary == match item.items_at("summary"@) {
                    Some(parts) => decode::pieces_of(parts, None, "text"@),
                    None => Seq::empty(),
                }
            },
            None => decode::item_of(item) is Err,
        },
{
    frame_laws::call_types_differ();
}

/// A hosted tool's call is known by its type, and carries the whole item.
pub proof fn a_hosted_call_carries_its_item(item: JsonView, tool: HostedTool)
    requires
        item.text_at("type"@) == Some(
            match tool {
                HostedTool::FileSearch => "file_search_call"@,
                HostedTool::WebSearch => "web_search_call"@,
                HostedTool::CodeInterpreter => "code_interpreter_call"@,
                HostedTool::ImageGeneration => "image_generation_call"@,
                HostedTool::Mcp => "mcp_call"@,
                HostedTool::McpListTools => "mcp_list_tools"@,
                HostedTool::Shell => "shell_call"@,
                HostedTool::LocalShell => "local_shell_call"@,
                HostedTool::Computer => "computer_call"@,
                HostedTool::ApplyPatch => "apply_patch_call"@,
                HostedTool::Custom => "custom_tool_call"@,
                HostedTool::ToolSearch => "tool_search_call"@,
            },
        ),
    ensures
        decode::item_of(item) == Ok::<OutputItemView, FrameErrorView>(
            OutputItemView::HostedToolCall {
                tool,
                id: item.text_at("id"@),
                status: item.text_at("status"@),
                item,
            },
        ),
{
    frame_laws::call_types_differ();
}

/// An item whose type is none of these is kept by its type, and one without a type, or that is
/// no object, is refused.
pub proof fn an_item_needs_a_type(item: JsonView)
    ensures
        !(item is Object) ==> decode::item_of(item) == Err::<OutputItemView, FrameErrorView>(
            FrameErrorView::WrongType { field: "item"@, expected: "an object"@ },
        ),
        item is Object && item.field("type"@) is None ==> decode::item_of(item) == Err::<
            OutputItemView,
            FrameErrorView,
        >(FrameErrorView::MissingField { field: "type"@ }),
        item.field("type"@) is Some && item.text_at("type"@) is None ==> decode::item_of(item)
            == Err::<OutputItemView, FrameErrorView>(
            FrameErrorView::WrongType { field: "type"@, expected: "a string"@ },
        ),
        decode::item_of(item) matches Ok(OutputItemView::Unmodeled { kind }) ==> {
            &&& item.text_at("type"@) == Some(kind)
            &&& kind != "message"@ && kind != "function_call"@ && kind != "reasoning"@
            &&& kind != "file_search_call"@ && kind != "web_search_call"@
            &&& kind != "code_interpreter_call"@ && kind != "image_generation_call"@
            &&& kind != "mcp_call"@ && kind != "mcp_list_tools"@ && kind != "shell_call"@
            &&& kind != "local_shell_call"@ && kind != "computer_call"@
            &&& kind != "apply_patch_call"@ && kind != "custom_tool_call"@
            &&& kind != "tool_search_call"@
        },
{
}

/// A list of items decodes one for one, in order, or fails with the first that does.
pub proof fn items_decode_one_for_one(items: Seq<JsonView>)
    ensures
        match decode::items_of(items) {
            Ok(decoded) => {
                &&& decoded.len() == items.len()
                &&& forall|i: int|
                    0 <= i < items.len() ==> decode::item_of(#[trigger] items[i]) == Ok::<
                        OutputItemView,
                        FrameErrorView,
                    >(decoded[i])
            },
            Err(error) => exists|i: int|
                {
                    &&& 0 <= i < items.len()
                    &&& decode::item_of(#[trigger] items[i]) == Err::<
                        OutputItemView,
                        FrameErrorView,
                    >(error)
                    &&& forall|j: int| 0 <= j < i ==> decode::item_of(#[trigger] items[j]) is Ok
                },
        },
    decreases items.len(),
{
    if items.len() > 0 {
        let before = items.drop_last();
        items_decode_one_for_one(before);
        let last = items.len() - 1;
        match decode::items_of(before) {
            Ok(decoded) => {
                assert forall|i: int| 0 <= i < last implies decode::item_of(#[trigger] items[i])
                    == Ok::<OutputItemView, FrameErrorView>(decoded[i]) by {
                    assert(before[i] == items[i]);
                }
                assert(items[last] == items.last());
            },
            Err(error) => {
                let i = choose|i: int|
                    {
                        &&& 0 <= i < before.len()
                        &&& decode::item_of(#[trigger] before[i]) == Err::<
                            OutputItemView,
                            FrameErrorView,
                        >(error)
                        &&& forall|j: int|
                            0 <= j < i ==> decode::item_of(#[trigger] before[j]) is Ok
                    };
                assert(items[i] == before[i]);
                assert forall|j: int| 0 <= j < i implies decode::item_of(
                    #[trigger] items[j],
                ) is Ok by {
                    assert(before[j] == items[j]);
                }
            },
        }
    }
}

/// A response object holds its own fields, each read alone: what one lacks takes nothing from
/// the others. A `null` usage is none, and an `error` that is no object is none.
pub proof fn a_snapshot_holds_its_fields(response: JsonView, held: ResponseSnapshotView)
    requires
        decode::snapshot_of(response) == Ok::<ResponseSnapshotView, FrameErrorView>(held),
    ensures
        held.id == response.text_at("id"@),
        held.status == match response.text_at("status"@) {
            Some(status) => ResponseStatus::named(status),
            None => None,
        },
        held.service_tier == match response.text_at("service_tier"@) {
            Some(tier) => ServiceTier::named(tier),
            None => None,
        },
        held.incomplete_reason == match response.field("incomplete_details"@) {
            Some(details) => match details.text_at("reason"@) {
                Some(reason) => IncompleteReason::named(reason),
                None => None,
            },
            None => None,
        },
        match response.field("error"@) {
            Some(JsonView::Object(fields)) => held.error matches Some(error) && {
                let told = JsonView::Object(fields);
                &&& error.code == told.text_at("code"@)
                &&& error.param == told.text_at("param"@)
                &&& error.message == match told.text_at("message"@) {
                    Some(message) => message,
                    None => Seq::empty(),
                }
            },
            _ => held.error is None,
        },
        match response.field("usage"@) {
            None => held.usage is None,
            Some(JsonView::Null) => held.usage is None,
            Some(reported) => held.usage matches Some(usage) && usage::usage_in(reported)
                == Ok::<usage::Usage, Seq<char>>(usage),
        },
        match response.items_at("output"@) {
            None => held.output.len() == 0,
            Some(items) => {
                &&& held.output.len() == items.len()
                &&& forall|i: int|
                    0 <= i < items.len() ==> decode::item_of(#[trigger] items[i]) == Ok::<
                        OutputItemView,
                        FrameErrorView,
                    >(held.output[i])
            },
        },
{
    if let Some(items) = response.items_at("output"@) {
        items_decode_one_for_one(items);
    }
}

/// A response object is refused only for what it holds: it is no object, its usage cannot be
/// read, or one of its items cannot.
pub proof fn a_snapshot_is_refused_for_its_parts(response: JsonView)
    ensures
        decode::snapshot_of(response) is Err <==> {
            ||| !(response is Object)
            ||| response.field("usage"@) matches Some(reported) && !(reported is Null)
                && usage::usage_in(reported) is Err
            ||| response.items_at("output"@) matches Some(items) && exists|i: int|
                0 <= i < items.len() && decode::item_of(#[trigger] items[i]) is Err
        },
{
    if let Some(items) = response.items_at("output"@) {
        items_decode_one_for_one(items);
    }
}

/// A buffered response holds what its body says, the body itself among it.
pub proof fn a_response_holds_its_body(body: JsonView, held: ResponseView)
    requires
        response::response_in(body) == Ok::<ResponseView, FrameErrorView>(held),
    ensures
        held.raw == body,
        held.model == body.text_at("model"@),
        decode::snapshot_of(body) matches Ok(snapshot) && {
            &&& held.id == snapshot.id
            &&& held.status == snapshot.status
            &&& held.output == snapshot.output
            &&& held.usage == snapshot.usage
            &&& held.error == snapshot.error
            &&& held.incomplete_reason == snapshot.incomplete_reason
            &&& held.service_tier == snapshot.service_tier
        },
{
}

/// What can be replayed of two outputs, one after the other, is what can be replayed of each:
/// every item with a payload is handed back, in output order.
pub proof fn every_payload_is_replayed(a: Seq<OutputItemView>, b: Seq<OutputItemView>)
    ensures
        response::replayed_among(a + b) == response::replayed_among(a) + response::replayed_among(
            b,
        ),
    decreases b.len(),
{
    if b.len() == 0 {
        assert(a + b =~= a);
        assert(response::replayed_among(a) + Seq::<ReplayedReasoningView>::empty()
            =~= response::replayed_among(a));
    } else {
        assert((a + b).drop_last() =~= a + b.drop_last());
        assert((a + b).last() == b.last());
        every_payload_is_replayed(a, b.drop_last());
        assert(response::replayed_among(a + b) =~= response::replayed_among(a)
            + response::replayed_among(b));
    }
}

/// One item is replayed exactly where it is reasoning with a payload, and then as itself.
pub proof fn an_item_is_replayed_as_itself(item: OutputItemView)
    ensures
        match item {
            OutputItemView::Reasoning(held) => match held.encrypted_content {
                Some(payload) => {
                    &&& response::replayed_among(seq![item]).len() == 1
                    &&& response::replayed_among(seq![item])[0].id == held.id
                    &&& response::replayed_among(seq![item])[0].encrypted_content == payload
                },
                None => response::replayed_among(seq![item]).len() == 0,
            },
            _ => response::replayed_among(seq![item]).len() == 0,
        },
        response::replayed_among(Seq::empty()).len() == 0,
{
    reveal_with_fuel(response::replayed_among, 2);
    assert(seq![item].drop_last() =~= Seq::<OutputItemView>::empty());
    assert(seq![item].last() == item);
}

/// The calls of two outputs, one after the other, are those of each; one item is a call exactly
/// where it is a function call, and then itself.
pub proof fn every_call_is_found(a: Seq<OutputItemView>, b: Seq<OutputItemView>)
    ensures
        settled::calls_among(a + b) == settled::calls_among(a) + settled::calls_among(b),
        b.len() == 1 ==> settled::calls_among(b) == match b[0] {
            OutputItemView::FunctionCall(call) => seq![call],
            _ => Seq::empty(),
        },
        b.len() == 0 ==> settled::calls_among(b).len() == 0,
    decreases b.len(),
{
    if b.len() == 0 {
        assert(a + b =~= a);
        assert(settled::calls_among(a) + Seq::<CalledFunctionView>::empty()
            =~= settled::calls_among(a));
    } else {
        assert((a + b).drop_last() =~= a + b.drop_last());
        assert((a + b).last() == b.last());
        every_call_is_found(a, b.drop_last());
        assert(settled::calls_among(a + b) =~= settled::calls_among(a) + settled::calls_among(b));
        if b.len() == 1 {
            assert(b.drop_last() =~= Seq::<OutputItemView>::empty());
        }
    }
}

/// The reasoning of two outputs, one after the other, is that of each; one item is reasoning
/// exactly where it is a reasoning item, and then itself.
pub proof fn every_reasoning_item_is_found(a: Seq<OutputItemView>, b: Seq<OutputItemView>)
    ensures
        settled::reasoning_among(a + b) == settled::reasoning_among(a) + settled::reasoning_among(
            b,
        ),
        b.len() == 1 ==> settled::reasoning_among(b) == match b[0] {
            OutputItemView::Reasoning(item) => seq![item],
            _ => Seq::empty(),
        },
        b.len() == 0 ==> settled::reasoning_among(b).len() == 0,
    decreases b.len(),
{
    if b.len() == 0 {
        assert(a + b =~= a);
        assert(settled::reasoning_among(a) + Seq::<ReasoningItemView>::empty()
            =~= settled::reasoning_among(a));
    } else {
        assert((a + b).drop_last() =~= a + b.drop_last());
        assert((a + b).last() == b.last());
        every_reasoning_item_is_found(a, b.drop_last());
        assert(settled::reasoning_among(a + b) =~= settled::reasoning_among(a)
            + settled::reasoning_among(b));
        if b.len() == 1 {
            assert(b.drop_last() =~= Seq::<OutputItemView>::empty());
        }
    }
}

/// The answer, the refusal or the summary of two outputs, one after the other, is that of each.
/// One item adds its answer or its refusal where it is a message, each to its own, and its
/// summary where it is reasoning.
pub proof fn every_text_is_joined_in_order(
    which: ItemText,
    a: Seq<OutputItemView>,
    b: Seq<OutputItemView>,
)
    ensures
        which.joined(a + b) == which.joined(a) + which.joined(b),
        b.len() == 1 ==> which.joined(b) == match (which, b[0]) {
            (ItemText::Answer, OutputItemView::Message { text, .. }) => text,
            (ItemText::Refusal, OutputItemView::Message { refusal, .. }) => refusal,
            (ItemText::Summary, OutputItemView::Reasoning(item)) => item.summary,
            _ => Seq::empty(),
        },
        b.len() == 0 ==> which.joined(b).len() == 0,
    decreases b.len(),
{
    if b.len() == 0 {
        assert(a + b =~= a);
        assert(which.joined(a) + Seq::<char>::empty() =~= which.joined(a));
    } else {
        assert((a + b).drop_last() =~= a + b.drop_last());
        assert((a + b).last() == b.last());
        every_text_is_joined_in_order(which, a, b.drop_last());
        assert(which.joined(a + b) =~= which.joined(a) + which.joined(b));
        if b.len() == 1 {
            assert(b.drop_last() =~= Seq::<OutputItemView>::empty());
            assert(which.joined(b) =~= match (which, b[0]) {
                (ItemText::Answer, OutputItemView::Message { text, .. }) => text,
                (ItemText::Refusal, OutputItemView::Message { refusal, .. }) => refusal,
                (ItemText::Summary, OutputItemView::Reasoning(item)) => item.summary,
                _ => Seq::empty(),
            });
        }
    }
}

/// A replayed assistant turn reads back: the phase it was given, the text of its answers and
/// the words of its refusals, each in order and apart.
pub proof fn a_replayed_turn_reads_back(phase: AssistantPhase, blocks: Seq<OutputBlockView>)
    ensures
        decode::item_of(
            InputItemView::Message(MessageView::Assistant { phase, content: blocks }).wire(),
        ) == Ok::<OutputItemView, FrameErrorView>(
            OutputItemView::Message {
                id: None,
                phase: Some(phase),
                text: answered(blocks),
                refusal: declined(blocks),
            },
        ),
{
    let message = MessageView::Assistant { phase, content: blocks };
    let sent = InputItemView::Message(message).wire();
    wire_laws::a_message_is_sent_under_its_role(message);
    reveal_strlit("id");
    reveal_strlit("type");
    reveal_strlit("role");
    reveal_strlit("content");
    reveal_strlit("phase");
    assert("id"@.len() == 2 && "type"@.len() == 4 && "role"@.len() == 4 && "content"@.len() == 7
        && "phase"@.len() == 5);
    wire_laws::nothing_is_found_under_another_name(message.fields(), "id"@);
    a_message_item_holds_its_blocks(sent);
    let parts = sent.items_at("content"@)->0;
    assert(parts =~= Seq::new(blocks.len(), |i: int| blocks[i].wire()));
    blocks_read_back(blocks);
}

/// The answers among blocks, joined in order.
pub open spec fn answered(blocks: Seq<OutputBlockView>) -> Seq<char>
    decreases blocks.len(),
{
    if blocks.len() == 0 {
        Seq::empty()
    } else {
        answered(blocks.drop_last()) + match blocks.last() {
            OutputBlockView::Text { text, .. } => text,
            OutputBlockView::Refusal { .. } => Seq::empty(),
        }
    }
}

/// The refusals among blocks, joined in order.
pub open spec fn declined(blocks: Seq<OutputBlockView>) -> Seq<char>
    decreases blocks.len(),
{
    if blocks.len() == 0 {
        Seq::empty()
    } else {
        declined(blocks.drop_last()) + match blocks.last() {
            OutputBlockView::Text { .. } => Seq::empty(),
            OutputBlockView::Refusal { refusal } => refusal,
        }
    }
}

proof fn blocks_read_back(blocks: Seq<OutputBlockView>)
    ensures
        decode::pieces_of(
            Seq::new(blocks.len(), |i: int| blocks[i].wire()),
            Some("output_text"@),
            "text"@,
        ) == answered(blocks),
        decode::pieces_of(
            Seq::new(blocks.len(), |i: int| blocks[i].wire()),
            Some("refusal"@),
            "refusal"@,
        ) == declined(blocks),
    decreases blocks.len(),
{
    let parts = Seq::new(blocks.len(), |i: int| blocks[i].wire());
    if blocks.len() > 0 {
        let rest = blocks.drop_last();
        blocks_read_back(rest);
        assert(parts.drop_last() =~= Seq::new(rest.len(), |i: int| rest[i].wire()));
        let last = blocks.last();
        assert(parts.last() == last.wire());
        wire_laws::an_output_block_is_sent_with_what_it_holds(last);
        reveal_strlit("output_text");
        reveal_strlit("refusal");
        assert("output_text"@.len() == 11 && "refusal"@.len() == 7);
    }
}

} // verus!
