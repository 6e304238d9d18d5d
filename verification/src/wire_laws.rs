//! What is sent: which name each thing the caller gave stands under.
use vstd::prelude::*;

use crate::content::{
    FileSourceView, FunctionCallOutputView, FunctionCallView, FunctionOutput, FunctionOutputView,
    ImageSourceView, InputBlockView, InputItem, InputItemView, Message, MessageView,
    OutputBlockView, ReplayedReasoningView,
};
use crate::decode;
use crate::items::{CalledFunctionView, OutputItemView, ReasoningItemView};
use crate::json::{Json, JsonView};
use crate::stream::FrameErrorView;
use crate::tools::{AllowedToolsMode, FunctionToolView, ToolChoiceView};
use crate::values::{AssistantPhase, InputRole};

verus! {

/// What stands under a name is the value of the first field that carries it.
pub proof fn a_field_is_found_under_its_name(fields: Seq<(Seq<char>, JsonView)>, n: int)
    requires
        0 <= n < fields.len(),
        forall|m: int| 0 <= m < n ==> (#[trigger] fields[m]).0 != fields[n].0,
    ensures
        JsonView::Object(fields).field(fields[n].0) == Some(fields[n].1),
    decreases n,
{
    if n > 0 {
        let rest = fields.drop_first();
        assert(fields[0].0 != fields[n].0);
        assert forall|m: int| 0 <= m < n - 1 implies (#[trigger] rest[m]).0 != rest[n - 1].0 by {
            assert(rest[m] == fields[m + 1]);
        }
        a_field_is_found_under_its_name(rest, n - 1);
    }
}

/// Nothing stands under a name that no field carries.
pub proof fn nothing_is_found_under_another_name(
    fields: Seq<(Seq<char>, JsonView)>,
    key: Seq<char>,
)
    requires
        forall|m: int| 0 <= m < fields.len() ==> (#[trigger] fields[m]).0 != key,
    ensures
        JsonView::Object(fields).field(key) is None,
    decreases fields.len(),
{
    if fields.len() > 0 {
        let rest = fields.drop_first();
        assert(fields[0].0 != key);
        assert forall|m: int| 0 <= m < rest.len() implies (#[trigger] rest[m]).0 != key by {
            assert(rest[m] == fields[m + 1]);
        }
        nothing_is_found_under_another_name(rest, key);
    }
}

/// What a name finds is a field that carries it.
pub proof fn what_is_found_carries_the_name(fields: Seq<(Seq<char>, JsonView)>, key: Seq<char>)
    ensures
        JsonView::Object(fields).field(key) matches Some(value) ==> fields.contains((key, value)),
    decreases fields.len(),
{
    if fields.len() > 0 {
        if fields[0].0 == key {
            assert(fields[0] == (key, fields[0].1));
        } else {
            let rest = fields.drop_first();
            what_is_found_carries_the_name(rest, key);
            if let Some(value) = JsonView::Object(fields).field(key) {
                let m = choose|m: int| 0 <= m < rest.len() && rest[m] == (key, value);
                assert(fields[m + 1] == (key, value));
            }
        }
    }
}

/// The names that stand in what is sent, told apart.
proof fn the_names_differ()
    ensures
        "id"@.len() == 2,
        "ttl"@.len() == 3,
        "type"@.len() == 4 && "type"@[0] == 't' && "type"@[1] == 'y',
        "text"@.len() == 4 && "text"@[0] == 't' && "text"@[1] == 'e',
        "role"@.len() == 4 && "role"@[0] == 'r',
        "name"@.len() == 4 && "name"@[0] == 'n',
        "mode"@.len() == 4 && "mode"@[0] == 'm',
        "phase"@.len() == 5 && "phase"@[0] == 'p',
        "tools"@.len() == 5 && "tools"@[0] == 't',
        "output"@.len() == 6 && "output"@[0] == 'o',
        "detail"@.len() == 6 && "detail"@[0] == 'd',
        "strict"@.len() == 6 && "strict"@[0] == 's',
        "content"@.len() == 7 && "content"@[0] == 'c' && "content"@[1] == 'o',
        "call_id"@.len() == 7 && "call_id"@[0] == 'c' && "call_id"@[1] == 'a',
        "summary"@.len() == 7 && "summary"@[0] == 's',
        "file_id"@.len() == 7 && "file_id"@[0] == 'f',
        "refusal"@.len() == 7 && "refusal"@[0] == 'r',
        "filename"@.len() == 8 && "filename"@[4] == 'n',
        "file_url"@.len() == 8 && "file_url"@[4] == '_',
        "arguments"@.len() == 9 && "arguments"@[0] == 'a',
        "image_url"@.len() == 9 && "image_url"@[0] == 'i',
        "file_data"@.len() == 9 && "file_data"@[0] == 'f',
        "parameters"@.len() == 10,
        "description"@.len() == 11,
        "encrypted_content"@.len() == 17,
        "prompt_cache_breakpoint"@.len() == 23,
{
    reveal_strlit("id");
    reveal_strlit("ttl");
    reveal_strlit("type");
    reveal_strlit("text");
    reveal_strlit("role");
    reveal_strlit("name");
    reveal_strlit("mode");
    reveal_strlit("phase");
    reveal_strlit("tools");
    reveal_strlit("output");
    reveal_strlit("detail");
    reveal_strlit("strict");
    reveal_strlit("content");
    reveal_strlit("call_id");
    reveal_strlit("summary");
    reveal_strlit("file_id");
    reveal_strlit("refusal");
    reveal_strlit("filename");
    reveal_strlit("file_url");
    reveal_strlit("arguments");
    reveal_strlit("image_url");
    reveal_strlit("file_data");
    reveal_strlit("parameters");
    reveal_strlit("description");
    reveal_strlit("encrypted_content");
    reveal_strlit("prompt_cache_breakpoint");
}

/// A function call is sent under its own id, name and arguments, and with nothing else.
pub proof fn a_call_is_sent_as_it_was_made(call: FunctionCallView)
    ensures
        ({
            let sent = InputItemView::FunctionCall(call).wire();
            &&& sent.text_at("type"@) == Some("function_call"@)
            &&& sent.text_at("call_id"@) == Some(call.call_id)
            &&& sent.text_at("name"@) == Some(call.name)
            &&& sent.text_at("arguments"@) == Some(call.arguments)
            &&& sent->Object_0.len() == 4
        }),
{
    the_names_differ();
    let fields = InputItemView::FunctionCall(call).fields();
    a_field_is_found_under_its_name(fields, 0);
    a_field_is_found_under_its_name(fields, 1);
    a_field_is_found_under_its_name(fields, 2);
    a_field_is_found_under_its_name(fields, 3);
}

/// A tool's result is sent under the `call_id` the caller gave, and what it returned under
/// `output`: a text as a text, and blocks each as it is sent.
pub proof fn a_result_is_sent_under_its_call_id(answer: FunctionCallOutputView)
    ensures
        ({
            let sent = InputItemView::FunctionCallOutput(answer).wire();
            &&& sent.text_at("type"@) == Some("function_call_output"@)
            &&& sent.text_at("call_id"@) == Some(answer.call_id)
            &&& match answer.output {
                FunctionOutputView::Text(text) => sent.text_at("output"@) == Some(text),
                FunctionOutputView::Blocks(blocks) => {
                    &&& sent.items_at("output"@) is Some
                    &&& sent.items_at("output"@)->0.len() == blocks.len()
                    &&& forall|i: int|
                        0 <= i < blocks.len() ==> #[trigger] sent.items_at("output"@)->0[i]
                            == blocks[i].wire()
                },
            }
            &&& sent->Object_0.len() == 3
        }),
{
    the_names_differ();
    let fields = InputItemView::FunctionCallOutput(answer).fields();
    a_field_is_found_under_its_name(fields, 0);
    a_field_is_found_under_its_name(fields, 1);
    a_field_is_found_under_its_name(fields, 2);
}

/// A call and the result that answers it are sent with one text under `call_id`.
pub proof fn a_result_is_matched_to_its_call(call: FunctionCallView, answer: FunctionCallOutputView)
    ensures
        InputItemView::FunctionCall(call).wire().text_at("call_id"@) is Some,
        InputItemView::FunctionCall(call).wire().text_at("call_id"@)
            == InputItemView::FunctionCallOutput(answer).wire().text_at("call_id"@)
            <==> call.call_id == answer.call_id,
{
    a_call_is_sent_as_it_was_made(call);
    a_result_is_sent_under_its_call_id(answer);
}

/// Replayed reasoning is sent with the payload it came with, and with an empty summary.
pub proof fn reasoning_is_replayed_with_its_payload(reasoning: ReplayedReasoningView)
    ensures
        ({
            let sent = InputItemView::Reasoning(reasoning).wire();
            &&& sent.text_at("type"@) == Some("reasoning"@)
            &&& sent.text_at("id"@) == Some(reasoning.id)
            &&& sent.text_at("encrypted_content"@) == Some(reasoning.encrypted_content)
            &&& sent.items_at("summary"@) is Some
            &&& sent.items_at("summary"@)->0.len() == 0
            &&& sent->Object_0.len() == 4
        }),
{
    the_names_differ();
    let fields = InputItemView::Reasoning(reasoning).fields();
    a_field_is_found_under_its_name(fields, 0);
    a_field_is_found_under_its_name(fields, 1);
    a_field_is_found_under_its_name(fields, 2);
    a_field_is_found_under_its_name(fields, 3);
}

/// What is sent of an item is what its own fields hold.
pub proof fn an_item_is_sent_with_its_own_fields(item: InputItem, sent: Json)
    requires
        call_ensures(InputItem::to_json, (&item,), sent),
    ensures
        match item {
            InputItem::FunctionCall(call) => {
                &&& sent@.text_at("call_id"@) == Some(call.call_id@)
                &&& sent@.text_at("name"@) == Some(call.name@)
                &&& sent@.text_at("arguments"@) == Some(call.arguments@)
            },
            InputItem::FunctionCallOutput(answer) => {
                &&& sent@.text_at("call_id"@) == Some(answer.call_id@)
                &&& answer.output matches FunctionOutput::Text(text) ==> sent@.text_at("output"@)
                    == Some(text@)
            },
            InputItem::Reasoning(reasoning) => {
                &&& sent@.text_at("id"@) == Some(reasoning.id@)
                &&& sent@.text_at("encrypted_content"@) == Some(reasoning.encrypted_content@)
            },
            InputItem::Message(Message::Input { role, content }) => {
                &&& sent@.text_at("role"@) == Some(role.wire())
                &&& sent@.items_at("content"@) matches Some(blocks)
                &&& blocks.len() == content@.len()
            },
            InputItem::Message(Message::Assistant { phase, content }) => {
                &&& sent@.text_at("role"@) == Some("assistant"@)
                &&& sent@.text_at("phase"@) == Some(phase.wire())
                &&& sent@.items_at("content"@) matches Some(blocks)
                &&& blocks.len() == content@.len()
            },
        },
{
    match item@ {
        InputItemView::FunctionCall(call) => a_call_is_sent_as_it_was_made(call),
        InputItemView::FunctionCallOutput(answer) => a_result_is_sent_under_its_call_id(answer),
        InputItemView::Reasoning(reasoning) => reasoning_is_replayed_with_its_payload(reasoning),
        InputItemView::Message(message) => a_message_is_sent_under_its_role(message),
    }
}

/// A message is sent under its role, with its blocks in order, each as it is sent alone; the
/// phase of an assistant message is the one the caller gave.
pub proof fn a_message_is_sent_under_its_role(message: MessageView)
    ensures
        ({
            let sent = InputItemView::Message(message).wire();
            &&& sent.text_at("type"@) == Some("message"@)
            &&& sent.items_at("content"@) is Some
            &&& match message {
                MessageView::Input { role, content } => {
                    &&& sent.text_at("role"@) == Some(
                        match role {
                            InputRole::Developer => "developer"@,
                            InputRole::User => "user"@,
                        },
                    )
                    &&& sent.items_at("content"@)->0.len() == content.len()
                    &&& forall|i: int|
                        0 <= i < content.len() ==> #[trigger] sent.items_at("content"@)->0[i]
                            == content[i].wire()
                    &&& sent->Object_0.len() == 3
                },
                MessageView::Assistant { phase, content } => {
                    &&& sent.text_at("role"@) == Some("assistant"@)
                    &&& sent.text_at("phase"@) == Some(
                        match phase {
                            AssistantPhase::Commentary => "commentary"@,
                            AssistantPhase::FinalAnswer => "final_answer"@,
                        },
                    )
                    &&& sent.items_at("content"@)->0.len() == content.len()
                    &&& forall|i: int|
                        0 <= i < content.len() ==> #[trigger] sent.items_at("content"@)->0[i]
                            == content[i].wire()
                    &&& sent->Object_0.len() == 4
                },
            }
        }),
{
    the_names_differ();
    let fields = message.fields();
    a_field_is_found_under_its_name(fields, 0);
    a_field_is_found_under_its_name(fields, 1);
    a_field_is_found_under_its_name(fields, 2);
    if let MessageView::Assistant { .. } = message {
        a_field_is_found_under_its_name(fields, 3);
    }
}

/// A block of the input vocabulary is sent with what it holds, and a breakpoint exactly where
/// it is marked. An image or a file names its own source and no other.
pub proof fn an_input_block_is_sent_with_what_it_holds(block: InputBlockView)
    ensures
        ({
            let sent = block.wire();
            &&& match block {
                InputBlockView::Text { text, .. } => {
                    &&& sent.text_at("type"@) == Some("input_text"@)
                    &&& sent.text_at("text"@) == Some(text)
                },
                InputBlockView::Image { source, detail, .. } => {
                    &&& sent.text_at("type"@) == Some("input_image"@)
                    &&& sent.text_at("detail"@) == Some(detail.wire())
                    &&& sent.text_at("image_url"@) == match source {
                        ImageSourceView::Url(url) => Some(url),
                        ImageSourceView::FileId(_) => None,
                    }
                    &&& sent.text_at("file_id"@) == match source {
                        ImageSourceView::Url(_) => None,
                        ImageSourceView::FileId(id) => Some(id),
                    }
                },
                InputBlockView::File { source, detail, .. } => {
                    &&& sent.text_at("type"@) == Some("input_file"@)
                    &&& sent.text_at("detail"@) == Some(detail.wire())
                    &&& sent.text_at("file_data"@) == match source {
                        FileSourceView::Inline { media_type, base64, .. } => Some(
                            "data:"@ + media_type + ";base64,"@ + base64,
                        ),
                        _ => None,
                    }
                    &&& sent.text_at("filename"@) == match source {
                        FileSourceView::Inline { filename, .. } => Some(filename),
                        FileSourceView::Filename(name) => Some(name),
                        _ => None,
                    }
                    &&& sent.text_at("file_id"@) == match source {
                        FileSourceView::FileId(id) => Some(id),
                        _ => None,
                    }
                    &&& sent.text_at("file_url"@) == match source {
                        FileSourceView::Url(url) => Some(url),
                        _ => None,
                    }
                },
            }
            &&& match sent.field("prompt_cache_breakpoint"@) {
                Some(mark) => block.marked() && mark.text_at("mode"@) == Some("explicit"@),
                None => !block.marked(),
            }
        }),
{
    the_names_differ();
    let fields = block.wire()->Object_0;
    a_field_is_found_under_its_name(fields, 0);
    a_field_is_found_under_its_name(fields, 1);
    match block {
        InputBlockView::Text { marked, .. } => {
            if marked {
                a_field_is_found_under_its_name(fields, 2);
            } else {
                nothing_is_found_under_another_name(fields, "prompt_cache_breakpoint"@);
            }
        },
        InputBlockView::Image { source, marked, .. } => {
            a_field_is_found_under_its_name(fields, 2);
            match source {
                ImageSourceView::Url(_) => {
                    nothing_is_found_under_another_name(fields, "file_id"@);
                },
                ImageSourceView::FileId(_) => {
                    nothing_is_found_under_another_name(fields, "image_url"@);
                },
            }
            if marked {
                a_field_is_found_under_its_name(fields, 3);
            } else {
                nothing_is_found_under_another_name(fields, "prompt_cache_breakpoint"@);
            }
        },
        InputBlockView::File { source, marked, .. } => {
            a_field_is_found_under_its_name(fields, 2);
            match source {
                FileSourceView::Inline { .. } => {
                    a_field_is_found_under_its_name(fields, 3);
                    nothing_is_found_under_another_name(fields, "file_id"@);
                    nothing_is_found_under_another_name(fields, "file_url"@);
                    if marked {
                        a_field_is_found_under_its_name(fields, 4);
                    } else {
                        nothing_is_found_under_another_name(fields, "prompt_cache_breakpoint"@);
                    }
                },
                _ => {
                    if marked {
                        a_field_is_found_under_its_name(fields, 3);
                    } else {
                        nothing_is_found_under_another_name(fields, "prompt_cache_breakpoint"@);
                    }
                    nothing_is_found_under_another_name(fields, "file_data"@);
                    if !(source is FileId) {
                        nothing_is_found_under_another_name(fields, "file_id"@);
                    }
                    if !(source is Url) {
                        nothing_is_found_under_another_name(fields, "file_url"@);
                    }
                    if !(source is Filename) {
                        nothing_is_found_under_another_name(fields, "filename"@);
                    }
                },
            }
        },
    }
    a_breakpoint_is_explicit();
}

/// A breakpoint is sent as one the caller chose.
proof fn a_breakpoint_is_explicit()
    ensures
        crate::content::breakpoint_wire().text_at("mode"@) == Some("explicit"@),
{
    a_field_is_found_under_its_name(crate::content::breakpoint_wire()->Object_0, 0);
}

/// A block of the output vocabulary is sent with what it holds, and a breakpoint exactly where
/// it is marked, which a refusal never is.
pub proof fn an_output_block_is_sent_with_what_it_holds(block: OutputBlockView)
    ensures
        ({
            let sent = block.wire();
            &&& match block {
                OutputBlockView::Text { text, .. } => {
                    &&& sent.text_at("type"@) == Some("output_text"@)
                    &&& sent.text_at("text"@) == Some(text)
                    &&& sent.text_at("refusal"@) is None
                },
                OutputBlockView::Refusal { refusal } => {
                    &&& sent.text_at("type"@) == Some("refusal"@)
                    &&& sent.text_at("refusal"@) == Some(refusal)
                    &&& sent.text_at("text"@) is None
                },
            }
            &&& match sent.field("prompt_cache_breakpoint"@) {
                Some(mark) => (block matches OutputBlockView::Text { marked, .. } && marked)
                    && mark.text_at("mode"@) == Some("explicit"@),
                None => !(block matches OutputBlockView::Text { marked, .. } && marked),
            }
        }),
{
    the_names_differ();
    let fields = block.wire()->Object_0;
    a_field_is_found_under_its_name(fields, 0);
    a_field_is_found_under_its_name(fields, 1);
    match block {
        OutputBlockView::Text { marked, .. } => {
            nothing_is_found_under_another_name(fields, "refusal"@);
            if marked {
                a_field_is_found_under_its_name(fields, 2);
            } else {
                nothing_is_found_under_another_name(fields, "prompt_cache_breakpoint"@);
            }
        },
        OutputBlockView::Refusal { .. } => {
            nothing_is_found_under_another_name(fields, "text"@);
            nothing_is_found_under_another_name(fields, "prompt_cache_breakpoint"@);
        },
    }
    a_breakpoint_is_explicit();
}

/// A call that is sent and one that is received are one shape: what is sent reads back as the
/// call it was made of.
pub proof fn a_sent_call_reads_back(call: FunctionCallView)
    ensures
        decode::item_of(InputItemView::FunctionCall(call).wire()) == Ok::<
            OutputItemView,
            FrameErrorView,
        >(
            OutputItemView::FunctionCall(
                CalledFunctionView {
                    id: None,
                    call_id: call.call_id,
                    name: call.name,
                    arguments: call.arguments,
                },
            ),
        ),
{
    the_names_differ();
    a_call_is_sent_as_it_was_made(call);
    nothing_is_found_under_another_name(InputItemView::FunctionCall(call).fields(), "id"@);
    reveal_strlit("message");
    reveal_strlit("function_call");
    assert("message"@.len() == 7 && "function_call"@.len() == 13);
}

/// Reasoning that is sent reads back as the item it was made of.
pub proof fn sent_reasoning_reads_back(reasoning: ReplayedReasoningView)
    requires
        reasoning.encrypted_content.len() > 0,
    ensures
        decode::item_of(InputItemView::Reasoning(reasoning).wire()) == Ok::<
            OutputItemView,
            FrameErrorView,
        >(
            OutputItemView::Reasoning(
                ReasoningItemView {
                    id: reasoning.id,
                    encrypted_content: Some(reasoning.encrypted_content),
                    summary: Seq::empty(),
                },
            ),
        ),
{
    reasoning_is_replayed_with_its_payload(reasoning);
    reveal_strlit("message");
    reveal_strlit("function_call");
    reveal_strlit("reasoning");
    assert("message"@.len() == 7 && "function_call"@.len() == 13 && "reasoning"@.len() == 9);
}

/// A tool is sent with what the caller gave, and a description or a strictness exactly where
/// one was.
pub proof fn a_tool_is_sent_as_it_was_declared(tool: FunctionToolView)
    ensures
        tool.wire().text_at("type"@) == Some("function"@),
        tool.wire().text_at("name"@) == Some(tool.name),
        tool.wire().field("parameters"@) == Some(tool.parameters),
        tool.wire().field("description"@) == match tool.description {
            Some(description) => Some(JsonView::Text(description)),
            None => None,
        },
        tool.wire().field("strict"@) == match tool.strict {
            Some(strict) => Some(JsonView::Bool(strict)),
            None => None,
        },
{
    the_names_differ();
    let fields = tool.wire()->Object_0;
    a_field_is_found_under_its_name(fields, 0);
    a_field_is_found_under_its_name(fields, 1);
    a_field_is_found_under_its_name(fields, 2);
    match (tool.description, tool.strict) {
        (Some(_), Some(_)) => {
            a_field_is_found_under_its_name(fields, 3);
            a_field_is_found_under_its_name(fields, 4);
        },
        (Some(_), None) => {
            a_field_is_found_under_its_name(fields, 3);
            nothing_is_found_under_another_name(fields, "strict"@);
        },
        (None, Some(_)) => {
            a_field_is_found_under_its_name(fields, 3);
            nothing_is_found_under_another_name(fields, "description"@);
        },
        (None, None) => {
            nothing_is_found_under_another_name(fields, "strict"@);
            nothing_is_found_under_another_name(fields, "description"@);
        },
    }
}

/// A tool choice says which calls it leaves the model: any, none, at least one, the one named,
/// or those allowed, in the order they were allowed.
pub proof fn a_tool_choice_says_what_it_allows(choice: ToolChoiceView)
    ensures
        match choice {
            ToolChoiceView::Auto => choice.wire().text() == Some("auto"@),
            ToolChoiceView::NoCalls => choice.wire().text() == Some("none"@),
            ToolChoiceView::Required => choice.wire().text() == Some("required"@),
            ToolChoiceView::Function(name) => {
                &&& choice.wire().text_at("type"@) == Some("function"@)
                &&& choice.wire().text_at("name"@) == Some(name)
            },
            ToolChoiceView::Allowed(allowed) => {
                &&& choice.wire().text_at("type"@) == Some("allowed_tools"@)
                &&& choice.wire().text_at("mode"@) == Some(
                    match allowed.mode {
                        AllowedToolsMode::Auto => "auto"@,
                        AllowedToolsMode::Required => "required"@,
                    },
                )
                &&& choice.wire().items_at("tools"@) is Some
                &&& choice.wire().items_at("tools"@)->0.len() == allowed.names.len()
                &&& forall|i: int|
                    0 <= i < allowed.names.len() ==> {
                        let tool = #[trigger] choice.wire().items_at("tools"@)->0[i];
                        &&& tool.text_at("type"@) == Some("function"@)
                        &&& tool.text_at("name"@) == Some(allowed.names[i])
                    }
            },
        },
{
    the_names_differ();
    match choice {
        ToolChoiceView::Function(name) => {
            a_function_is_named(name);
        },
        ToolChoiceView::Allowed(allowed) => {
            let fields = choice.wire()->Object_0;
            a_field_is_found_under_its_name(fields, 0);
            a_field_is_found_under_its_name(fields, 1);
            a_field_is_found_under_its_name(fields, 2);
            assert forall|i: int| 0 <= i < allowed.names.len() implies {
                let tool = #[trigger] choice.wire().items_at("tools"@)->0[i];
                &&& tool.text_at("type"@) == Some("function"@)
                &&& tool.text_at("name"@) == Some(allowed.names[i])
            } by {
                a_function_is_named(allowed.names[i]);
            }
        },
        _ => {},
    }
}

proof fn a_function_is_named(name: Seq<char>)
    ensures
        crate::tools::function_wire(name).text_at("type"@) == Some("function"@),
        crate::tools::function_wire(name).text_at("name"@) == Some(name),
{
    the_names_differ();
    let fields = crate::tools::function_wire(name)->Object_0;
    a_field_is_found_under_its_name(fields, 0);
    a_field_is_found_under_its_name(fields, 1);
}

/// Whether a block's bytes, where it holds any, come under a media type without parameters.
pub open spec fn plainly_typed(block: InputBlockView) -> bool {
    block matches InputBlockView::File {
        source: FileSourceView::Inline { media_type, .. },
        ..
    } ==> !media_type.contains(';')
}

/// Whether every block an item holds is so.
pub open spec fn holds_plain_types(item: InputItemView) -> bool {
    match item {
        InputItemView::Message(MessageView::Input { content, .. }) => forall|i: int|
            0 <= i < content.len() ==> plainly_typed(#[trigger] content[i]),
        InputItemView::FunctionCallOutput(answer) => match answer.output {
            FunctionOutputView::Blocks(blocks) => forall|i: int|
                0 <= i < blocks.len() ==> plainly_typed(#[trigger] blocks[i]),
            FunctionOutputView::Text(_) => true,
        },
        _ => true,
    }
}

/// Two items that are sent alike are alike: nothing the caller gave is lost on the way.
pub proof fn items_sent_alike_are_alike(a: InputItemView, b: InputItemView)
    requires
        a.wire() == b.wire(),
        holds_plain_types(a),
        holds_plain_types(b),
    ensures
        a == b,
{
    the_types_differ();
    let sent = a.wire();
    match a {
        InputItemView::Message(message) => a_message_is_sent_under_its_role(message),
        InputItemView::FunctionCall(call) => a_call_is_sent_as_it_was_made(call),
        InputItemView::FunctionCallOutput(answer) => a_result_is_sent_under_its_call_id(answer),
        InputItemView::Reasoning(reasoning) => reasoning_is_replayed_with_its_payload(reasoning),
    }
    match b {
        InputItemView::Message(message) => a_message_is_sent_under_its_role(message),
        InputItemView::FunctionCall(call) => a_call_is_sent_as_it_was_made(call),
        InputItemView::FunctionCallOutput(answer) => a_result_is_sent_under_its_call_id(answer),
        InputItemView::Reasoning(reasoning) => reasoning_is_replayed_with_its_payload(reasoning),
    }
    match (a, b) {
        (InputItemView::Message(m), InputItemView::Message(n)) => match (m, n) {
            (
                MessageView::Input { content: x, .. },
                MessageView::Input { content: y, .. },
            ) => {
                input_blocks_sent_alike_are_alike(x, y, sent.items_at("content"@)->0);
            },
            (
                MessageView::Assistant { content: x, .. },
                MessageView::Assistant { content: y, .. },
            ) => {
                output_blocks_sent_alike_are_alike(x, y, sent.items_at("content"@)->0);
            },
            _ => {},
        },
        (
            InputItemView::FunctionCallOutput(m),
            InputItemView::FunctionCallOutput(n),
        ) => match (m.output, n.output) {
            (FunctionOutputView::Blocks(x), FunctionOutputView::Blocks(y)) => {
                input_blocks_sent_alike_are_alike(x, y, sent.items_at("output"@)->0);
            },
            _ => {},
        },
        _ => {},
    }
}

proof fn the_types_differ()
    ensures
        "message"@.len() == 7,
        "function_call"@.len() == 13,
        "function_call_output"@.len() == 20,
        "reasoning"@.len() == 9,
        "developer"@.len() == 9 && "developer"@[0] == 'd',
        "assistant"@.len() == 9 && "assistant"@[0] == 'a',
        "user"@.len() == 4,
        "commentary"@.len() == 10,
        "final_answer"@.len() == 12,
        "input_text"@.len() == 10 && "input_text"@[6] == 't',
        "input_file"@.len() == 10 && "input_file"@[6] == 'f',
        "input_image"@.len() == 11,
        "output_text"@.len() == 11,
        "refusal"@.len() == 7,
{
    reveal_strlit("message");
    reveal_strlit("function_call");
    reveal_strlit("function_call_output");
    reveal_strlit("reasoning");
    reveal_strlit("developer");
    reveal_strlit("assistant");
    reveal_strlit("user");
    reveal_strlit("commentary");
    reveal_strlit("final_answer");
    reveal_strlit("input_text");
    reveal_strlit("input_file");
    reveal_strlit("input_image");
    reveal_strlit("output_text");
    reveal_strlit("refusal");
}

proof fn input_blocks_sent_alike_are_alike(
    a: Seq<InputBlockView>,
    b: Seq<InputBlockView>,
    sent: Seq<JsonView>,
)
    requires
        a.len() == sent.len(),
        b.len() == sent.len(),
        forall|i: int| 0 <= i < a.len() ==> #[trigger] sent[i] == a[i].wire(),
        forall|i: int| 0 <= i < b.len() ==> #[trigger] sent[i] == b[i].wire(),
        forall|i: int| 0 <= i < a.len() ==> plainly_typed(#[trigger] a[i]),
        forall|i: int| 0 <= i < b.len() ==> plainly_typed(#[trigger] b[i]),
    ensures
        a == b,
{
    assert forall|i: int| 0 <= i < a.len() implies a[i] == b[i] by {
        assert(sent[i] == a[i].wire() && sent[i] == b[i].wire());
        assert(plainly_typed(a[i]) && plainly_typed(b[i]));
        input_block_sent_alike(a[i], b[i]);
    }
    assert(a =~= b);
}

/// Two blocks that are sent alike are alike.
proof fn input_block_sent_alike(a: InputBlockView, b: InputBlockView)
    requires
        a.wire() == b.wire(),
        plainly_typed(a),
        plainly_typed(b),
    ensures
        a == b,
{
    the_types_differ();
    an_input_block_is_sent_with_what_it_holds(a);
    an_input_block_is_sent_with_what_it_holds(b);
    match (a, b) {
        (
            InputBlockView::Image { detail: x, .. },
            InputBlockView::Image { detail: y, .. },
        ) => {
            crate::values::ImageDetail::wire_is_one_to_one(x, y);
        },
        (
            InputBlockView::File { source: s, detail: x, .. },
            InputBlockView::File { source: t, detail: y, .. },
        ) => {
            crate::values::FileDetail::wire_is_one_to_one(x, y);
            match (s, t) {
                (
                    FileSourceView::Inline { media_type: m, base64: p, .. },
                    FileSourceView::Inline { media_type: n, base64: q, .. },
                ) => {
                    data_urls_tell_their_parts(m, p, n, q);
                },
                _ => {},
            }
        },
        _ => {},
    }
}

/// A `data:` URL tells its media type from its bytes.
proof fn data_urls_tell_their_parts(
    m: Seq<char>,
    p: Seq<char>,
    n: Seq<char>,
    q: Seq<char>,
)
    requires
        "data:"@ + m + ";base64,"@ + p == "data:"@ + n + ";base64,"@ + q,
        !m.contains(';'),
        !n.contains(';'),
    ensures
        m == n,
        p == q,
{
    reveal_strlit("data:");
    reveal_strlit(";base64,");
    let whole = "data:"@ + m + ";base64,"@ + p;
    let other = "data:"@ + n + ";base64,"@ + q;
    assert("data:"@.len() == 5 && ";base64,"@.len() == 8);
    assert(whole[(5 + m.len()) as int] == ';');
    assert(other[(5 + n.len()) as int] == ';');
    if m.len() < n.len() {
        assert(other[(5 + m.len()) as int] == n[m.len() as int]);
        assert(n.contains(n[m.len() as int]));
    }
    if n.len() < m.len() {
        assert(whole[(5 + n.len()) as int] == m[n.len() as int]);
        assert(m.contains(m[n.len() as int]));
    }
    assert forall|i: int| 0 <= i < m.len() implies m[i] == n[i] by {
        assert(whole[5 + i] == m[i] && other[5 + i] == n[i]);
    }
    assert(m =~= n);
    assert(whole.len() == 13 + m.len() + p.len());
    assert(other.len() == 13 + n.len() + q.len());
    assert forall|i: int| 0 <= i < p.len() implies p[i] == q[i] by {
        assert(whole[13 + m.len() + i] == p[i] && other[13 + n.len() + i] == q[i]);
    }
    assert(p =~= q);
}

proof fn output_blocks_sent_alike_are_alike(
    a: Seq<OutputBlockView>,
    b: Seq<OutputBlockView>,
    sent: Seq<JsonView>,
)
    requires
        a.len() == sent.len(),
        b.len() == sent.len(),
        forall|i: int| 0 <= i < a.len() ==> #[trigger] sent[i] == a[i].wire(),
        forall|i: int| 0 <= i < b.len() ==> #[trigger] sent[i] == b[i].wire(),
    ensures
        a == b,
{
    assert forall|i: int| 0 <= i < a.len() implies a[i] == b[i] by {
        assert(sent[i] == a[i].wire() && sent[i] == b[i].wire());
        the_types_differ();
        an_output_block_is_sent_with_what_it_holds(a[i]);
        an_output_block_is_sent_with_what_it_holds(b[i]);
    }
    assert(a =~= b);
}

} // verus!
