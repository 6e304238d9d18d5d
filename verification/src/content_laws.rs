//! What holds of input items as a whole.
use vstd::prelude::*;

use crate::content::{FunctionCallView, InputItemView, MessageView};
use crate::decode;
use crate::items::OutputItemView;
use crate::json;
use crate::json::JsonView;

verus! {

/// Whether a role may speak a block type: `developer` and `user` speak the input vocabulary,
/// `assistant` the output vocabulary.
pub open spec fn speaks(role: Seq<char>, block: Seq<char>) -> bool {
    if role == "assistant"@ {
        block == "output_text"@ || block == "refusal"@
    } else {
        &&& role == "developer"@ || role == "user"@
        &&& block == "input_text"@ || block == "input_image"@ || block == "input_file"@
    }
}

/// The first field of an object is found under its name.
proof fn the_first_field_is_found(fields: Seq<(Seq<char>, JsonView)>)
    requires
        fields.len() > 0,
    ensures
        json::lookup(fields, fields[0].0) == Some(fields[0].1),
{
}

/// A field is not found by way of one under another name.
proof fn a_field_under_another_name_is_passed(fields: Seq<(Seq<char>, JsonView)>, key: Seq<char>)
    requires
        fields.len() > 0,
        fields[0].0 != key,
    ensures
        json::lookup(fields, key) == json::lookup(fields.drop_first(), key),
{
}

/// The role of a message decides which blocks it holds: every block that is sent speaks the
/// vocabulary of the role it is sent under.
pub proof fn every_block_speaks_the_vocabulary_of_its_role(message: MessageView, i: int)
    requires
        0 <= i < message.content_len(),
    ensures
        ({
            let sent = InputItemView::Message(message).wire();
            &&& sent.text_at("role"@) is Some
            &&& sent.items_at("content"@) is Some
            &&& sent.items_at("content"@)->0.len() == message.content_len()
            &&& sent.items_at("content"@)->0[i].text_at("type"@) is Some
            &&& speaks(
                sent.text_at("role"@)->0,
                sent.items_at("content"@)->0[i].text_at("type"@)->0,
            )
        }),
{
    let fields = message.fields();
    reveal_strlit("type");
    reveal_strlit("role");
    reveal_strlit("content");
    reveal_strlit("assistant");
    reveal_strlit("developer");
    reveal_strlit("user");
    assert("type"@.len() == 4 && "type"@[0] == 't');
    assert("role"@.len() == 4 && "role"@[0] == 'r');
    assert("content"@.len() == 7);
    assert("assistant"@.len() == 9 && "assistant"@[0] == 'a');
    assert("developer"@.len() == 9 && "developer"@[0] == 'd');
    assert("user"@.len() == 4);
    a_field_under_another_name_is_passed(fields, "role"@);
    the_first_field_is_found(fields.drop_first());
    a_field_under_another_name_is_passed(fields, "content"@);
    a_field_under_another_name_is_passed(fields.drop_first(), "content"@);
    the_first_field_is_found(fields.drop_first().drop_first());
    match message {
        MessageView::Input { content, .. } => {
            the_first_field_is_found(content[i].wire()->Object_0);
        },
        MessageView::Assistant { content, .. } => {
            the_first_field_is_found(content[i].wire()->Object_0);
        },
    }
}

/// An assistant message states its phase, and no other does.
pub proof fn only_an_assistant_message_has_a_phase(message: MessageView)
    ensures
        InputItemView::Message(message).wire().field("phase"@) is Some
            <==> InputItemView::Message(message).wire().text_at("role"@) == Some("assistant"@),
{
    let fields = message.fields();
    reveal_strlit("type");
    reveal_strlit("role");
    reveal_strlit("content");
    reveal_strlit("phase");
    reveal_strlit("assistant");
    reveal_strlit("developer");
    reveal_strlit("user");
    assert("type"@.len() == 4 && "type"@[0] == 't');
    assert("role"@.len() == 4 && "role"@[0] == 'r');
    assert("content"@.len() == 7);
    assert("phase"@.len() == 5);
    assert("assistant"@.len() == 9 && "assistant"@[0] == 'a');
    assert("developer"@.len() == 9 && "developer"@[0] == 'd');
    assert("user"@.len() == 4);
    a_field_under_another_name_is_passed(fields, "role"@);
    the_first_field_is_found(fields.drop_first());
    a_field_under_another_name_is_passed(fields, "phase"@);
    a_field_under_another_name_is_passed(fields.drop_first(), "phase"@);
    a_field_under_another_name_is_passed(fields.drop_first().drop_first(), "phase"@);
    if let MessageView::Assistant { .. } = message {
        the_first_field_is_found(fields.drop_first().drop_first().drop_first());
    }
}

/// A function call is replayed with the very arguments the model emitted: what a decoded call
/// item held under `arguments` is what the appended call sends under `arguments`.
pub proof fn a_replayed_call_keeps_its_arguments(item: JsonView, emitted: Seq<char>)
    requires
        item.text_at("arguments"@) == Some(emitted),
        decode::item_of(item) matches Ok(OutputItemView::FunctionCall(_)),
    ensures
        ({
            let call = decode::item_of(item)->Ok_0->FunctionCall_0;
            let replayed = InputItemView::FunctionCall(
                FunctionCallView {
                    call_id: call.call_id,
                    name: call.name,
                    arguments: call.arguments,
                },
            );
            &&& replayed.wire().text_at("arguments"@) == Some(emitted)
            &&& Some(call.call_id) == item.text_at("call_id"@)
            &&& Some(call.name) == item.text_at("name"@)
        }),
{
    let call = decode::item_of(item)->Ok_0->FunctionCall_0;
    let fields = InputItemView::FunctionCall(
        FunctionCallView { call_id: call.call_id, name: call.name, arguments: call.arguments },
    ).fields();
    reveal_strlit("type");
    reveal_strlit("call_id");
    reveal_strlit("name");
    reveal_strlit("arguments");
    assert("type"@.len() == 4);
    assert("call_id"@.len() == 7);
    assert("name"@.len() == 4);
    assert("arguments"@.len() == 9);
    a_field_under_another_name_is_passed(fields, "arguments"@);
    a_field_under_another_name_is_passed(fields.drop_first(), "arguments"@);
    a_field_under_another_name_is_passed(fields.drop_first().drop_first(), "arguments"@);
    the_first_field_is_found(fields.drop_first().drop_first().drop_first());
}

impl MessageView {
    /// How many blocks the message holds.
    pub open spec fn content_len(self) -> nat {
        match self {
            MessageView::Input { content, .. } => content.len(),
            MessageView::Assistant { content, .. } => content.len(),
        }
    }
}

} // verus!
