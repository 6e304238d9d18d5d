//! What each breakpoint operation changes, block by block, and what each refusal means.
//!
//! The laws speak of the sites of items: the blocks that can carry a breakpoint, and whether
//! each of them does. Nothing here depends on how the tail is searched for or how the slots
//! are kept.
use vstd::prelude::*;

use crate::content;
use crate::content::{
    FunctionOutputView, InputBlockView, InputItemView, MessageView, OutputBlockView,
};
use crate::context;
use crate::context::{BreakpointError, BreakpointSlot, ContextView};
use crate::tools::{AllowedToolsErrorView, AllowedToolsMode, FunctionToolView};
use crate::values::InputRole;

verus! {

/// A breakpoint can go on every block of a message or of a tool result, except on a refusal;
/// and on nothing else.
pub proof fn every_block_but_a_refusal_is_a_site(item: InputItemView, block: int)
    ensures
        item.site(block) is Some <==> match item {
            InputItemView::Message(MessageView::Input { content, .. }) => 0 <= block
                < content.len(),
            InputItemView::Message(MessageView::Assistant { content, .. }) => 0 <= block
                < content.len() && content[block] is Text,
            InputItemView::FunctionCallOutput(answer) => match answer.output {
                FunctionOutputView::Blocks(blocks) => 0 <= block < blocks.len(),
                FunctionOutputView::Text(_) => false,
            },
            _ => false,
        },
{
}

/// Whether no block of any item can carry a breakpoint.
pub open spec fn nowhere_to_mark(items: Seq<InputItemView>) -> bool {
    forall|i: int, b: int| 0 <= i < items.len() ==> (#[trigger] items[i].site(b)) is None
}

proof fn no_site_lies_behind_the_last(sites: Seq<Option<bool>>)
    ensures
        match content::last_site(sites) {
            Some(last) => last < sites.len() && sites[last as int] is Some && forall|b: int|
                last < b < sites.len() ==> (#[trigger] sites[b]) is None,
            None => forall|b: int| 0 <= b < sites.len() ==> (#[trigger] sites[b]) is None,
        },
    decreases sites.len(),
{
    if sites.len() > 0 && sites.last() is None {
        let before = sites.drop_last();
        no_site_lies_behind_the_last(before);
        match content::last_site(before) {
            Some(last) => {
                assert forall|b: int| last < b < sites.len() implies (
                #[trigger] sites[b]) is None by {
                    if b < before.len() {
                        assert(before[b] == sites[b]);
                    }
                }
            },
            None => {
                assert forall|b: int| 0 <= b < sites.len() implies (
                #[trigger] sites[b]) is None by {
                    if b < before.len() {
                        assert(before[b] == sites[b]);
                    }
                }
            },
        }
    }
}

/// The tail is a site, every other site lies before it, and there is none only where there is
/// no site at all.
pub proof fn the_tail_is_the_last_site(items: Seq<InputItemView>)
    ensures
        match context::tail(items) {
            Some((item, block)) => {
                &&& 0 <= item < items.len()
                &&& items[item].site(block) is Some
                &&& forall|i: int, b: int|
                    0 <= i < items.len() && (#[trigger] items[i].site(b)) is Some ==> i < item || (i
                        == item && b <= block)
            },
            None => nowhere_to_mark(items),
        },
    decreases items.len(),
{
    if items.len() > 0 {
        let before = items.drop_last();
        no_site_lies_behind_the_last(items.last().sites());
        if content::last_site(items.last().sites()) is None {
            the_tail_is_the_last_site(before);
            match context::tail(before) {
                Some((item, block)) => {
                    assert(before[item] == items[item]);
                    assert forall|i: int, b: int|
                        0 <= i < items.len() && (#[trigger] items[i].site(b)) is Some implies i
                        < item || (i == item && b <= block) by {
                        if i < before.len() {
                            assert(before[i] == items[i]);
                            assert(before[i].site(b) is Some);
                        }
                    }
                },
                None => {
                    assert forall|i: int, b: int| 0 <= i < items.len() implies (
                    #[trigger] items[i].site(b)) is None by {
                        if i < before.len() {
                            assert(before[i] == items[i]);
                            assert(before[i].site(b) is None);
                        }
                    }
                },
            }
        }
    }
}

/// Whether a block is the last that can carry a breakpoint.
pub open spec fn last_to_mark(items: Seq<InputItemView>, item: int, block: int) -> bool {
    &&& 0 <= item < items.len()
    &&& items[item].site(block) is Some
    &&& forall|i: int, b: int|
        0 <= i < items.len() && (#[trigger] items[i].site(b)) is Some ==> i < item || (i == item
            && b <= block)
}

/// Whether two contexts say the same with the same tools, and their slots agree except for one.
pub open spec fn differ_in_one_slot(
    before: ContextView,
    after: ContextView,
    slot: BreakpointSlot,
) -> bool {
    &&& after.tools == before.tools
    &&& after.items.len() == before.items.len()
    &&& forall|i: int|
        0 <= i < before.items.len() ==> (#[trigger] after.items[i]).content()
            == before.items[i].content()
    &&& after.slots.len() == before.slots.len()
    &&& forall|i: int|
        0 <= i < before.slots.len() && i != slot.place() ==> #[trigger] after.slots[i]
            == before.slots[i]
}

/// Under the slots' account, a block is marked by another slot exactly where it carries a
/// breakpoint that is not this slot's.
proof fn a_mark_of_another_slot_is_seen(
    held: ContextView,
    slot: BreakpointSlot,
    item: int,
    block: int,
)
    requires
        held.wf(),
        0 <= item < held.items.len(),
    ensures
        held.marked_by_another(slot, item, block) <==> held.items[item].site(block) == Some(true)
            && !(held.slots[slot.place()] matches Some(own) && own.item == item && own.block
            == block),
{
    if held.items[item].site(block) == Some(true) {
        let i = choose|i: int|
            0 <= i < held.slots.len() && (#[trigger] held.slots[i]) is Some && held.slots[i]->0.item
                == item && held.slots[i]->0.block == block;
        assert(held.slots[i] is Some);
    }
    if held.marked_by_another(slot, item, block) {
        let i = choose|i: int|
            0 <= i < held.slots.len() && i != slot.place() && (#[trigger] held.slots[i]) is Some
                && held.slots[i]->0.item == item && held.slots[i]->0.block == block;
        assert(held.stands(held.slots[i]->0));
        if held.slots[slot.place()] is Some {
            let own = held.slots[slot.place()]->0;
            if own.item == item && own.block == block {
                assert(context::same_place(held.slots[slot.place()]->0, held.slots[i]->0));
                if i < slot.place() {
                    assert(!context::same_place(held.slots[i]->0, held.slots[slot.place()]->0));
                } else {
                    assert(!context::same_place(held.slots[slot.place()]->0, held.slots[i]->0));
                }
            }
        }
    }
}

proof fn contents_agree(a: Seq<InputItemView>, b: Seq<InputItemView>)
    requires
        context::contents(a) == context::contents(b),
    ensures
        a.len() == b.len(),
        forall|i: int| 0 <= i < a.len() ==> (#[trigger] a[i]).content() == b[i].content(),
{
    assert(context::contents(a).len() == a.len());
    assert(context::contents(b).len() == b.len());
    assert forall|i: int| 0 <= i < a.len() implies (#[trigger] a[i]).content()
        == b[i].content() by {
        assert(context::contents(a)[i] == a[i].content());
        assert(context::contents(b)[i] == b[i].content());
    }
}

/// Placing a slot marks the last block that can be marked and no other, and fills that slot and
/// no other. It is refused exactly where the slot is filled, where there is no block to mark, or
/// where the last one carries a breakpoint already.
pub proof fn a_breakpoint_is_placed_on_the_last_block(
    held: ContextView,
    slot: BreakpointSlot,
    anchored: bool,
)
    requires
        held.wf(),
    ensures
        match held.placing(slot, anchored) {
            Ok(after) => {
                &&& held.slots[slot.place()] is None
                &&& differ_in_one_slot(held, after, slot)
                &&& after.slots[slot.place()] matches Some(state)
                &&& state.anchored == anchored
                &&& last_to_mark(held.items, state.item, state.block)
                &&& held.items[state.item].site(state.block) == Some(false)
                &&& after.items[state.item].site(state.block) == Some(true)
                &&& forall|i: int, b: int|
                    0 <= i < held.items.len() && !(i == state.item && b == state.block)
                        ==> #[trigger] after.items[i].site(b) == held.items[i].site(b)
            },
            Err(error) => match error {
                BreakpointError::SlotAlreadyInUse(named) => named == slot
                    && held.slots[slot.place()] is Some,
                BreakpointError::NoBlockToMark => held.slots[slot.place()] is None
                    && nowhere_to_mark(held.items),
                BreakpointError::BlockAlreadyMarked => held.slots[slot.place()] is None && exists|
                    i: int,
                    b: int,
                | #[trigger]
                    last_to_mark(held.items, i, b) && held.items[i].site(b) == Some(true),
                _ => false,
            },
        },
{
    the_tail_is_the_last_site(held.items);
    match context::tail(held.items) {
        Some((item, block)) => {
            assert(last_to_mark(held.items, item, block));
            a_mark_of_another_slot_is_seen(held, slot, item, block);
            context::a_mark_changes_one_site(held.items, item, block, true);
            let after = held.putting(slot, item, block, anchored);
            contents_agree(after.items, held.items);
        },
        None => {},
    }
}

/// Rolling a slot leaves it, unanchored, on the last block that can be marked: that block is
/// marked, the block it stood on before is not, and every other is as it was. It is refused
/// exactly where the slot is anchored, where there is no block to mark, or where the last one
/// carries the breakpoint of another slot.
pub proof fn a_rolled_breakpoint_stands_on_the_last_block(held: ContextView, slot: BreakpointSlot)
    requires
        held.wf(),
    ensures
        match held.rolling(slot) {
            Ok(after) => {
                &&& !(held.slots[slot.place()] matches Some(old_state) && old_state.anchored)
                &&& differ_in_one_slot(held, after, slot)
                &&& after.slots[slot.place()] matches Some(state)
                &&& !state.anchored
                &&& last_to_mark(held.items, state.item, state.block)
                &&& after.items[state.item].site(state.block) == Some(true)
                &&& forall|i: int, b: int|
                    0 <= i < held.items.len() && !(i == state.item && b == state.block)
                        ==> #[trigger] after.items[i].site(b) == if (held.slots[slot.place()]
                        matches Some(left) && left.item == i && left.block == b) {
                        Some(false)
                    } else {
                        held.items[i].site(b)
                    }
            },
            Err(error) => match error {
                BreakpointError::SlotIsAnchored(named) => named == slot && (
                held.slots[slot.place()] matches Some(state) && state.anchored),
                BreakpointError::NoBlockToMark => nowhere_to_mark(held.items)
                    && held.slots[slot.place()] is None,
                BreakpointError::BlockAlreadyMarked => exists|i: int, b: int| #[trigger]
                    last_to_mark(held.items, i, b) && held.items[i].site(b) == Some(true) && !(
                    held.slots[slot.place()] matches Some(own) && own.item == i && own.block == b),
                _ => false,
            },
        },
        (held.slots[slot.place()] matches Some(state) && state.anchored) ==> held.rolling(slot)
            == Err::<ContextView, BreakpointError>(BreakpointError::SlotIsAnchored(slot)),
{
    the_tail_is_the_last_site(held.items);
    if held.slots[slot.place()] is None {
        a_breakpoint_is_placed_on_the_last_block(held, slot, false);
    } else {
        let own = held.slots[slot.place()]->0;
        assert(held.stands(own));
        match context::tail(held.items) {
            Some((item, block)) => {
                assert(last_to_mark(held.items, item, block));
                a_mark_of_another_slot_is_seen(held, slot, item, block);
                if !(own.item == item && own.block == block) {
                    let bare = held.emptying(slot);
                    context::a_mark_changes_one_site(held.items, own.item, own.block, false);
                    assert(bare.items[item].site(block) == held.items[item].site(block));
                    context::a_mark_changes_one_site(bare.items, item, block, true);
                    let after = bare.putting(slot, item, block, false);
                    contents_agree(bare.items, held.items);
                    contents_agree(after.items, bare.items);
                    assert forall|i: int, b: int|
                        0 <= i < held.items.len() && !(i == item && b == block) implies
                        #[trigger] after.items[i].site(b) == if own.item == i && own.block == b {
                        Some(false)
                    } else {
                        held.items[i].site(b)
                    } by {
                        assert(after.items[i].site(b) == bare.items[i].site(b));
                    }
                    assert forall|i: int| 0 <= i < held.items.len() implies (
                    #[trigger] after.items[i]).content() == held.items[i].content() by {
                        assert(after.items[i].content() == bare.items[i].content());
                    }
                }
            },
            None => {
                assert(held.items[own.item].site(own.block) is None);
            },
        }
    }
}

/// Clearing a slot empties it and takes its mark away, and changes no other slot and no other
/// block. It is refused exactly where the slot is empty or anchored.
pub proof fn a_cleared_breakpoint_is_gone(held: ContextView, slot: BreakpointSlot)
    requires
        held.wf(),
    ensures
        match held.clearing(slot) {
            Ok(after) => {
                &&& held.slots[slot.place()] matches Some(state)
                &&& !state.anchored
                &&& differ_in_one_slot(held, after, slot)
                &&& after.slots[slot.place()] is None
                &&& held.items[state.item].site(state.block) == Some(true)
                &&& after.items[state.item].site(state.block) == Some(false)
                &&& forall|i: int, b: int|
                    0 <= i < held.items.len() && !(i == state.item && b == state.block)
                        ==> #[trigger] after.items[i].site(b) == held.items[i].site(b)
            },
            Err(error) => match error {
                BreakpointError::SlotIsEmpty(named) => named == slot
                    && held.slots[slot.place()] is None,
                BreakpointError::SlotIsAnchored(named) => named == slot && (
                held.slots[slot.place()] matches Some(state) && state.anchored),
                _ => false,
            },
        },
{
    if held.slots[slot.place()] is Some {
        let state = held.slots[slot.place()]->0;
        assert(held.stands(state));
        context::a_mark_changes_one_site(held.items, state.item, state.block, false);
        contents_agree(held.emptying(slot).items, held.items);
    }
}

/// Anchoring a developer message appends it, marked, and anchors the slot on it. What was there
/// is unchanged. It is refused exactly where the slot is filled.
pub proof fn an_anchored_message_is_appended_and_marked(
    held: ContextView,
    slot: BreakpointSlot,
    text: Seq<char>,
)
    requires
        held.wf(),
    ensures
        match held.anchoring(slot, text) {
            Ok(after) => {
                &&& held.slots[slot.place()] is None
                &&& after.tools == held.tools
                &&& after.items.len() == held.items.len() + 1
                &&& after.items.take(held.items.len() as int) == held.items
                &&& after.items.last() matches InputItemView::Message(
                    MessageView::Input { role, content },
                )
                &&& role == InputRole::Developer
                &&& content.len() == 1
                &&& content[0] == (InputBlockView::Text { text, marked: true })
                &&& after.slots[slot.place()] matches Some(state)
                &&& state.anchored
                &&& state.item == held.items.len()
                &&& state.block == 0
                &&& after.slots.len() == held.slots.len()
                &&& forall|i: int|
                    0 <= i < held.slots.len() && i != slot.place() ==> #[trigger] after.slots[i]
                        == held.slots[i]
            },
            Err(error) => error == BreakpointError::SlotAlreadyInUse(slot)
                && held.slots[slot.place()] is Some,
        },
{
    if held.slots[slot.place()] is None {
        let after = held.anchoring(slot, text)->Ok_0;
        assert(after.items.take(held.items.len() as int) =~= held.items);
    }
}

/// What is pushed is said last, and changes nothing that was there.
pub proof fn what_is_pushed_is_said_last(held: ContextView, item: InputItemView)
    ensures
        held.pushing(item).items.len() == held.items.len() + 1,
        held.pushing(item).items.last() == item,
        held.pushing(item).items.drop_last() == held.items,
        held.pushing(item).tools == held.tools,
        held.pushing(item).slots == held.slots,
{
    assert(held.pushing(item).items.drop_last() =~= held.items);
}

/// A pushed text is the whole of its message, under its role, without a breakpoint.
pub proof fn a_pushed_text_is_the_whole_message(role: InputRole, text: Seq<char>)
    ensures
        context::message_of(role, text) matches InputItemView::Message(
            MessageView::Input { role: kept, content },
        ) && kept == role && content.len() == 1 && content[0] == (InputBlockView::Text {
            text,
            marked: false,
        }),
{
}

/// An item without its marks says what it said: the same role or phase, the same call, and the
/// same blocks in the same order, none of them marked.
pub proof fn an_item_without_its_marks_says_the_same(item: InputItemView)
    ensures
        match item {
            InputItemView::Message(MessageView::Input { role, content }) => {
                &&& item.content() matches InputItemView::Message(
                    MessageView::Input { role: kept, content: bare },
                )
                &&& kept == role
                &&& bare.len() == content.len()
                &&& forall|i: int| 0 <= i < bare.len() ==> bare_of(#[trigger] bare[i], content[i])
            },
            InputItemView::Message(MessageView::Assistant { phase, content }) => {
                &&& item.content() matches InputItemView::Message(
                    MessageView::Assistant { phase: kept, content: bare },
                )
                &&& kept == phase
                &&& bare.len() == content.len()
                &&& forall|i: int|
                    0 <= i < bare.len() ==> match content[i] {
                        OutputBlockView::Text { text, .. } => #[trigger] bare[i]
                            == (OutputBlockView::Text { text, marked: false }),
                        OutputBlockView::Refusal { .. } => bare[i] == content[i],
                    }
            },
            InputItemView::FunctionCallOutput(answer) => {
                &&& item.content() matches InputItemView::FunctionCallOutput(kept)
                &&& kept.call_id == answer.call_id
                &&& match answer.output {
                    FunctionOutputView::Text(_) => kept.output == answer.output,
                    FunctionOutputView::Blocks(blocks) => {
                        &&& kept.output matches FunctionOutputView::Blocks(bare)
                        &&& bare.len() == blocks.len()
                        &&& forall|i: int|
                            0 <= i < bare.len() ==> bare_of(#[trigger] bare[i], blocks[i])
                    },
                }
            },
            _ => item.content() == item,
        },
{
}

/// Whether a block is another without its mark.
pub open spec fn bare_of(bare: InputBlockView, block: InputBlockView) -> bool {
    match block {
        InputBlockView::Text { text, .. } => bare == (InputBlockView::Text { text, marked: false }),
        InputBlockView::Image { source, detail, .. } => bare == (InputBlockView::Image {
            source,
            detail,
            marked: false,
        }),
        InputBlockView::File { source, detail, .. } => bare == (InputBlockView::File {
            source,
            detail,
            marked: false,
        }),
    }
}

/// A new set of allowed tools is refused exactly for being empty, or for its first name that is
/// no tool's or that was given before; otherwise it holds the mode and the names as given.
pub proof fn allowed_tools_are_the_names_given(
    tools: Seq<FunctionToolView>,
    mode: AllowedToolsMode,
    names: Seq<Seq<char>>,
)
    ensures
        match context::allowed_tools(tools, mode, names) {
            Ok(allowed) => {
                &&& allowed.mode == mode
                &&& allowed.names == names
                &&& names.len() > 0
                &&& names.no_duplicates()
                &&& forall|i: int| 0 <= i < names.len() ==> a_tool_is_called(tools, #[trigger] names[i])
            },
            Err(AllowedToolsErrorView::EmptyAllowedSet) => names.len() == 0,
            Err(AllowedToolsErrorView::UnknownTool(name)) => exists|n: int|
                first_fault(tools, names, n) && (#[trigger] names[n]) == name && !a_tool_is_called(
                    tools,
                    name,
                ),
            Err(AllowedToolsErrorView::DuplicateTool(name)) => exists|n: int|
                first_fault(tools, names, n) && (#[trigger] names[n]) == name && names.take(
                    n,
                ).contains(name),
        },
{
    if names.len() > 0 {
        the_first_fault_is_told(tools, names);
        assert forall|name: Seq<char>| context::names_of(tools).contains(name) implies
            #[trigger] a_tool_is_called(tools, name) by {
            let t = choose|t: int|
                0 <= t < context::names_of(tools).len() && context::names_of(tools)[t] == name;
            assert(tools[t].name == name);
        }
        if context::allowing(context::names_of(tools), names) is Ok {
            context::allowed_names_are_tools_and_distinct(context::names_of(tools), names);
        }
    }
}

/// Whether one of the tools has a name.
pub open spec fn a_tool_is_called(tools: Seq<FunctionToolView>, name: Seq<char>) -> bool {
    exists|t: int| 0 <= t < tools.len() && (#[trigger] tools[t]).name == name
}

/// Whether every name before one is a tool's and none is given twice.
pub open spec fn first_fault(
    tools: Seq<FunctionToolView>,
    names: Seq<Seq<char>>,
    n: int,
) -> bool {
    &&& 0 <= n < names.len()
    &&& names.take(n).no_duplicates()
    &&& forall|i: int| 0 <= i < n ==> a_tool_is_called(tools, #[trigger] names[i])
}

proof fn the_first_fault_is_told(tools: Seq<FunctionToolView>, names: Seq<Seq<char>>)
    ensures
        match context::allowing(context::names_of(tools), names) {
            Ok(_) => true,
            Err(AllowedToolsErrorView::EmptyAllowedSet) => false,
            Err(AllowedToolsErrorView::UnknownTool(name)) => exists|n: int|
                first_fault(tools, names, n) && (#[trigger] names[n]) == name && !a_tool_is_called(
                    tools,
                    name,
                ),
            Err(AllowedToolsErrorView::DuplicateTool(name)) => exists|n: int|
                first_fault(tools, names, n) && (#[trigger] names[n]) == name && names.take(
                    n,
                ).contains(name),
        },
    decreases names.len(),
{
    let known = context::names_of(tools);
    if names.len() > 0 {
        let before = names.drop_last();
        let last = names.len() - 1;
        the_first_fault_is_told(tools, before);
        match context::allowing(known, before) {
            Ok(_) => {
                context::allowed_names_are_tools_and_distinct(known, before);
                assert(names.take(last) =~= before);
                assert forall|i: int| 0 <= i < last implies a_tool_is_called(
                    tools,
                    #[trigger] names[i],
                ) by {
                    assert(before[i] == names[i]);
                    let t = choose|t: int| 0 <= t < known.len() && known[t] == names[i];
                    assert(tools[t].name == names[i]);
                }
                assert(first_fault(tools, names, last));
                assert(names[last] == names.last());
                if a_tool_is_called(tools, names.last()) {
                    let t = choose|t: int|
                        0 <= t < tools.len() && (#[trigger] tools[t]).name == names.last();
                    assert(known[t] == names.last());
                }
            },
            Err(AllowedToolsErrorView::UnknownTool(name)) => {
                let n = choose|n: int|
                    first_fault(tools, before, n) && (#[trigger] before[n]) == name
                        && !a_tool_is_called(tools, name);
                assert(before.take(n) =~= names.take(n));
                assert forall|i: int| 0 <= i < n implies a_tool_is_called(
                    tools,
                    #[trigger] names[i],
                ) by {
                    assert(before[i] == names[i]);
                }
                assert(first_fault(tools, names, n));
                assert(names[n] == name);
            },
            Err(AllowedToolsErrorView::DuplicateTool(name)) => {
                let n = choose|n: int|
                    first_fault(tools, before, n) && (#[trigger] before[n]) == name
                        && before.take(n).contains(name);
                assert(before.take(n) =~= names.take(n));
                assert forall|i: int| 0 <= i < n implies a_tool_is_called(
                    tools,
                    #[trigger] names[i],
                ) by {
                    assert(before[i] == names[i]);
                }
                assert(first_fault(tools, names, n));
                assert(names[n] == name);
            },
            Err(AllowedToolsErrorView::EmptyAllowedSet) => {},
        }
    }
}

} // verus!
