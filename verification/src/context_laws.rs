//! What holds of conversations as a whole.
use vstd::prelude::*;

use crate::content;
use crate::content::{FunctionOutputView, InputItemView, MessageView};
use crate::context;
use crate::context::{
    BreakpointError, BreakpointSlot, ContextView, SlotView, CACHE_WRITE_SLOTS,
};
use crate::values::InputRole;

verus! {

proof fn clearing_a_site_takes_one(sites: Seq<Option<bool>>, block: int)
    requires
        0 <= block < sites.len(),
        sites[block] == Some(true),
    ensures
        content::marked_sites(sites.update(block, Some(false))) + 1 == content::marked_sites(
            sites,
        ),
    decreases sites.len(),
{
    let after = sites.update(block, Some(false));
    if block == sites.len() - 1 {
        assert(after.drop_last() =~= sites.drop_last());
    } else {
        assert(after.drop_last() =~= sites.drop_last().update(block, Some(false)));
        clearing_a_site_takes_one(sites.drop_last(), block);
    }
}

proof fn clearing_a_mark_takes_one(items: Seq<InputItemView>, item: int, block: int)
    requires
        0 <= item < items.len(),
        items[item].site(block) == Some(true),
    ensures
        context::total_marks(context::marking(items, item, block, false)) + 1 == context::total_marks(items),
    decreases items.len(),
{
    let after = context::marking(items, item, block, false);
    if item == items.len() - 1 {
        content::marking_changes_one_site(items[item], block, false);
        clearing_a_site_takes_one(items[item].sites(), block);
        assert(after.drop_last() =~= items.drop_last());
    } else {
        assert(after.drop_last() =~= context::marking(items.drop_last(), item, block, false));
        assert(after.last() == items.last());
        clearing_a_mark_takes_one(items.drop_last(), item, block);
    }
}

proof fn no_marked_site(sites: Seq<Option<bool>>)
    requires
        forall|b: int| 0 <= b < sites.len() ==> #[trigger] sites[b] != Some(true),
    ensures
        content::marked_sites(sites) == 0,
    decreases sites.len(),
{
    if sites.len() > 0 {
        assert forall|b: int| 0 <= b < sites.drop_last().len() implies #[trigger] sites.drop_last()[b]
            != Some(true) by {
            assert(sites.drop_last()[b] == sites[b]);
        }
        no_marked_site(sites.drop_last());
    }
}

proof fn no_mark(items: Seq<InputItemView>)
    requires
        forall|n: int, b: int|
            0 <= n < items.len() ==> #[trigger] items[n].site(b) != Some(true),
    ensures
        context::total_marks(items) == 0,
    decreases items.len(),
{
    if items.len() > 0 {
        let last = items.len() - 1;
        assert forall|b: int| 0 <= b < items[last].sites().len() implies #[trigger] items[last].sites()[b]
            != Some(true) by {
            assert(items[last].site(b) != Some(true));
        }
        no_marked_site(items[last].sites());
        assert forall|n: int, b: int|
            0 <= n < items.drop_last().len() implies #[trigger] items.drop_last()[n].site(b)
            != Some(true) by {
            assert(items.drop_last()[n] == items[n]);
        }
        no_mark(items.drop_last());
    }
}

proof fn emptying_a_slot_takes_one(slots: Seq<Option<SlotView>>, k: int)
    requires
        0 <= k < slots.len(),
        slots[k] is Some,
    ensures
        context::filled(slots.update(k, None)) + 1 == context::filled(slots),
    decreases slots.len(),
{
    let after = slots.update(k, None);
    if k == slots.len() - 1 {
        assert(after.drop_last() =~= slots.drop_last());
    } else {
        assert(after.drop_last() =~= slots.drop_last().update(k, None));
        emptying_a_slot_takes_one(slots.drop_last(), k);
    }
}

proof fn no_slot_is_filled(slots: Seq<Option<SlotView>>)
    requires
        forall|i: int| 0 <= i < slots.len() ==> (#[trigger] slots[i]) is None,
    ensures
        context::filled(slots) == 0,
    decreases slots.len(),
{
    if slots.len() > 0 {
        assert(slots[slots.len() - 1] is None);
        assert forall|i: int| 0 <= i < slots.drop_last().len() implies (
        #[trigger] slots.drop_last()[i]) is None by {
            assert(slots.drop_last()[i] == slots[i]);
        }
        no_slot_is_filled(slots.drop_last());
    }
}

spec fn slot_at(k: int) -> BreakpointSlot {
    if k == 0 {
        BreakpointSlot::S0
    } else if k == 1 {
        BreakpointSlot::S1
    } else if k == 2 {
        BreakpointSlot::S2
    } else {
        BreakpointSlot::S3
    }
}

/// The slots are an exact account of the breakpoints on the wire: there are as many
/// breakpoints in the items as filled slots.
pub proof fn the_slots_count_the_breakpoints(held: ContextView)
    requires
        held.wf(),
    ensures
        context::total_marks(held.items) == context::filled(held.slots),
    decreases context::filled(held.slots),
{
    if exists|k: int| 0 <= k < held.slots.len() && (#[trigger] held.slots[k]) is Some {
        let k = choose|k: int| 0 <= k < held.slots.len() && (#[trigger] held.slots[k]) is Some;
        let slot = slot_at(k);
        assert(slot.place() == k);
        let state = held.slots[k]->0;
        assert(held.stands(state));
        held.emptying_keeps(slot);
        emptying_a_slot_takes_one(held.slots, k);
        clearing_a_mark_takes_one(held.items, state.item, state.block);
        the_slots_count_the_breakpoints(held.emptying(slot));
    } else {
        no_slot_is_filled(held.slots);
        assert forall|n: int, b: int|
            0 <= n < held.items.len() implies #[trigger] held.items[n].site(b) != Some(true) by {
        }
        no_mark(held.items);
    }
}

proof fn no_more_slots_are_filled_than_there_are(slots: Seq<Option<SlotView>>)
    ensures
        context::filled(slots) <= slots.len(),
    decreases slots.len(),
{
    if slots.len() > 0 {
        no_more_slots_are_filled_than_there_are(slots.drop_last());
    }
}

/// There is no fifth breakpoint: never more than four slots are filled, and never more than
/// four breakpoints reach the wire.
pub proof fn no_more_than_four_breakpoints(held: ContextView)
    requires
        held.wf(),
    ensures
        context::filled(held.slots) <= CACHE_WRITE_SLOTS,
        context::total_marks(held.items) <= CACHE_WRITE_SLOTS,
{
    no_more_slots_are_filled_than_there_are(held.slots);
    the_slots_count_the_breakpoints(held);
}

proof fn emptying_changes_no_content(held: ContextView, slot: BreakpointSlot)
    requires
        held.wf(),
        held.slots[slot.place()] is Some,
    ensures
        context::contents(held.emptying(slot).items) == context::contents(held.items),
{
    let state = held.slots[slot.place()]->0;
    assert(held.stands(state));
    context::a_mark_changes_one_site(held.items, state.item, state.block, false);
}

/// Placing, rolling and clearing move marks and nothing else: the tools and everything that
/// was said stay as they were.
pub proof fn breakpoints_change_no_content(
    held: ContextView,
    slot: BreakpointSlot,
    anchored: bool,
)
    requires
        held.wf(),
    ensures
        match held.placing(slot, anchored) {
            Ok(next) => next.tools == held.tools && context::contents(next.items)
                == context::contents(held.items),
            Err(_) => true,
        },
        match held.rolling(slot) {
            Ok(next) => next.tools == held.tools && context::contents(next.items)
                == context::contents(held.items),
            Err(_) => true,
        },
        match held.clearing(slot) {
            Ok(next) => next.tools == held.tools && context::contents(next.items)
                == context::contents(held.items),
            Err(_) => true,
        },
{
    context::the_tail_is_a_site(held.items);
    if held.slots[slot.place()] is Some {
        emptying_changes_no_content(held, slot);
    }
    if let Some((item, block)) = context::tail(held.items) {
        context::a_mark_changes_one_site(held.items, item, block, true);
        if let Some(state) = held.slots[slot.place()] {
            assert(held.stands(state));
            context::a_mark_changes_one_site(held.items, state.item, state.block, false);
            let bare = held.emptying(slot);
            assert(bare.items[item].site(block) is Some);
            context::a_mark_changes_one_site(bare.items, item, block, true);
        }
    }
}

/// An anchored slot refuses to move or clear.
pub proof fn an_anchor_refuses(held: ContextView, slot: BreakpointSlot)
    requires
        held.wf(),
        held.slots[slot.place()] is Some,
        held.slots[slot.place()]->0.anchored,
    ensures
        held.rolling(slot) == Err::<ContextView, BreakpointError>(
            BreakpointError::SlotIsAnchored(slot),
        ),
        held.clearing(slot) == Err::<ContextView, BreakpointError>(
            BreakpointError::SlotIsAnchored(slot),
        ),
        held.placing(slot, true) == Err::<ContextView, BreakpointError>(
            BreakpointError::SlotAlreadyInUse(slot),
        ),
{
}

/// An anchor stands where it was put, whatever is done to the context.
pub proof fn an_anchor_stays(
    held: ContextView,
    anchor: BreakpointSlot,
    slot: BreakpointSlot,
    text: Seq<char>,
    item: InputItemView,
)
    requires
        held.wf(),
        held.slots[anchor.place()] is Some,
        held.slots[anchor.place()]->0.anchored,
    ensures
        held.pushing(item).slots[anchor.place()] == held.slots[anchor.place()],
        match held.rolling(slot) {
            Ok(next) => next.slots[anchor.place()] == held.slots[anchor.place()],
            Err(_) => true,
        },
        match held.placing(slot, true) {
            Ok(next) => next.slots[anchor.place()] == held.slots[anchor.place()],
            Err(_) => true,
        },
        match held.clearing(slot) {
            Ok(next) => next.slots[anchor.place()] == held.slots[anchor.place()],
            Err(_) => true,
        },
        match held.anchoring(slot, text) {
            Ok(next) => next.slots[anchor.place()] == held.slots[anchor.place()],
            Err(_) => true,
        },
{
}

/// Rolling a slot changes no other slot.
pub proof fn rolling_moves_one_slot(held: ContextView, slot: BreakpointSlot, other: BreakpointSlot)
    requires
        held.wf(),
        slot != other,
    ensures
        match held.rolling(slot) {
            Ok(next) => next.slots[other.place()] == held.slots[other.place()],
            Err(_) => true,
        },
{
}

/// Rolling twice with no new content is rolling once.
pub proof fn rolling_is_idempotent(held: ContextView, slot: BreakpointSlot)
    requires
        held.wf(),
    ensures
        match held.rolling(slot) {
            Ok(next) => next.rolling(slot) == Ok::<ContextView, BreakpointError>(next),
            Err(_) => true,
        },
{
    context::the_tail_is_a_site(held.items);
    if let Ok(next) = held.rolling(slot) {
        if let Some((item, block)) = context::tail(held.items) {
            match held.slots[slot.place()] {
                None => {
                    context::a_mark_changes_one_site(held.items, item, block, true);
                },
                Some(state) => {
                    if !(item == state.item && block == state.block) {
                        assert(held.stands(state));
                        context::a_mark_changes_one_site(
                            held.items,
                            state.item,
                            state.block,
                            false,
                        );
                        let bare = held.emptying(slot);
                        assert(bare.items[item].site(block) == held.items[item].site(block));
                        context::a_mark_changes_one_site(bare.items, item, block, true);
                    }
                },
            }
        }
    }
}

proof fn marking_back(item: InputItemView, block: int)
    requires
        item.site(block) == Some(false),
    ensures
        item.marking(block, true).marking(block, false) == item,
{
    let back = item.marking(block, true).marking(block, false);
    match item {
        InputItemView::Message(MessageView::Input { role, content }) => {
            assert(content[block].marking(true).marking(false) == content[block]);
            assert(back->Message_0->Input_content =~= content);
        },
        InputItemView::Message(MessageView::Assistant { phase, content }) => {
            assert(content[block].marking(true).marking(false) == content[block]);
            assert(back->Message_0->Assistant_content =~= content);
        },
        InputItemView::FunctionCallOutput(answer) => match answer.output {
            FunctionOutputView::Blocks(blocks) => {
                assert(blocks[block].marking(true).marking(false) == blocks[block]);
                assert(back->FunctionCallOutput_0.output->Blocks_0 =~= blocks);
            },
            FunctionOutputView::Text(_) => {},
        },
        _ => {},
    }
}

/// Clearing a slot just rolled out of emptiness gives back the context as it was.
pub proof fn clearing_undoes_a_first_roll(held: ContextView, slot: BreakpointSlot)
    requires
        held.wf(),
        held.slots[slot.place()] is None,
        held.rolling(slot) is Ok,
    ensures
        held.rolling(slot)->Ok_0.clearing(slot) == Ok::<ContextView, BreakpointError>(held),
{
    context::the_tail_is_a_site(held.items);
    if let Some((item, block)) = context::tail(held.items) {
        let next = held.rolling(slot)->Ok_0;
        assert(held.items[item].site(block) == Some(false)) by {
            if held.items[item].site(block) == Some(true) {
                let i = choose|i: int|
                    0 <= i < held.slots.len() && (#[trigger] held.slots[i]) is Some
                        && held.slots[i]->0.item == item && held.slots[i]->0.block == block;
                assert(i != slot.place());
                assert(held.marked_by_another(slot, item, block));
            }
        }
        marking_back(held.items[item], block);
        let back = next.emptying(slot);
        assert(back.items =~= held.items);
        assert(back.slots =~= held.slots);
        assert(back == held);
    }
}

/// Rolling after appending a one-block message puts the slot on that message, unless the
/// slot is anchored.
pub proof fn a_roll_lands_on_the_newest_message(
    held: ContextView,
    slot: BreakpointSlot,
    role: InputRole,
    text: Seq<char>,
)
    requires
        held.wf(),
        match held.slots[slot.place()] {
            Some(state) => !state.anchored,
            None => true,
        },
    ensures
        ({
            let said = held.pushing(context::message_of(role, text));
            &&& said.rolling(slot) is Ok
            &&& said.rolling(slot)->Ok_0.slots[slot.place()] == Some(
                SlotView { item: held.items.len() as int, block: 0, anchored: false },
            )
        }),
{
    let message = context::message_of(role, text);
    let said = held.pushing(message);
    let item = held.items.len() as int;
    assert(message.sites() =~= seq![Some(false)]);
    assert(said.items.last() == message);
    assert(message.sites().last() is Some);
    assert(context::tail(said.items) == Some((item, 0int)));
    assert(!said.marked_by_another(slot, item, 0)) by {
        if said.marked_by_another(slot, item, 0) {
            let i = choose|i: int|
                0 <= i < said.slots.len() && i != slot.place() && (#[trigger] said.slots[i]) is Some
                    && said.slots[i]->0.item == item && said.slots[i]->0.block == 0;
            assert(held.slots[i] is Some);
            assert(held.stands(held.slots[i]->0));
        }
    }
    if held.slots[slot.place()] is Some {
        assert(held.stands(held.slots[slot.place()]->0));
    }
}

} // verus!
