//! Append-only conversation state with a frozen tool array and four cache breakpoint slots.
//!
//! Everything here protects one property: **the rendered prefix of the next request must
//! extend the previous one.** So the type offers no way to rewrite what has already been said,
//! and no way to change the tools.
//!
//! * **Tools are set once, at construction.** Vary availability with
//!   [`Context::allow_tools`] instead.
//! * **Items are appended, never edited.**
//! * **Breakpoints live in four named slots.** OpenAI writes at most four cache entries per
//!   request, so the slots *are* that budget. Blocks are appended without their marks, so
//!   every breakpoint in the items is one of the slots'.
//! * **An anchored slot never moves.** Anchored slots refuse to be rolled or cleared.
use vstd::prelude::*;

use crate::content;
use crate::content::{
    FunctionCall, FunctionCallOutput, FunctionCallOutputView, FunctionCallView, FunctionOutput,
    FunctionOutputView, InputBlock, InputBlockView, InputItem, InputItemView, Message,
    MessageView, OutputBlock, OutputBlockView, PromptCacheBreakpoint, ReplayedReasoning,
    ReplayedReasoningView,
};
use crate::context_laws;
use crate::text;
use crate::tools::{
    AllowedTools, AllowedToolsError, AllowedToolsErrorView, AllowedToolsMode, AllowedToolsView,
    FunctionTool, FunctionToolView,
};
use crate::values::{AssistantPhase, InputRole};
use crate::views;

verus! {

/// How many breakpoints a request may write. The API's hard ceiling, and hence the number of
/// slots.
pub const CACHE_WRITE_SLOTS: usize = 4;

/// How far back OpenAI looks for a *readable* breakpoint, in breakpoints.
///
/// OpenAI states both 50 and 80; the smaller figure is recorded here because relying on the
/// larger one and being wrong costs money. Nothing in this library enforces it.
pub const CACHE_READ_BREAKPOINT_LOOKBACK: usize = 50;

/// One of the four cache-write slots.
///
/// Naming the slots rather than counting breakpoints is what makes the limit structural:
/// there is no fifth variant to pass.
#[derive(Debug, Clone, Copy, PartialEq, Eq, Hash, Structural)]
pub enum BreakpointSlot {
    /// First slot. Conventionally the stable-instructions anchor.
    S0,
    /// Second slot.
    S1,
    /// Third slot.
    S2,
    /// Fourth slot. Unusable under [`CacheMode::Implicit`](crate::values::CacheMode), where
    /// OpenAI's own breakpoint takes one of the four.
    S3,
}

impl BreakpointSlot {
    /// All four slots, in order.
    pub const ALL: [BreakpointSlot; 4] = [
        BreakpointSlot::S0,
        BreakpointSlot::S1,
        BreakpointSlot::S2,
        BreakpointSlot::S3,
    ];

    /// The slot's place among the four.
    pub open spec fn place(self) -> int {
        match self {
            BreakpointSlot::S0 => 0,
            BreakpointSlot::S1 => 1,
            BreakpointSlot::S2 => 2,
            BreakpointSlot::S3 => 3,
        }
    }

    /// The slot's name.
    pub open spec fn label(self) -> Seq<char> {
        match self {
            BreakpointSlot::S0 => "S0"@,
            BreakpointSlot::S1 => "S1"@,
            BreakpointSlot::S2 => "S2"@,
            BreakpointSlot::S3 => "S3"@,
        }
    }

    fn index(self) -> (i: usize)
        ensures
            i == self.place(),
            i < CACHE_WRITE_SLOTS,
    {
        match self {
            BreakpointSlot::S0 => 0,
            BreakpointSlot::S1 => 1,
            BreakpointSlot::S2 => 2,
            BreakpointSlot::S3 => 3,
        }
    }

    fn name(self) -> (s: &'static str)
        ensures
            s@ == self.label(),
    {
        match self {
            BreakpointSlot::S0 => "S0",
            BreakpointSlot::S1 => "S1",
            BreakpointSlot::S2 => "S2",
            BreakpointSlot::S3 => "S3",
        }
    }
}

/// Where a breakpoint sits: which input item, and which block inside it.
#[derive(Debug, Clone, Copy, PartialEq, Eq, Structural)]
struct Position {
    item: usize,
    block: usize,
}

#[derive(Debug, Clone, Copy)]
struct SlotState {
    position: Position,
    /// An anchored slot is frozen for the context's life.
    anchored: bool,
}

/// What a filled slot holds: where its breakpoint sits, and whether it is anchored there.
pub struct SlotView {
    pub item: int,
    pub block: int,
    pub anchored: bool,
}

impl View for SlotState {
    type V = SlotView;

    closed spec fn view(&self) -> SlotView {
        SlotView {
            item: self.position.item as int,
            block: self.position.block as int,
            anchored: self.anchored,
        }
    }
}

/// Why placing or moving a breakpoint was refused.
///
/// Every variant is a mistake that would otherwise show up as an unexplained cache miss or an
/// unexplained bill, so each is refused before the state changes.
#[derive(Debug, Clone, Copy, PartialEq, Eq, Structural)]
pub enum BreakpointError {
    /// The slot already holds a breakpoint. Slots never overwrite.
    SlotAlreadyInUse(BreakpointSlot),
    /// The slot is anchored, and anchors do not move or clear.
    SlotIsAnchored(BreakpointSlot),
    /// The slot is empty, so there is nothing to move.
    SlotIsEmpty(BreakpointSlot),
    /// No item yet holds a block a breakpoint could attach to.
    NoBlockToMark,
    /// Another slot already marks that exact block. One block carries one wire breakpoint.
    BlockAlreadyMarked,
}

impl BreakpointError {
    /// The error in words.
    pub open spec fn words(self) -> Seq<char> {
        match self {
            BreakpointError::SlotAlreadyInUse(slot) => "cache slot "@ + slot.label()
                + " already holds a breakpoint"@,
            BreakpointError::SlotIsAnchored(slot) => "cache slot "@ + slot.label()
                + " is anchored and cannot be moved"@,
            BreakpointError::SlotIsEmpty(slot) => "cache slot "@ + slot.label()
                + " holds no breakpoint"@,
            BreakpointError::NoBlockToMark => {
                "no content block is available to carry a cache breakpoint"@
            },
            BreakpointError::BlockAlreadyMarked => {
                "another slot already marks that block; one block carries one breakpoint"@
            },
        }
    }

    /// The error in words.
    pub fn message(&self) -> (words: String)
        ensures
            words@ == self.words(),
    {
        match self {
            BreakpointError::SlotAlreadyInUse(slot) => "cache slot ".to_owned().concat(
                slot.name(),
            ).concat(" already holds a breakpoint"),
            BreakpointError::SlotIsAnchored(slot) => "cache slot ".to_owned().concat(
                slot.name(),
            ).concat(" is anchored and cannot be moved"),
            BreakpointError::SlotIsEmpty(slot) => "cache slot ".to_owned().concat(
                slot.name(),
            ).concat(" holds no breakpoint"),
            BreakpointError::NoBlockToMark => {
                "no content block is available to carry a cache breakpoint".to_owned()
            },
            BreakpointError::BlockAlreadyMarked => {
                "another slot already marks that block; one block carries one breakpoint".to_owned()
            },
        }
    }
}

/// The conversation: a frozen tool array, an append-only item list, and four breakpoint slots.
///
/// Reusable across turns and across models. Per-call parameters live on
/// [`Request`](crate::request::Request), which borrows this.
#[derive(Debug)]
pub struct Context {
    tools: Vec<FunctionTool>,
    items: Vec<InputItem>,
    slots: [Option<SlotState>; 4],
}

/// What a [`Context`] holds.
#[verifier::ext_equal]
pub struct ContextView {
    pub tools: Seq<FunctionToolView>,
    pub items: Seq<InputItemView>,
    pub slots: Seq<Option<SlotView>>,
}

impl View for Context {
    type V = ContextView;

    closed spec fn view(&self) -> ContextView {
        ContextView {
            tools: views::list_view(self.tools@),
            items: views::list_view(self.items@),
            slots: slots_view(self.slots@),
        }
    }
}

spec fn slots_view(slots: Seq<Option<SlotState>>) -> Seq<Option<SlotView>> {
    Seq::new(slots.len(), |i: int| views::option_view(slots[i]))
}

/// The last block, of the last item, that can carry a breakpoint. Items and blocks that
/// cannot are skipped: the nearest legal boundary is the one the caller means.
pub open spec fn tail(items: Seq<InputItemView>) -> Option<(int, int)>
    decreases items.len(),
{
    if items.len() == 0 {
        None
    } else {
        match content::last_site(items.last().sites()) {
            Some(block) => Some((items.len() - 1, block as int)),
            None => tail(items.drop_last()),
        }
    }
}

/// How many slots are filled.
pub open spec fn filled(slots: Seq<Option<SlotView>>) -> nat
    decreases slots.len(),
{
    if slots.len() == 0 {
        0
    } else {
        filled(slots.drop_last()) + if slots.last() is Some {
            1nat
        } else {
            0nat
        }
    }
}

/// How many breakpoints items carry.
pub open spec fn total_marks(items: Seq<InputItemView>) -> nat
    decreases items.len(),
{
    if items.len() == 0 {
        0
    } else {
        total_marks(items.drop_last()) + items.last().marks()
    }
}

/// Items with the mark of one block set or cleared.
pub open spec fn marking(
    items: Seq<InputItemView>,
    item: int,
    block: int,
    present: bool,
) -> Seq<InputItemView> {
    items.update(item, items[item].marking(block, present))
}

/// Items without any marks: what the model reads.
pub open spec fn contents(items: Seq<InputItemView>) -> Seq<InputItemView> {
    Seq::new(items.len(), |i: int| items[i].content())
}

impl ContextView {
    /// What holds of every context: there are four slots, each filled slot's breakpoint stands
    /// on a block of an item, no two slots share a block, and there is no other breakpoint.
    pub open spec fn wf(self) -> bool {
        &&& self.slots.len() == CACHE_WRITE_SLOTS
        &&& forall|i: int|
            0 <= i < self.slots.len() && (#[trigger] self.slots[i]) is Some ==> self.stands(
                self.slots[i]->0,
            )
        &&& forall|i: int, j: int|
            0 <= i < j < self.slots.len() && (#[trigger] self.slots[i]) is Some && (
            #[trigger] self.slots[j]) is Some ==> !same_place(self.slots[i]->0, self.slots[j]->0)
        &&& self.accounted()
    }

    /// Whether a slot's breakpoint stands where the slot says.
    pub open spec fn stands(self, slot: SlotView) -> bool {
        &&& 0 <= slot.item < self.items.len()
        &&& self.items[slot.item].site(slot.block) == Some(true)
    }

    /// Whether every breakpoint in the items is one of the slots'.
    pub open spec fn accounted(self) -> bool {
        forall|item: int, block: int|
            0 <= item < self.items.len() && #[trigger] self.items[item].site(block) == Some(true)
                ==> exists|i: int|
                0 <= i < self.slots.len() && (#[trigger] self.slots[i]) is Some
                    && self.slots[i]->0.item == item && self.slots[i]->0.block == block
    }

    /// Whether this context extends an earlier one: the tools are the same, and what was said
    /// then is still said first.
    pub open spec fn extends(self, earlier: ContextView) -> bool {
        &&& self.tools == earlier.tools
        &&& contents(earlier.items).is_prefix_of(contents(self.items))
    }

    /// The context with one more item.
    pub open spec fn pushing(self, item: InputItemView) -> Self {
        ContextView { items: self.items.push(item), ..self }
    }

    /// Whether another slot marks a block.
    pub open spec fn marked_by_another(self, slot: BreakpointSlot, item: int, block: int) -> bool {
        exists|i: int|
            0 <= i < self.slots.len() && i != slot.place() && (#[trigger] self.slots[i]) is Some
                && self.slots[i]->0.item == item && self.slots[i]->0.block == block
    }

    /// The context with an empty slot put at a block.
    pub open spec fn putting(
        self,
        slot: BreakpointSlot,
        item: int,
        block: int,
        anchored: bool,
    ) -> Self {
        ContextView {
            items: marking(self.items, item, block, true),
            slots: self.slots.update(slot.place(), Some(SlotView { item, block, anchored })),
            ..self
        }
    }

    /// The context with a slot emptied and its mark cleared.
    pub open spec fn emptying(self, slot: BreakpointSlot) -> Self {
        let state = self.slots[slot.place()]->0;
        ContextView {
            items: marking(self.items, state.item, state.block, false),
            slots: self.slots.update(slot.place(), None),
            ..self
        }
    }

    /// What placing an empty slot at the end comes to.
    pub open spec fn placing(self, slot: BreakpointSlot, anchored: bool) -> Result<
        ContextView,
        BreakpointError,
    > {
        if self.slots[slot.place()] is Some {
            Err(BreakpointError::SlotAlreadyInUse(slot))
        } else {
            match tail(self.items) {
                None => Err(BreakpointError::NoBlockToMark),
                Some((item, block)) => if self.marked_by_another(slot, item, block) {
                    Err(BreakpointError::BlockAlreadyMarked)
                } else {
                    Ok(self.putting(slot, item, block, anchored))
                },
            }
        }
    }

    /// What rolling a slot to the end comes to.
    pub open spec fn rolling(self, slot: BreakpointSlot) -> Result<ContextView, BreakpointError> {
        match self.slots[slot.place()] {
            None => self.placing(slot, false),
            Some(state) => if state.anchored {
                Err(BreakpointError::SlotIsAnchored(slot))
            } else {
                match tail(self.items) {
                    None => Err(BreakpointError::NoBlockToMark),
                    Some((item, block)) => if item == state.item && block == state.block {
                        Ok(self)
                    } else if self.marked_by_another(slot, item, block) {
                        Err(BreakpointError::BlockAlreadyMarked)
                    } else {
                        Ok(self.emptying(slot).putting(slot, item, block, false))
                    },
                }
            },
        }
    }

    /// What clearing a slot comes to.
    pub open spec fn clearing(self, slot: BreakpointSlot) -> Result<ContextView, BreakpointError> {
        match self.slots[slot.place()] {
            None => Err(BreakpointError::SlotIsEmpty(slot)),
            Some(state) => if state.anchored {
                Err(BreakpointError::SlotIsAnchored(slot))
            } else {
                Ok(self.emptying(slot))
            },
        }
    }

    /// What anchoring a new developer message comes to.
    pub open spec fn anchoring(self, slot: BreakpointSlot, text: Seq<char>) -> Result<
        ContextView,
        BreakpointError,
    > {
        if self.slots[slot.place()] is Some {
            Err(BreakpointError::SlotAlreadyInUse(slot))
        } else {
            Ok(
                self.pushing(message_of(InputRole::Developer, text)).putting(
                    slot,
                    self.items.len() as int,
                    0,
                    true,
                ),
            )
        }
    }
}

/// Whether two slots stand on one block.
pub open spec fn same_place(a: SlotView, b: SlotView) -> bool {
    a.item == b.item && a.block == b.block
}

/// A message with content blocks.
pub open spec fn input_message(role: InputRole, blocks: Seq<InputBlockView>) -> InputItemView {
    InputItemView::Message(MessageView::Input { role, content: blocks })
}

/// A one-block message.
pub open spec fn message_of(role: InputRole, text: Seq<char>) -> InputItemView {
    input_message(role, seq![InputBlockView::Text { text, marked: false }])
}

/// An assistant message with content blocks.
pub open spec fn assistant_message(
    phase: AssistantPhase,
    blocks: Seq<OutputBlockView>,
) -> InputItemView {
    InputItemView::Message(MessageView::Assistant { phase, content: blocks })
}

/// The names of tools.
pub open spec fn names_of(tools: Seq<FunctionToolView>) -> Seq<Seq<char>> {
    Seq::new(tools.len(), |i: int| tools[i].name)
}

/// What allowing some names comes to: all of them, or the first that is not a tool's or was
/// given before.
pub open spec fn allowing(tools: Seq<Seq<char>>, names: Seq<Seq<char>>) -> Result<
    Seq<Seq<char>>,
    AllowedToolsErrorView,
>
    decreases names.len(),
{
    if names.len() == 0 {
        Ok(Seq::empty())
    } else {
        match allowing(tools, names.drop_last()) {
            Err(error) => Err(error),
            Ok(before) => if !tools.contains(names.last()) {
                Err(AllowedToolsErrorView::UnknownTool(names.last()))
            } else if before.contains(names.last()) {
                Err(AllowedToolsErrorView::DuplicateTool(names.last()))
            } else {
                Ok(before.push(names.last()))
            },
        }
    }
}

/// What a request to allow tools comes to. Nothing at all is refused.
pub open spec fn allowed_tools(
    tools: Seq<FunctionToolView>,
    mode: AllowedToolsMode,
    names: Seq<Seq<char>>,
) -> Result<AllowedToolsView, AllowedToolsErrorView> {
    if names.len() == 0 {
        Err(AllowedToolsErrorView::EmptyAllowedSet)
    } else {
        match allowing(names_of(tools), names) {
            Ok(names) => Ok(AllowedToolsView { mode, names }),
            Err(error) => Err(error),
        }
    }
}

/// Once allowing names has failed, the names after the failure do not change it.
proof fn a_refusal_stays(tools: Seq<Seq<char>>, names: Seq<Seq<char>>, n: int)
    requires
        0 <= n <= names.len(),
        allowing(tools, names.take(n)) is Err,
    ensures
        allowing(tools, names) == allowing(tools, names.take(n)),
    decreases names.len() - n,
{
    if n == names.len() {
        assert(names.take(n) =~= names);
    } else {
        assert(names.take(n + 1).drop_last() =~= names.take(n));
        a_refusal_stays(tools, names, n + 1);
    }
}

/// Allowed names are exactly the names asked for, and each is a tool's, none twice.
pub proof fn allowed_names_are_tools_and_distinct(tools: Seq<Seq<char>>, names: Seq<Seq<char>>)
    requires
        allowing(tools, names) is Ok,
    ensures
        allowing(tools, names) == Ok::<Seq<Seq<char>>, AllowedToolsErrorView>(names),
        forall|i: int| 0 <= i < names.len() ==> tools.contains(#[trigger] names[i]),
        names.no_duplicates(),
    decreases names.len(),
{
    if names.len() == 0 {
        assert(names =~= Seq::<Seq<char>>::empty());
    } else {
        let before = names.drop_last();
        allowed_names_are_tools_and_distinct(tools, before);
        assert(names =~= before.push(names.last()));
        assert forall|i: int| 0 <= i < names.len() implies tools.contains(#[trigger] names[i]) by {
            if i < before.len() {
                assert(before[i] == names[i]);
            }
        }
        assert forall|i: int, j: int|
            0 <= i < names.len() && 0 <= j < names.len() && i != j implies names[i]
            != names[j] by {
            if i < before.len() && j < before.len() {
                assert(before[i] == names[i] && before[j] == names[j]);
            } else if i < before.len() {
                assert(before[i] == names[i]);
                assert(before.contains(names[i]));
            } else {
                assert(before[j] == names[j]);
                assert(before.contains(names[j]));
            }
        }
    }
}

impl Context {
    /// A context over exactly these tools, in exactly this order.
    ///
    /// Order matters as much as content. Pass an empty vector for a conversation with no tools;
    /// the `tools` field is then omitted rather than sent empty.
    pub fn new(tools: Vec<FunctionTool>) -> (context: Self)
        ensures
            context@ == (ContextView {
                tools: views::list_view(tools@),
                items: Seq::empty(),
                slots: seq![None, None, None, None],
            }),
            context@.wf(),
    {
        let context = Self { tools, items: Vec::new(), slots: [None, None, None, None] };
        assert(context@.items =~= Seq::<InputItemView>::empty());
        assert(context@.slots =~= seq![None, None, None, None]);
        context
    }

    /// The frozen tool array. Read-only, and there is no setter.
    pub fn tools(&self) -> (tools: &[FunctionTool])
        ensures
            views::list_view(tools@) == self@.tools,
    {
        self.tools.as_slice()
    }

    /// The input items, in wire order.
    pub fn items(&self) -> (items: &[InputItem])
        ensures
            views::list_view(items@) == self@.items,
    {
        self.items.as_slice()
    }

    /// How many cache-write slots are filled, which is how many breakpoints the items carry.
    /// [`Request::new`](crate::request::Request::new) compares this against what the model and
    /// caching mode allow.
    pub fn breakpoint_count(&self) -> (n: usize)
        requires
            self@.wf(),
        ensures
            n == filled(self@.slots),
            n == total_marks(self@.items),
            n <= CACHE_WRITE_SLOTS,
    {
        let mut n: usize = 0;
        let mut i: usize = 0;
        let ghost all = self@.slots;
        assert(all.take(0) =~= Seq::<Option<SlotView>>::empty());
        while i < 4
            invariant
                i <= 4,
                n <= i,
                self@.slots.len() == 4,
                all == self@.slots,
                n == filled(all.take(i as int)),
            decreases 4 - i,
        {
            assert(all.take(i + 1).drop_last() =~= all.take(i as int));
            assert(all.take(i + 1).last() == views::option_view(self.slots@[i as int]));
            if self.slots[i].is_some() {
                n += 1;
            }
            i += 1;
        }
        proof {
            assert(all.take(4) =~= all);
            context_laws::the_slots_count_the_breakpoints(self@);
        }
        n
    }

    /// Restrict the callable set to these tools while leaving the array, and the cache,
    /// untouched.
    ///
    /// Every name is checked against the array, so a stale name surfaces here instead of as a
    /// 400.
    pub fn allow_tools(&self, mode: AllowedToolsMode, names: &[&str]) -> (outcome: Result<
        AllowedTools,
        AllowedToolsError,
    >)
        ensures
            views::result_view(outcome) == allowed_tools(
                self@.tools,
                mode,
                views::list_view(names@),
            ),
    {
        let ghost wanted = views::list_view(names@);
        let ghost known = names_of(self@.tools);
        if names.len() == 0 {
            return Err(AllowedToolsError::EmptyAllowedSet);
        }
        let mut allowed: Vec<String> = Vec::new();
        let mut i: usize = 0;
        proof {
            assert(wanted.take(0) =~= Seq::<Seq<char>>::empty());
            assert(views::list_view(allowed@) =~= Seq::<Seq<char>>::empty());
        }
        while i < names.len()
            invariant
                i <= names.len(),
                wanted == views::list_view(names@),
                known == names_of(self@.tools),
                names.len() > 0,
                allowing(known, wanted.take(i as int)) == Ok::<
                    Seq<Seq<char>>,
                    AllowedToolsErrorView,
                >(views::list_view(allowed@)),
            decreases names.len() - i,
        {
            let name: &str = names[i];
            proof {
                assert(wanted.take(i + 1).drop_last() =~= wanted.take(i as int));
                assert(wanted.take(i + 1).last() == name@);
            }
            if !self.has_tool(name) {
                proof {
                    a_refusal_stays(known, wanted, i + 1);
                }
                return Err(AllowedToolsError::UnknownTool(name.to_owned()));
            }
            if holds(&allowed, name) {
                proof {
                    a_refusal_stays(known, wanted, i + 1);
                }
                return Err(AllowedToolsError::DuplicateTool(name.to_owned()));
            }
            let ghost before = allowed@;
            allowed.push(name.to_owned());
            proof {
                assert(views::list_view(allowed@) =~= views::list_view(before).push(name@));
            }
            i += 1;
        }
        assert(wanted.take(i as int) =~= wanted);
        Ok(AllowedTools::new(mode, allowed))
    }

    fn has_tool(&self, name: &str) -> (r: bool)
        ensures
            r == names_of(self@.tools).contains(name@),
    {
        let mut i: usize = 0;
        while i < self.tools.len()
            invariant
                i <= self.tools.len(),
                forall|j: int| 0 <= j < i ==> (#[trigger] self.tools@[j])@.name != name@,
            decreases self.tools.len() - i,
        {
            if self.tools[i].is_named(name) {
                assert(names_of(self@.tools)[i as int] == name@);
                return true;
            }
            i += 1;
        }
        assert forall|j: int| 0 <= j < names_of(self@.tools).len() implies names_of(
            self@.tools,
        )[j] != name@ by {
            assert(self.tools@[j]@.name != name@);
        }
        false
    }
}

fn holds(names: &Vec<String>, name: &str) -> (r: bool)
    ensures
        r == views::list_view(names@).contains(name@),
{
    let mut i: usize = 0;
    while i < names.len()
        invariant
            i <= names.len(),
            forall|j: int| 0 <= j < i ==> (#[trigger] names@[j])@ != name@,
        decreases names.len() - i,
    {
        if text::same(names[i].as_str(), name) {
            assert(views::list_view(names@)[i as int] == name@);
            return true;
        }
        i += 1;
    }
    assert forall|j: int| 0 <= j < views::list_view(names@).len() implies views::list_view(
        names@,
    )[j] != name@ by {
        assert(names@[j]@ != name@);
    }
    false
}

// Marks, and what they leave alone.

/// Setting a site that is there leaves the last site where it was.
proof fn last_site_stays(sites: Seq<Option<bool>>, block: int, present: bool)
    requires
        0 <= block < sites.len(),
        sites[block] is Some,
    ensures
        content::last_site(sites.update(block, Some(present))) == content::last_site(sites),
    decreases sites.len(),
{
    let after = sites.update(block, Some(present));
    if block < sites.len() - 1 {
        assert(after.last() == sites.last());
        if sites.last() is None {
            assert(after.drop_last() =~= sites.drop_last().update(block, Some(present)));
            last_site_stays(sites.drop_last(), block, present);
        }
    } else {
        assert(after.last() == Some(present));
    }
}

/// The last site is one.
proof fn last_site_is_a_site(sites: Seq<Option<bool>>)
    ensures
        match content::last_site(sites) {
            Some(block) => block < sites.len() && sites[block as int] is Some,
            None => true,
        },
    decreases sites.len(),
{
    if sites.len() > 0 && sites.last() is None {
        last_site_is_a_site(sites.drop_last());
        match content::last_site(sites.drop_last()) {
            Some(block) => {
                assert(sites.drop_last()[block as int] == sites[block as int]);
            },
            None => {},
        }
    }
}

/// The tail is a block that can carry a breakpoint.
pub proof fn the_tail_is_a_site(items: Seq<InputItemView>)
    ensures
        match tail(items) {
            Some((item, block)) => 0 <= item < items.len() && items[item].site(block) is Some,
            None => true,
        },
    decreases items.len(),
{
    if items.len() > 0 {
        last_site_is_a_site(items.last().sites());
        if content::last_site(items.last().sites()) is None {
            the_tail_is_a_site(items.drop_last());
            match tail(items.drop_last()) {
                Some((item, block)) => {
                    assert(items.drop_last()[item] == items[item]);
                },
                None => {},
            }
        }
    }
}

/// A mark changes one site, no content, and not where the tail is.
pub proof fn a_mark_changes_one_site(
    items: Seq<InputItemView>,
    item: int,
    block: int,
    present: bool,
)
    requires
        0 <= item < items.len(),
        items[item].site(block) is Some,
    ensures
        forall|i: int, b: int|
            0 <= i < items.len() ==> #[trigger] marking(items, item, block, present)[i].site(b)
                == if i == item && b == block {
                Some(present)
            } else {
                items[i].site(b)
            },
        contents(marking(items, item, block, present)) == contents(items),
        tail(marking(items, item, block, present)) == tail(items),
{
    let after = marking(items, item, block, present);
    content::marking_changes_one_site(items[item], block, present);
    assert forall|i: int, b: int| 0 <= i < items.len() implies #[trigger] after[i].site(b)
        == if i == item && b == block {
        Some(present)
    } else {
        items[i].site(b)
    } by {
        if i == item {
            assert(after[i].sites() == items[i].sites().update(block, Some(present)));
        }
    }
    assert(contents(after) =~= contents(items));
    a_mark_keeps_the_tail(items, item, block, present);
}

proof fn a_mark_keeps_the_tail(items: Seq<InputItemView>, item: int, block: int, present: bool)
    requires
        0 <= item < items.len(),
        items[item].site(block) is Some,
    ensures
        tail(marking(items, item, block, present)) == tail(items),
    decreases items.len(),
{
    let after = marking(items, item, block, present);
    if item == items.len() - 1 {
        content::marking_changes_one_site(items[item], block, present);
        last_site_stays(items[item].sites(), block, present);
        assert(after.drop_last() =~= items.drop_last());
    } else {
        assert(after.last() == items.last());
        assert(after.drop_last() =~= marking(items.drop_last(), item, block, present));
        a_mark_keeps_the_tail(items.drop_last(), item, block, present);
    }
}

impl ContextView {
    /// Appending an unmarked item keeps a context well formed and extends it.
    pub proof fn pushing_keeps(self, item: InputItemView)
        requires
            self.wf(),
            forall|b: int| #[trigger] item.site(b) != Some(true),
        ensures
            self.pushing(item).wf(),
            self.pushing(item).extends(self),
    {
        let next = self.pushing(item);
        assert forall|i: int| 0 <= i < next.slots.len() && (
        #[trigger] next.slots[i]) is Some implies next.stands(next.slots[i]->0) by {
            assert(self.stands(self.slots[i]->0));
        }
        assert(contents(next.items) =~= contents(self.items).push(item.content()));
        assert forall|n: int, block: int|
            0 <= n < next.items.len() && #[trigger] next.items[n].site(block) == Some(
                true,
            ) implies exists|i: int|
            0 <= i < next.slots.len() && (#[trigger] next.slots[i]) is Some
                && next.slots[i]->0.item == n && next.slots[i]->0.block == block by {
            assert(n < self.items.len());
            assert(self.items[n].site(block) == Some(true));
            let i = choose|i: int|
                0 <= i < self.slots.len() && (#[trigger] self.slots[i]) is Some
                    && self.slots[i]->0.item == n && self.slots[i]->0.block == block;
            assert(next.slots[i] is Some);
        }
    }

    /// Putting an empty slot at a free site keeps a context well formed and saying the same.
    pub proof fn putting_keeps(self, slot: BreakpointSlot, item: int, block: int, anchored: bool)
        requires
            self.wf(),
            self.slots[slot.place()] is None,
            0 <= item < self.items.len(),
            self.items[item].site(block) is Some,
            !self.marked_by_another(slot, item, block),
        ensures
            self.putting(slot, item, block, anchored).wf(),
            self.putting(slot, item, block, anchored).extends(self),
    {
        let next = self.putting(slot, item, block, anchored);
        let k = slot.place();
        a_mark_changes_one_site(self.items, item, block, true);
        assert forall|i: int| 0 <= i < next.slots.len() && (
        #[trigger] next.slots[i]) is Some implies next.stands(next.slots[i]->0) by {
            if i != k {
                assert(self.slots[i] is Some);
                assert(self.stands(self.slots[i]->0));
                let at = self.slots[i]->0;
                assert(next.items[at.item].site(at.block) == Some(true));
            } else {
                assert(next.items[item].site(block) == Some(true));
            }
        }
        assert forall|i: int, j: int|
            0 <= i < j < next.slots.len() && (#[trigger] next.slots[i]) is Some && (
            #[trigger] next.slots[j]) is Some implies !same_place(
            next.slots[i]->0,
            next.slots[j]->0,
        ) by {
            if i != k && j != k {
                assert(self.slots[i] is Some && self.slots[j] is Some);
            } else if i == k {
                assert(self.slots[j] is Some);
            } else {
                assert(self.slots[i] is Some);
            }
        }
        assert forall|n: int, b: int|
            0 <= n < next.items.len() && #[trigger] next.items[n].site(b) == Some(
                true,
            ) implies exists|i: int|
            0 <= i < next.slots.len() && (#[trigger] next.slots[i]) is Some
                && next.slots[i]->0.item == n && next.slots[i]->0.block == b by {
            if n == item && b == block {
                assert(next.slots[k] is Some);
            } else {
                assert(self.items[n].site(b) == Some(true));
                let i = choose|i: int|
                    0 <= i < self.slots.len() && (#[trigger] self.slots[i]) is Some
                        && self.slots[i]->0.item == n && self.slots[i]->0.block == b;
                assert(i != k);
                assert(next.slots[i] is Some);
            }
        }
    }

    /// Emptying a slot keeps a context well formed and saying the same.
    pub proof fn emptying_keeps(self, slot: BreakpointSlot)
        requires
            self.wf(),
            self.slots[slot.place()] is Some,
        ensures
            self.emptying(slot).wf(),
            self.emptying(slot).extends(self),
            tail(self.emptying(slot).items) == tail(self.items),
    {
        let next = self.emptying(slot);
        let k = slot.place();
        let state = self.slots[k]->0;
        assert(self.stands(state));
        a_mark_changes_one_site(self.items, state.item, state.block, false);
        assert forall|i: int| 0 <= i < next.slots.len() && (
        #[trigger] next.slots[i]) is Some implies next.stands(next.slots[i]->0) by {
            assert(i != k);
            assert(self.slots[i] is Some);
            assert(self.stands(self.slots[i]->0));
            let at = self.slots[i]->0;
            assert(!same_place(at, state)) by {
                assert(self.slots[k] is Some);
            }
            assert(next.items[at.item].site(at.block) == Some(true));
        }
        assert forall|i: int, j: int|
            0 <= i < j < next.slots.len() && (#[trigger] next.slots[i]) is Some && (
            #[trigger] next.slots[j]) is Some implies !same_place(
            next.slots[i]->0,
            next.slots[j]->0,
        ) by {
            assert(self.slots[i] is Some && self.slots[j] is Some);
        }
        assert forall|n: int, b: int|
            0 <= n < next.items.len() && #[trigger] next.items[n].site(b) == Some(
                true,
            ) implies exists|i: int|
            0 <= i < next.slots.len() && (#[trigger] next.slots[i]) is Some
                && next.slots[i]->0.item == n && next.slots[i]->0.block == b by {
            assert(self.items[n].site(b) == Some(true));
            let i = choose|i: int|
                0 <= i < self.slots.len() && (#[trigger] self.slots[i]) is Some
                    && self.slots[i]->0.item == n && self.slots[i]->0.block == b;
            assert(i != k);
            assert(next.slots[i] is Some);
        }
    }

    /// Rolling keeps a context well formed and saying the same.
    pub proof fn rolling_keeps(self, slot: BreakpointSlot)
        requires
            self.wf(),
        ensures
            match self.rolling(slot) {
                Ok(next) => next.wf() && next.extends(self),
                Err(_) => true,
            },
    {
        the_tail_is_a_site(self.items);
        match self.slots[slot.place()] {
            None => {
                self.placing_keeps(slot, false);
            },
            Some(state) => {
                if self.rolling(slot) is Ok {
                    if let Some((item, block)) = tail(self.items) {
                        if !(item == state.item && block == state.block) {
                            let bare = self.emptying(slot);
                            self.emptying_keeps(slot);
                            assert(self.stands(state));
                            a_mark_changes_one_site(self.items, state.item, state.block, false);
                            assert(bare.items[item].site(block) == self.items[item].site(block));
                            assert(!bare.marked_by_another(slot, item, block)) by {
                                if bare.marked_by_another(slot, item, block) {
                                    let i = choose|i: int|
                                        0 <= i < bare.slots.len() && i != slot.place() && (
                                        #[trigger] bare.slots[i]) is Some
                                            && bare.slots[i]->0.item == item
                                            && bare.slots[i]->0.block == block;
                                    assert(self.slots[i] is Some);
                                }
                            }
                            bare.putting_keeps(slot, item, block, false);
                        }
                    }
                }
            },
        }
    }

    /// Placing keeps a context well formed and saying the same.
    pub proof fn placing_keeps(self, slot: BreakpointSlot, anchored: bool)
        requires
            self.wf(),
        ensures
            match self.placing(slot, anchored) {
                Ok(next) => next.wf() && next.extends(self),
                Err(_) => true,
            },
    {
        the_tail_is_a_site(self.items);
        if self.placing(slot, anchored) is Ok {
            if let Some((item, block)) = tail(self.items) {
                self.putting_keeps(slot, item, block, anchored);
            }
        }
    }
}

impl Context {
    // Appending.

    /// Appends an item without its marks.
    fn push(&mut self, item: InputItem)
        requires
            old(self)@.wf(),
        ensures
            final(self)@ == old(self)@.pushing(item@.content()),
            final(self)@.wf(),
            final(self)@.extends(old(self)@),
    {
        let ghost before = self@;
        let ghost items = self.items@;
        let bare = content::unmarked(item);
        self.items.push(bare);
        proof {
            assert(views::list_view(self.items@) =~= views::list_view(items).push(bare@));
            content::content_is_unmarked(item@);
            before.pushing_keeps(bare@);
        }
    }

    /// Append a developer message. Developer instructions outrank user input. The blocks come in
    /// without their marks.
    pub fn push_developer(&mut self, blocks: Vec<InputBlock>)
        requires
            old(self)@.wf(),
        ensures
            final(self)@ == old(self)@.pushing(
                input_message(InputRole::Developer, views::list_view(blocks@)).content(),
            ),
            final(self)@.wf(),
            final(self)@.extends(old(self)@),
    {
        self.push_input(InputRole::Developer, blocks);
    }

    /// Append a one-block developer message.
    pub fn push_developer_text(&mut self, text: &str)
        requires
            old(self)@.wf(),
        ensures
            final(self)@ == old(self)@.pushing(message_of(InputRole::Developer, text@)),
            final(self)@.wf(),
            final(self)@.extends(old(self)@),
    {
        let block = InputBlock::text(text);
        let blocks = vec![block];
        proof {
            assert(views::list_view(blocks@) =~= seq![block@]);
            content::an_unmarked_item_is_its_content(message_of(InputRole::Developer, text@));
        }
        self.push_developer(blocks);
    }

    /// Append a user message. The blocks come in without their marks.
    pub fn push_user(&mut self, blocks: Vec<InputBlock>)
        requires
            old(self)@.wf(),
        ensures
            final(self)@ == old(self)@.pushing(
                input_message(InputRole::User, views::list_view(blocks@)).content(),
            ),
            final(self)@.wf(),
            final(self)@.extends(old(self)@),
    {
        self.push_input(InputRole::User, blocks);
    }

    /// Append a one-block user message.
    pub fn push_user_text(&mut self, text: &str)
        requires
            old(self)@.wf(),
        ensures
            final(self)@ == old(self)@.pushing(message_of(InputRole::User, text@)),
            final(self)@.wf(),
            final(self)@.extends(old(self)@),
    {
        let block = InputBlock::text(text);
        let blocks = vec![block];
        proof {
            assert(views::list_view(blocks@) =~= seq![block@]);
            content::an_unmarked_item_is_its_content(message_of(InputRole::User, text@));
        }
        self.push_user(blocks);
    }

    /// Append a message from either input-vocabulary role, chosen at runtime. The blocks come in
    /// without their marks: a breakpoint is set through a slot.
    pub fn push_input(&mut self, role: InputRole, blocks: Vec<InputBlock>)
        requires
            old(self)@.wf(),
        ensures
            final(self)@ == old(self)@.pushing(
                input_message(role, views::list_view(blocks@)).content(),
            ),
            final(self)@.wf(),
            final(self)@.extends(old(self)@),
    {
        self.push(InputItem::Message(Message::Input { role, content: blocks }));
    }

    /// Append an assistant message, labelled commentary or final answer.
    ///
    /// The blocks are the *output* vocabulary, because that is what OpenAI accepts under this
    /// role. The label is required because OpenAI asks that it be preserved on every replayed
    /// assistant message. The blocks come in without their marks.
    pub fn push_assistant(&mut self, phase: AssistantPhase, blocks: Vec<OutputBlock>)
        requires
            old(self)@.wf(),
        ensures
            final(self)@ == old(self)@.pushing(
                assistant_message(phase, views::list_view(blocks@)).content(),
            ),
            final(self)@.wf(),
            final(self)@.extends(old(self)@),
    {
        self.push(InputItem::Message(Message::Assistant { phase, content: blocks }));
    }

    /// Append one complete assistant item with its own phase and blocks, without their marks.
    pub fn push_assistant_item(&mut self, phase: AssistantPhase, blocks: Vec<OutputBlock>)
        requires
            old(self)@.wf(),
        ensures
            final(self)@ == old(self)@.pushing(
                assistant_message(phase, views::list_view(blocks@)).content(),
            ),
            final(self)@.wf(),
            final(self)@.extends(old(self)@),
    {
        self.push_assistant(phase, blocks);
    }

    /// Append a one-block assistant message holding what the model said.
    pub fn push_assistant_text(&mut self, phase: AssistantPhase, text: &str)
        requires
            old(self)@.wf(),
        ensures
            final(self)@ == old(self)@.pushing(assistant_message(phase, seq![OutputBlockView::Text { text: text@, marked: false }])),
            final(self)@.wf(),
            final(self)@.extends(old(self)@),
    {
        let block = OutputBlock::text(text);
        let blocks = vec![block];
        proof {
            assert(views::list_view(blocks@) =~= seq![block@]);
            content::an_unmarked_item_is_its_content(assistant_message(phase, seq![block@]));
        }
        self.push_assistant(phase, blocks);
    }

    /// Append a one-block assistant message holding a refusal the model gave.
    pub fn push_assistant_refusal(&mut self, phase: AssistantPhase, refusal: &str)
        requires
            old(self)@.wf(),
        ensures
            final(self)@ == old(self)@.pushing(assistant_message(phase, seq![OutputBlockView::Refusal { refusal: refusal@ }])),
            final(self)@.wf(),
            final(self)@.extends(old(self)@),
    {
        let block = OutputBlock::refusal(refusal);
        let blocks = vec![block];
        proof {
            assert(views::list_view(blocks@) =~= seq![block@]);
            content::an_unmarked_item_is_its_content(assistant_message(phase, seq![block@]));
        }
        self.push_assistant(phase, blocks);
    }

    /// Append a function call the model made, with its arguments exactly as the model emitted
    /// them.
    pub fn push_function_call(&mut self, call_id: &str, name: &str, arguments: &str)
        requires
            old(self)@.wf(),
        ensures
            final(self)@ == old(self)@.pushing(InputItemView::FunctionCall(
                FunctionCallView { call_id: call_id@, name: name@, arguments: arguments@ },
            )),
            final(self)@.wf(),
            final(self)@.extends(old(self)@),
    {
        self.push(
            InputItem::FunctionCall(
                FunctionCall {
                    call_id: call_id.to_owned(),
                    name: name.to_owned(),
                    arguments: arguments.to_owned(),
                },
            ),
        );
    }

    /// Append a function result as a single string. It holds no block, so no breakpoint can land
    /// on it.
    pub fn push_function_call_output(&mut self, call_id: &str, output: &str)
        requires
            old(self)@.wf(),
        ensures
            final(self)@ == old(self)@.pushing(InputItemView::FunctionCallOutput(
                FunctionCallOutputView {
                    call_id: call_id@,
                    output: FunctionOutputView::Text(output@),
                },
            )),
            final(self)@.wf(),
            final(self)@.extends(old(self)@),
    {
        self.push(
            InputItem::FunctionCallOutput(
                FunctionCallOutput {
                    call_id: call_id.to_owned(),
                    output: FunctionOutput::Text(output.to_owned()),
                },
            ),
        );
    }

    /// Append a function result as content blocks, so a breakpoint can mark its end. The blocks
    /// come in without their marks.
    pub fn push_function_call_output_blocks(&mut self, call_id: &str, blocks: Vec<InputBlock>)
        requires
            old(self)@.wf(),
        ensures
            final(self)@ == old(self)@.pushing(
                InputItemView::FunctionCallOutput(
                    FunctionCallOutputView {
                        call_id: call_id@,
                        output: FunctionOutputView::Blocks(views::list_view(blocks@)),
                    },
                ).content(),
            ),
            final(self)@.wf(),
            final(self)@.extends(old(self)@),
    {
        self.push(
            InputItem::FunctionCallOutput(
                FunctionCallOutput {
                    call_id: call_id.to_owned(),
                    output: FunctionOutput::Blocks(blocks),
                },
            ),
        );
    }

    /// Append a reasoning item from an earlier response. The content is opaque; this replays it.
    pub fn push_reasoning(&mut self, id: &str, encrypted_content: &str)
        requires
            old(self)@.wf(),
        ensures
            final(self)@ == old(self)@.pushing(InputItemView::Reasoning(
                ReplayedReasoningView { id: id@, encrypted_content: encrypted_content@ },
            )),
            final(self)@.wf(),
            final(self)@.extends(old(self)@),
    {
        self.push(
            InputItem::Reasoning(
                ReplayedReasoning {
                    id: id.to_owned(),
                    encrypted_content: encrypted_content.to_owned(),
                },
            ),
        );
    }

    // Breakpoint slots.

    /// Append a developer message whose text ends a reusable prefix, and anchor `slot` there for
    /// good.
    ///
    /// The top-level `instructions` field **cannot** carry a breakpoint, so instructions you
    /// intend to reuse have to live in an `input_text` block inside a developer message.
    pub fn push_anchored_developer_text(&mut self, slot: BreakpointSlot, text: &str) -> (outcome: Result<(), BreakpointError>)
        requires
            old(self)@.wf(),
        ensures
            match outcome {
                Ok(()) => old(self)@.anchoring(slot, text@) == Ok::<ContextView, BreakpointError>(final(self)@),
                Err(error) => old(self)@.anchoring(slot, text@) == Err::<ContextView, BreakpointError>(error)
                    && final(self)@ == old(self)@,
            },
            final(self)@.wf(),
            final(self)@.extends(old(self)@),
    {
        let ghost before = self@;
        if self.slots[slot.index()].is_some() {
            assert(before.slots[slot.place()] == views::option_view(self.slots@[slot.place()]));
            proof {
                before.extends_itself();
            }
            return Err(BreakpointError::SlotAlreadyInUse(slot));
        }
        assert(before.slots[slot.place()] == views::option_view(self.slots@[slot.place()]));
        let item: usize = self.items.len();
        self.push_developer_text(text);
        let ghost middle = self@;
        proof {
            assert(middle.items[item as int] == message_of(InputRole::Developer, text@));
            assert(middle.items[item as int].sites() =~= seq![Some(false)]);
            assert(!middle.marked_by_another(slot, item as int, 0)) by {
                if middle.marked_by_another(slot, item as int, 0) {
                    let i = choose|i: int|
                        0 <= i < middle.slots.len() && i != slot.place() && (
                        #[trigger] middle.slots[i]) is Some && middle.slots[i]->0.item == item
                            && middle.slots[i]->0.block == 0;
                    assert(before.slots[i] is Some);
                    assert(before.stands(before.slots[i]->0));
                }
            }
            middle.putting_keeps(slot, item as int, 0, true);
            middle.extends_through(
                before,
                middle.putting(slot, item as int, 0, true),
            );
        }
        self.put(slot, Position { item, block: 0 }, true);
        Ok(())
    }

    /// Anchor `slot` at the end of the latest item, permanently. The slot will refuse to move or
    /// clear afterwards.
    pub fn anchor_breakpoint(&mut self, slot: BreakpointSlot) -> (outcome: Result<(), BreakpointError>)
        requires
            old(self)@.wf(),
        ensures
            match outcome {
                Ok(()) => old(self)@.placing(slot, true) == Ok::<ContextView, BreakpointError>(final(self)@),
                Err(error) => old(self)@.placing(slot, true) == Err::<ContextView, BreakpointError>(error)
                    && final(self)@ == old(self)@,
            },
            final(self)@.wf(),
            final(self)@.extends(old(self)@),
    {
        self.place(slot, true)
    }

    /// Put `slot` at the end of the latest item, leaving it movable.
    ///
    /// A rolling slot follows the growing conversation. Rolling it clears the old mark and sets
    /// a new one; the content itself is never touched.
    pub fn roll_breakpoint(&mut self, slot: BreakpointSlot) -> (outcome: Result<(), BreakpointError>)
        requires
            old(self)@.wf(),
        ensures
            match outcome {
                Ok(()) => old(self)@.rolling(slot) == Ok::<ContextView, BreakpointError>(final(self)@),
                Err(error) => old(self)@.rolling(slot) == Err::<ContextView, BreakpointError>(error)
                    && final(self)@ == old(self)@,
            },
            final(self)@.wf(),
            final(self)@.extends(old(self)@),
    {
        let ghost before = self@;
        proof {
            before.rolling_keeps(slot);
            before.extends_itself();
            assert(before.slots[slot.place()] == views::option_view(self.slots@[slot.place()]));
        }
        match self.slots[slot.index()] {
            None => self.place(slot, false),
            Some(state) => {
                if state.anchored {
                    return Err(BreakpointError::SlotIsAnchored(slot));
                }
                match self.tail_position() {
                    None => Err(BreakpointError::NoBlockToMark),
                    Some(target) => {
                        if target.item == state.position.item && target.block
                            == state.position.block {
                            return Ok(());
                        }
                        if self.marked_by_another(slot, target) {
                            return Err(BreakpointError::BlockAlreadyMarked);
                        }
                        proof {
                            the_tail_is_a_site(before.items);
                            let held = before.slots[slot.place()]->0;
                            assert(before.stands(held));
                            a_mark_changes_one_site(before.items, held.item, held.block, false);
                            let bare = before.emptying(slot);
                            assert(bare.items[target.item as int].site(target.block as int)
                                == before.items[target.item as int].site(target.block as int));
                        }
                        self.empty(slot, state.position);
                        self.put(slot, target, false);
                        Ok(())
                    },
                }
            },
        }
    }

    /// Empty a rolling slot and clear its mark. Anchored slots refuse.
    pub fn clear_breakpoint(&mut self, slot: BreakpointSlot) -> (outcome: Result<(), BreakpointError>)
        requires
            old(self)@.wf(),
        ensures
            match outcome {
                Ok(()) => old(self)@.clearing(slot) == Ok::<ContextView, BreakpointError>(final(self)@),
                Err(error) => old(self)@.clearing(slot) == Err::<ContextView, BreakpointError>(error)
                    && final(self)@ == old(self)@,
            },
            final(self)@.wf(),
            final(self)@.extends(old(self)@),
    {
        let ghost before = self@;
        proof {
            before.extends_itself();
            assert(before.slots[slot.place()] == views::option_view(self.slots@[slot.place()]));
        }
        match self.slots[slot.index()] {
            None => Err(BreakpointError::SlotIsEmpty(slot)),
            Some(state) => {
                if state.anchored {
                    return Err(BreakpointError::SlotIsAnchored(slot));
                }
                proof {
                    before.emptying_keeps(slot);
                    assert(before.stands(before.slots[slot.place()]->0));
                }
                self.empty(slot, state.position);
                Ok(())
            },
        }
    }

    /// Whether `slot` is anchored, and so frozen for this context's life.
    pub fn is_anchored(&self, slot: BreakpointSlot) -> (r: bool)
        requires
            self@.wf(),
        ensures
            r == match self@.slots[slot.place()] {
                Some(state) => state.anchored,
                None => false,
            },
    {
        assert(self@.slots[slot.place()] == views::option_view(self.slots@[slot.place()]));
        match self.slots[slot.index()] {
            Some(state) => state.anchored,
            None => false,
        }
    }

    // Internals.

    fn place(&mut self, slot: BreakpointSlot, anchored: bool) -> (outcome: Result<
        (),
        BreakpointError,
    >)
        requires
            old(self)@.wf(),
        ensures
            match outcome {
                Ok(()) => old(self)@.placing(slot, anchored) == Ok::<
                    ContextView,
                    BreakpointError,
                >(final(self)@),
                Err(error) => old(self)@.placing(slot, anchored) == Err::<
                    ContextView,
                    BreakpointError,
                >(error) && final(self)@ == old(self)@,
            },
            final(self)@.wf(),
            final(self)@.extends(old(self)@),
    {
        let ghost before = self@;
        proof {
            before.placing_keeps(slot, anchored);
            before.extends_itself();
            assert(before.slots[slot.place()] == views::option_view(self.slots@[slot.place()]));
        }
        if self.slots[slot.index()].is_some() {
            return Err(BreakpointError::SlotAlreadyInUse(slot));
        }
        match self.tail_position() {
            None => Err(BreakpointError::NoBlockToMark),
            Some(position) => {
                if self.marked_by_another(slot, position) {
                    return Err(BreakpointError::BlockAlreadyMarked);
                }
                proof {
                    the_tail_is_a_site(before.items);
                }
                self.put(slot, position, anchored);
                Ok(())
            },
        }
    }

    fn put(&mut self, slot: BreakpointSlot, position: Position, anchored: bool)
        requires
            old(self)@.slots.len() == CACHE_WRITE_SLOTS,
            position.item < old(self)@.items.len(),
            old(self)@.items[position.item as int].site(position.block as int) is Some,
        ensures
            final(self)@ == old(self)@.putting(
                slot,
                position.item as int,
                position.block as int,
                anchored,
            ),
    {
        let ghost before = self@;
        self.mark(position, true);
        let ghost slots = self.slots@;
        let state = SlotState { position, anchored };
        self.slots[slot.index()] = Some(state);
        proof {
            assert(self.slots@ == slots.update(slot.place(), Some(state)));
            assert(slots_view(self.slots@) =~= slots_view(slots).update(
                slot.place(),
                Some(state@),
            ));
        }
    }

    fn empty(&mut self, slot: BreakpointSlot, position: Position)
        requires
            old(self)@.slots.len() == CACHE_WRITE_SLOTS,
            old(self)@.slots[slot.place()] is Some,
            old(self)@.slots[slot.place()]->0.item == position.item,
            old(self)@.slots[slot.place()]->0.block == position.block,
            position.item < old(self)@.items.len(),
            old(self)@.items[position.item as int].site(position.block as int) is Some,
        ensures
            final(self)@ == old(self)@.emptying(slot),
    {
        let ghost before = self@;
        self.mark(position, false);
        let ghost slots = self.slots@;
        self.slots[slot.index()] = None;
        proof {
            assert(self.slots@ == slots.update(slot.place(), None));
            assert(slots_view(self.slots@) =~= slots_view(slots).update(slot.place(), None));
        }
    }

    /// The last block, of the last item, that can carry a breakpoint.
    fn tail_position(&self) -> (position: Option<Position>)
        ensures
            match position {
                Some(position) => tail(self@.items) == Some(
                    (position.item as int, position.block as int),
                ),
                None => tail(self@.items) is None,
            },
    {
        let ghost all = self@.items;
        let mut i: usize = self.items.len();
        assert(all.take(i as int) =~= all);
        while i > 0
            invariant
                i <= self.items.len(),
                all == self@.items,
                tail(all.take(i as int)) == tail(all),
            decreases i,
        {
            assert(all.take(i as int).last() == self.items@[i - 1]@);
            if let Some(block) = self.items[i - 1].last_breakpoint_site() {
                return Some(Position { item: i - 1, block });
            }
            assert(all.take(i as int).drop_last() =~= all.take(i - 1));
            i -= 1;
        }
        None
    }

    fn marked_by_another(&self, slot: BreakpointSlot, position: Position) -> (r: bool)
        requires
            self@.slots.len() == CACHE_WRITE_SLOTS,
        ensures
            r == self@.marked_by_another(slot, position.item as int, position.block as int),
    {
        let mut i: usize = 0;
        while i < 4
            invariant
                i <= 4,
                self@.slots.len() == 4,
                forall|j: int|
                    0 <= j < i && j != slot.place() && (#[trigger] self@.slots[j]) is Some ==> !(
                    self@.slots[j]->0.item == position.item && self@.slots[j]->0.block
                        == position.block),
            decreases 4 - i,
        {
            assert(self@.slots[i as int] == views::option_view(self.slots@[i as int]));
            if i != slot.index() {
                if let Some(other) = self.slots[i] {
                    if other.position.item == position.item && other.position.block
                        == position.block {
                        assert(self@.slots[i as int] is Some);
                        return true;
                    }
                }
            }
            i += 1;
        }
        false
    }

    fn mark(&mut self, position: Position, present: bool)
        requires
            position.item < old(self)@.items.len(),
            old(self)@.items[position.item as int].site(position.block as int) is Some,
        ensures
            final(self)@ == (ContextView {
                items: marking(
                    old(self)@.items,
                    position.item as int,
                    position.block as int,
                    present,
                ),
                ..old(self)@
            }),
    {
        let ghost before = self.items@;
        let item = &mut self.items[position.item];
        let site = item.breakpoint_site_mut(position.block);
        if let Some(site) = site {
            *site = if present {
                Some(PromptCacheBreakpoint::explicit())
            } else {
                None
            };
        }
        proof {
            assert(views::list_view(self.items@) =~= marking(
                views::list_view(before),
                position.item as int,
                position.block as int,
                present,
            ));
        }
    }
}

impl ContextView {
    /// Every context extends itself.
    pub proof fn extends_itself(self)
        ensures
            self.extends(self),
    {
    }

    /// What extends an extension extends the first.
    pub proof fn extends_through(self, earlier: ContextView, later: ContextView)
        requires
            self.extends(earlier),
            later.extends(self),
        ensures
            later.extends(earlier),
    {
        let a = contents(earlier.items);
        let b = contents(self.items);
        let c = contents(later.items);
        assert(a =~= c.take(a.len() as int)) by {
            assert forall|i: int| 0 <= i < a.len() implies a[i] == c[i] by {
                assert(a[i] == b.take(a.len() as int)[i]);
                assert(b[i] == c.take(b.len() as int)[i]);
            }
        }
    }
}

} // verus!
