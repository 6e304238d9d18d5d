//! What holds of streams as a whole.
use vstd::prelude::*;

use crate::ordered;
use crate::ordered::Ranked;
use crate::settle;
use crate::items::OutputItemView;
use crate::settle::{
    PartDisagreementView, SettleError, SettleErrorView, Settling, SettlingView,
};
use crate::settled::{OutcomeView, Settled};
use crate::stream;
use crate::stream::{PartBoundary, PartKey, StreamEventView, TextStream};
use crate::values::HostedTool;

verus! {

/// What a stream holds after a sequence of events.
pub open spec fn consumed(events: Seq<StreamEventView>) -> SettlingView
    decreases events.len(),
{
    if events.len() == 0 {
        SettlingView::empty()
    } else {
        consumed(events.drop_last()).after(events.last())
    }
}

/// Whether the event at a place is the first terminal one.
pub open spec fn ends_at(events: Seq<StreamEventView>, i: int) -> bool {
    &&& 0 <= i < events.len()
    &&& events[i].terminal()
    &&& forall|j: int| 0 <= j < i ==> !(#[trigger] events[j]).terminal()
}

/// A stream can be settled exactly when a terminal event was among its events, and it is
/// the first of them that it ended with.
pub proof fn a_stream_settles_exactly_when_it_ends(events: Seq<StreamEventView>)
    ensures
        match consumed(events).terminal {
            Some(ending) => exists|i: int| #[trigger] ends_at(events, i) && events[i] == ending,
            None => forall|i: int| 0 <= i < events.len() ==> !(#[trigger] events[i]).terminal(),
        },
    decreases events.len(),
{
    if events.len() > 0 {
        let before = events.drop_last();
        a_stream_settles_exactly_when_it_ends(before);
        match consumed(before).terminal {
            Some(ending) => {
                let i = choose|i: int| #[trigger] ends_at(before, i) && before[i] == ending;
                assert(events[i] == before[i]);
                assert forall|j: int| 0 <= j < i implies !(#[trigger] events[j]).terminal() by {
                    assert(events[j] == before[j]);
                }
                assert(ends_at(events, i));
            },
            None => {
                assert forall|j: int| 0 <= j < before.len() implies !(
                #[trigger] events[j]).terminal() by {
                    assert(events[j] == before[j]);
                }
                if events.last().terminal() {
                    assert(ends_at(events, events.len() - 1));
                } else {
                    assert forall|j: int| 0 <= j < events.len() implies !(
                    #[trigger] events[j]).terminal() by {
                        if j == events.len() - 1 {
                            assert(events[j] == events.last());
                        }
                    }
                }
            },
        }
    }
}

/// Every event is counted, whatever it is.
pub proof fn every_event_is_counted(events: Seq<StreamEventView>)
    ensures
        consumed(events).events == events.len(),
    decreases events.len(),
{
    if events.len() > 0 {
        every_event_is_counted(events.drop_last());
    }
}

/// A second terminal event overwrites nothing: the first one is what ended the response.
pub proof fn the_first_terminal_event_stands(before: SettlingView, event: StreamEventView)
    requires
        before.terminal is Some,
        event.terminal(),
    ensures
        before.after(event) == (SettlingView { events: before.events + 1, ..before }),
{
}

/// An event this crate does not model changes nothing but the count.
pub proof fn an_unmodeled_event_only_counts(before: SettlingView, event: StreamEventView)
    requires
        event is Unmodeled,
    ensures
        before.after(event) == (SettlingView { events: before.events + 1, ..before }),
{
}

/// Whether an event carries text of a stream.
pub open spec fn speaks_in(event: StreamEventView, stream: TextStream) -> bool {
    match event {
        StreamEventView::TextDelta { stream: s, .. } => s == stream,
        StreamEventView::TextDone { stream: s, .. } => s == stream,
        StreamEventView::Part { stream: s, .. } => s == stream,
        _ => false,
    }
}

/// Those of some keys that are selected, in order.
spec fn picked(keys: Seq<PartKey>, stream: TextStream, at: Option<u32>) -> Seq<PartKey>
    decreases keys.len(),
{
    if keys.len() == 0 {
        Seq::empty()
    } else if stream::selected(keys.last(), stream, at) {
        picked(keys.drop_last(), stream, at).push(keys.last())
    } else {
        picked(keys.drop_last(), stream, at)
    }
}

spec fn strung(parts: Map<PartKey, Seq<char>>, keys: Seq<PartKey>) -> Seq<char>
    decreases keys.len(),
{
    if keys.len() == 0 {
        Seq::empty()
    } else {
        strung(parts, keys.drop_last()) + parts[keys.last()]
    }
}

spec fn chosen(of: Set<PartKey>, stream: TextStream, at: Option<u32>) -> Set<PartKey> {
    Set::new(|key: PartKey| of.contains(key) && stream::selected(key, stream, at))
}

proof fn picked_lists(keys: Seq<PartKey>, of: Set<PartKey>, stream: TextStream, at: Option<u32>)
    requires
        ordered::lists(keys, of),
    ensures
        ordered::lists(picked(keys, stream, at), chosen(of, stream, at)),
    decreases keys.len(),
{
    let found = picked(keys, stream, at);
    let wanted = chosen(of, stream, at);
    if keys.len() > 0 {
        let last = keys.last();
        let rest = of.remove(last);
        assert(of.contains(last));
        assert(ordered::lists(keys.drop_last(), rest)) by {
            assert forall|k: PartKey| #[trigger] rest.contains(k) implies keys.drop_last().contains(
                k,
            ) by {
                let n = choose|n: int| 0 <= n < keys.len() && keys[n] == k;
                assert(keys.drop_last()[n] == k);
            }
            assert forall|n: int| 0 <= n < keys.drop_last().len() implies rest.contains(
                #[trigger] keys.drop_last()[n],
            ) by {
                assert(of.contains(keys[n]));
                assert(keys[n].rank() < last.rank());
            }
        }
        picked_lists(keys.drop_last(), rest, stream, at);
        let inner = picked(keys.drop_last(), stream, at);
        let fewer = chosen(rest, stream, at);
        assert forall|n: int| 0 <= n < inner.len() implies (#[trigger] inner[n]).rank()
            < last.rank() by {
            assert(fewer.contains(inner[n]));
            let m = choose|m: int| 0 <= m < keys.len() && keys[m] == inner[n];
            assert(keys[m].rank() < last.rank());
        }
        assert forall|k: PartKey| #[trigger] wanted.contains(k) implies found.contains(k) by {
            if k == last {
                assert(found.last() == last);
            } else {
                assert(fewer.contains(k));
                let n = choose|n: int| 0 <= n < inner.len() && inner[n] == k;
                assert(found[n] == k);
            }
        }
        assert forall|n: int| 0 <= n < found.len() implies wanted.contains(#[trigger] found[n]) by {
            if n < inner.len() {
                assert(fewer.contains(inner[n]));
            }
        }
    } else {
        assert forall|k: PartKey| !#[trigger] wanted.contains(k) by {
            if of.contains(k) {
                assert(keys.contains(k));
            }
        }
    }
}

proof fn joined_is_strung(
    parts: Map<PartKey, Seq<char>>,
    keys: Seq<PartKey>,
    stream: TextStream,
    at: Option<u32>,
)
    ensures
        stream::joined_over(parts, keys, stream, at) == strung(parts, picked(keys, stream, at)),
    decreases keys.len(),
{
    if keys.len() > 0 {
        joined_is_strung(parts, keys.drop_last(), stream, at);
        let inner = picked(keys.drop_last(), stream, at);
        if stream::selected(keys.last(), stream, at) {
            assert(inner.push(keys.last()).drop_last() =~= inner);
        } else {
            assert(strung(parts, inner) + Seq::<char>::empty() =~= strung(parts, inner));
        }
    }
}

proof fn strung_agrees(
    a: Map<PartKey, Seq<char>>,
    b: Map<PartKey, Seq<char>>,
    keys: Seq<PartKey>,
)
    requires
        forall|n: int| 0 <= n < keys.len() ==> a[#[trigger] keys[n]] == b[keys[n]],
    ensures
        strung(a, keys) == strung(b, keys),
    decreases keys.len(),
{
    if keys.len() > 0 {
        assert(a[keys[keys.len() - 1]] == b[keys[keys.len() - 1]]);
        assert forall|n: int| 0 <= n < keys.drop_last().len() implies a[
            #[trigger] keys.drop_last()[n]
        ] == b[keys.drop_last()[n]] by {
            assert(keys.drop_last()[n] == keys[n]);
        }
        strung_agrees(a, b, keys.drop_last());
    }
}

/// The joined text of a selection depends on the selected parts alone.
pub proof fn joined_text_depends_on_its_own_parts(
    a: Map<PartKey, Seq<char>>,
    b: Map<PartKey, Seq<char>>,
    stream: TextStream,
    at: Option<u32>,
)
    requires
        ordered::lists(ordered::in_order(a.dom()), a.dom()),
        ordered::lists(ordered::in_order(b.dom()), b.dom()),
        forall|key: PartKey| stream::selected(key, stream, at) ==> (a.dom().contains(key)
            <==> #[trigger] b.dom().contains(key)),
        forall|key: PartKey| stream::selected(key, stream, at) && a.dom().contains(key)
            ==> a[key] == #[trigger] b[key],
    ensures
        stream::joined_text(a, stream, at) == stream::joined_text(b, stream, at),
{
    let in_a = ordered::in_order(a.dom());
    let in_b = ordered::in_order(b.dom());
    picked_lists(in_a, a.dom(), stream, at);
    picked_lists(in_b, b.dom(), stream, at);
    assert(chosen(a.dom(), stream, at) =~= chosen(b.dom(), stream, at));
    let keys = picked(in_a, stream, at);
    ordered::order_is_unique(keys, picked(in_b, stream, at), chosen(a.dom(), stream, at));
    joined_is_strung(a, in_a, stream, at);
    joined_is_strung(b, in_b, stream, at);
    assert forall|n: int| 0 <= n < keys.len() implies a[#[trigger] keys[n]] == b[keys[n]] by {
        assert(chosen(a.dom(), stream, at).contains(keys[n]));
    }
    strung_agrees(a, b, keys);
}

/// An event that carries no text of a stream leaves that stream's text as it was. So no
/// refusal and no reasoning is ever part of the answer.
pub proof fn only_its_own_events_change_a_text(
    before: SettlingView,
    event: StreamEventView,
    stream: TextStream,
)
    requires
        before.wf(),
        before.events < usize::MAX,
        !speaks_in(event, stream),
    ensures
        before.after(event).text(stream) == before.text(stream),
{
    before.stays_wf(event);
    joined_text_depends_on_its_own_parts(
        before.text_parts,
        before.after(event).text_parts,
        stream,
        None,
    );
}

/// A delta for the last part of a stream appends to the end of the stream's text.
pub proof fn a_delta_at_the_end_appends(before: SettlingView, key: PartKey, delta: Seq<char>)
    requires
        before.wf(),
        before.events < usize::MAX,
        forall|k: PartKey| #[trigger]
            before.text_parts.dom().contains(k) && k.stream == key.stream ==> k.rank()
                <= key.rank(),
    ensures
        before.after(
            StreamEventView::TextDelta {
                stream: key.stream,
                output_index: key.output_index,
                part_index: key.part_index,
                delta,
            },
        ).text(key.stream) == before.text(key.stream) + delta,
{
    let event = StreamEventView::TextDelta {
        stream: key.stream,
        output_index: key.output_index,
        part_index: key.part_index,
        delta,
    };
    let after = before.after(event);
    before.stays_wf(event);
    let a = before.text_parts;
    let b = after.text_parts;
    let s = key.stream;
    assert(event->TextDelta_stream == s);
    assert(b == a.insert(key, settle::held(a, key) + delta));
    let in_a = ordered::in_order(a.dom());
    let in_b = ordered::in_order(b.dom());
    picked_lists(in_a, a.dom(), s, None);
    picked_lists(in_b, b.dom(), s, None);
    joined_is_strung(a, in_a, s, None);
    joined_is_strung(b, in_b, s, None);
    let keys_a = picked(in_a, s, None);
    let keys_b = picked(in_b, s, None);
    assert(chosen(b.dom(), s, None).contains(key));
    let n = choose|n: int| 0 <= n < keys_b.len() && keys_b[n] == key;
    // Nothing selected comes after the key.
    assert(keys_b.last() == key) by {
        let last = keys_b.last();
        assert(chosen(b.dom(), s, None).contains(keys_b[keys_b.len() - 1]));
        if last != key {
            assert(a.dom().contains(last));
            assert(keys_b[n].rank() < keys_b[keys_b.len() - 1].rank());
        }
    }
    let earlier = keys_b.drop_last();
    let others = chosen(b.dom(), s, None).remove(key);
    assert(ordered::lists(earlier, others)) by {
        assert forall|k: PartKey| #[trigger] others.contains(k) implies earlier.contains(k) by {
            let m = choose|m: int| 0 <= m < keys_b.len() && keys_b[m] == k;
            assert(earlier[m] == k);
        }
        assert forall|m: int| 0 <= m < earlier.len() implies others.contains(
            #[trigger] earlier[m],
        ) by {
            assert(chosen(b.dom(), s, None).contains(keys_b[m]));
            assert(keys_b[m].rank() < keys_b[keys_b.len() - 1].rank());
        }
    }
    assert forall|m: int| 0 <= m < earlier.len() implies a[#[trigger] earlier[m]]
        == b[earlier[m]] by {
        assert(others.contains(earlier[m]));
    }
    strung_agrees(a, b, earlier);
    if a.dom().contains(key) {
        assert(chosen(a.dom(), s, None) =~= chosen(b.dom(), s, None));
        ordered::order_is_unique(keys_a, keys_b, chosen(a.dom(), s, None));
        assert(strung(a, earlier) + a[key] + delta =~= strung(a, earlier) + (a[key] + delta));
    } else {
        assert(others =~= chosen(a.dom(), s, None));
        ordered::order_is_unique(keys_a, earlier, others);
        assert(strung(a, earlier) + (Seq::<char>::empty() + delta) =~= strung(a, earlier)
            + delta);
    }
}

/// A `done` frame that agrees with the deltas changes neither text nor record.
pub proof fn a_true_report_changes_nothing(before: SettlingView, key: PartKey)
    requires
        before.text_parts.dom().contains(key),
    ensures
        before.after(
            StreamEventView::TextDone {
                stream: key.stream,
                output_index: key.output_index,
                part_index: key.part_index,
                text: before.text_parts[key],
            },
        ) == (SettlingView { events: before.events + 1, ..before }),
{
    assert(before.text_parts.insert(key, before.text_parts[key]) =~= before.text_parts);
}

/// A `done` frame that differs from the deltas is what is kept, and the difference is
/// recorded with both texts.
pub proof fn a_differing_report_stands_and_is_recorded(
    before: SettlingView,
    key: PartKey,
    text: Seq<char>,
)
    requires
        settle::held(before.text_parts, key) != text,
    ensures
        ({
            let after = before.after(
                StreamEventView::TextDone {
                    stream: key.stream,
                    output_index: key.output_index,
                    part_index: key.part_index,
                    text,
                },
            );
            &&& after.text_parts == before.text_parts.insert(key, text)
            &&& after.disagreements == before.disagreements.push(
                PartDisagreementView {
                    key,
                    accumulated: settle::held(before.text_parts, key),
                    reported: text,
                },
            )
        }),
{
}

/// Deltas to different parts may arrive in either order.
pub proof fn deltas_to_different_parts_commute(
    before: SettlingView,
    a: PartKey,
    first: Seq<char>,
    b: PartKey,
    second: Seq<char>,
)
    requires
        a != b,
    ensures
        before.after(delta_to(a, first)).after(delta_to(b, second)) == before.after(
            delta_to(b, second),
        ).after(delta_to(a, first)),
{
    assert(before.after(delta_to(a, first)).after(delta_to(b, second)).text_parts
        =~= before.after(delta_to(b, second)).after(delta_to(a, first)).text_parts);
}

/// The delta event that grows a part.
pub open spec fn delta_to(key: PartKey, delta: Seq<char>) -> StreamEventView {
    StreamEventView::TextDelta {
        stream: key.stream,
        output_index: key.output_index,
        part_index: key.part_index,
        delta,
    }
}

/// Places with those added at which some keys put a message's text.
spec fn with_text_places(of: Set<u32>, keys: Seq<PartKey>) -> Set<u32>
    decreases keys.len(),
{
    if keys.len() == 0 {
        of
    } else if settle::is_message_text(keys.last()) {
        with_text_places(of, keys.drop_last()).insert(keys.last().output_index)
    } else {
        with_text_places(of, keys.drop_last())
    }
}

proof fn text_places_are_listed(of: Set<u32>, keys: Seq<PartKey>)
    requires
        ordered::lists(ordered::in_order(of), of),
    ensures
        ordered::lists(
            ordered::in_order(with_text_places(of, keys)),
            with_text_places(of, keys),
        ),
        forall|i: u32| #[trigger]
            with_text_places(of, keys).contains(i) <==> of.contains(i) || exists|n: int|
                0 <= n < keys.len() && settle::is_message_text(#[trigger] keys[n])
                    && keys[n].output_index == i,
    decreases keys.len(),
{
    if keys.len() > 0 {
        let rest = keys.drop_last();
        text_places_are_listed(of, rest);
        let before = with_text_places(of, rest);
        if settle::is_message_text(keys.last()) {
            ordered::with_key_lists(ordered::in_order(before), before, keys.last().output_index);
        }
        assert forall|i: u32| #[trigger]
            with_text_places(of, keys).contains(i) <==> of.contains(i) || exists|n: int|
                0 <= n < keys.len() && settle::is_message_text(#[trigger] keys[n])
                    && keys[n].output_index == i by {
            if with_text_places(of, keys).contains(i) && !of.contains(i) {
                if before.contains(i) {
                    let n = choose|n: int|
                        0 <= n < rest.len() && settle::is_message_text(#[trigger] rest[n])
                            && rest[n].output_index == i;
                    assert(keys[n] == rest[n]);
                } else {
                    assert(keys[keys.len() - 1] == keys.last());
                }
            }
            if exists|n: int|
                0 <= n < keys.len() && settle::is_message_text(#[trigger] keys[n])
                    && keys[n].output_index == i {
                let n = choose|n: int|
                    0 <= n < keys.len() && settle::is_message_text(#[trigger] keys[n])
                        && keys[n].output_index == i;
                if n < rest.len() {
                    assert(rest[n] == keys[n]);
                    assert(before.contains(i));
                }
            }
        }
    }
}

/// The items a stream settles to, where the final response lists none, stand in output order:
/// their places increase, none twice, and are exactly the indices at which an item was
/// announced or a message's text arrived.
pub proof fn the_streamed_items_stand_in_output_order(held: SettlingView)
    requires
        held.wf(),
    ensures
        ({
            let all = held.items.dom().union(settle::text_places(held.text_parts));
            let places = ordered::in_order(all);
            let items = settle::streamed_items(held.text_parts, held.items);
            &&& forall|i: int, j: int| 0 <= i < j < places.len() ==> places[i] < places[j]
            &&& forall|place: u32| #[trigger] places.contains(place) <==> all.contains(place)
            &&& items.len() == places.len()
            &&& forall|n: int|
                0 <= n < items.len() ==> #[trigger] items[n] == settle::item_at(
                    held.text_parts,
                    held.items,
                    places[n],
                )
        }),
{
    let keys = ordered::in_order(held.text_parts.dom());
    let all = held.items.dom().union(settle::text_places(held.text_parts));
    text_places_are_listed(held.items.dom(), keys);
    assert forall|i: u32| with_text_places(held.items.dom(), keys).contains(i) <==> all.contains(
        i,
    ) by {
        if settle::text_places(held.text_parts).contains(i) {
            let key = choose|key: PartKey| #[trigger]
                held.text_parts.dom().contains(key) && settle::is_message_text(key)
                    && key.output_index == i;
            let n = choose|n: int| 0 <= n < keys.len() && keys[n] == key;
            assert(settle::is_message_text(keys[n]));
        }
        if exists|n: int|
            0 <= n < keys.len() && settle::is_message_text(#[trigger] keys[n])
                && keys[n].output_index == i {
            let n = choose|n: int|
                0 <= n < keys.len() && settle::is_message_text(#[trigger] keys[n])
                    && keys[n].output_index == i;
            assert(held.text_parts.dom().contains(keys[n]));
        }
    }
    assert(with_text_places(held.items.dom(), keys) =~= all);
    let places = ordered::in_order(all);
    assert forall|place: u32| #[trigger] places.contains(place) implies all.contains(place) by {
        let n = choose|n: int| 0 <= n < places.len() && places[n] == place;
        assert(all.contains(places[n]));
    }
    assert forall|i: int, j: int| 0 <= i < j < places.len() implies places[i] < places[j] by {
        assert(places[i].rank() < places[j].rank());
    }
}

/// The item an event carries and the output index it is for, where it carries one.
pub open spec fn carried_item(event: StreamEventView) -> Option<(u32, OutputItemView)> {
    match event {
        StreamEventView::OutputItemAdded { output_index, item } => Some((output_index, item)),
        StreamEventView::OutputItemDone { output_index, item } => Some((output_index, item)),
        _ => None,
    }
}

/// Whether the event at a place is the last that carries an item for an output index.
pub open spec fn last_for(events: Seq<StreamEventView>, output_index: u32, n: int) -> bool {
    &&& 0 <= n < events.len()
    &&& carried_item(events[n]) matches Some((i, _)) && i == output_index
    &&& forall|m: int|
        n < m < events.len() ==> (carried_item(#[trigger] events[m]) matches Some((i, _)) ==> i
            != output_index)
}

/// An event that carries an item puts exactly that item at its output index, whatever stood
/// there before, and no other index changes: a finished item replaces its announcement.
pub proof fn a_carried_item_replaces_what_stood_there(
    before: SettlingView,
    output_index: u32,
    item: OutputItemView,
    finished: bool,
)
    ensures
        ({
            let after = before.after(
                if finished {
                    StreamEventView::OutputItemDone { output_index, item }
                } else {
                    StreamEventView::OutputItemAdded { output_index, item }
                },
            );
            &&& after.items.dom().contains(output_index)
            &&& after.items[output_index] == item
            &&& forall|i: u32|
                i != output_index ==> (#[trigger] after.items.dom().contains(i)
                    <==> before.items.dom().contains(i))
            &&& forall|i: u32|
                i != output_index && before.items.dom().contains(i) ==> #[trigger] after.items[i]
                    == before.items[i]
        }),
{
}

/// The item held at an output index is the one that the last event for that index carried, and
/// nothing is held where no event carried one.
pub proof fn the_last_item_for_an_index_is_held(events: Seq<StreamEventView>, output_index: u32)
    ensures
        consumed(events).items.dom().contains(output_index) <==> exists|n: int| #[trigger]
            last_for(events, output_index, n),
        forall|n: int| #[trigger]
            last_for(events, output_index, n) ==> carried_item(events[n]) == Some(
                (output_index, consumed(events).items[output_index]),
            ),
    decreases events.len(),
{
    if events.len() > 0 {
        let rest = events.drop_last();
        let last = events.len() - 1;
        the_last_item_for_an_index_is_held(rest, output_index);
        let own = carried_item(events.last()) matches Some((i, _)) && i == output_index;
        assert(events[last] == events.last());
        if own {
            assert(last_for(events, output_index, last));
            assert forall|n: int| #[trigger] last_for(events, output_index, n) implies n == last by {
                if n < last {
                    assert(carried_item(events[last]) matches Some((i, _)) ==> i != output_index);
                }
            }
        } else {
            assert forall|n: int| #[trigger] last_for(events, output_index, n) implies last_for(
                rest,
                output_index,
                n,
            ) by {
                assert(n < last);
                assert(rest[n] == events[n]);
                assert forall|m: int| n < m < rest.len() implies (carried_item(
                    #[trigger] rest[m],
                ) matches Some((i, _)) ==> i != output_index) by {
                    assert(rest[m] == events[m]);
                }
            }
            assert forall|n: int| #[trigger] last_for(rest, output_index, n) implies last_for(
                events,
                output_index,
                n,
            ) by {
                assert(rest[n] == events[n]);
                assert forall|m: int| n < m < events.len() implies (carried_item(
                    #[trigger] events[m],
                ) matches Some((i, _)) ==> i != output_index) by {
                    if m < last {
                        assert(rest[m] == events[m]);
                    }
                }
            }
            if exists|n: int| last_for(rest, output_index, n) {
                let n = choose|n: int| last_for(rest, output_index, n);
                assert(last_for(events, output_index, n));
            }
            if exists|n: int| last_for(events, output_index, n) {
                let n = choose|n: int| last_for(events, output_index, n);
                assert(last_for(rest, output_index, n));
            }
        }
    }
}

/// What an event says of the text of a part: a piece to append, or the whole.
pub open spec fn said_of(event: StreamEventView, key: PartKey) -> Option<(Seq<char>, bool)> {
    match event {
        StreamEventView::TextDelta { stream, output_index, part_index, delta } => if stream
            == key.stream && output_index == key.output_index && part_index == key.part_index {
            Some((delta, false))
        } else {
            None
        },
        StreamEventView::TextDone { stream, output_index, part_index, text } => if stream
            == key.stream && output_index == key.output_index && part_index == key.part_index {
            Some((text, true))
        } else {
            None
        },
        StreamEventView::Part { stream, boundary, output_index, part_index, text } => if stream
            == key.stream && output_index == key.output_index && part_index == key.part_index {
            Some(
                if boundary == PartBoundary::Done {
                    (text, true)
                } else {
                    (Seq::empty(), false)
                },
            )
        } else {
            None
        },
        _ => None,
    }
}

/// What events say a part holds: the pieces since the whole was last told, after that whole.
pub open spec fn told(events: Seq<StreamEventView>, key: PartKey) -> Option<Seq<char>>
    decreases events.len(),
{
    if events.len() == 0 {
        None
    } else {
        let before = told(events.drop_last(), key);
        match said_of(events.last(), key) {
            None => before,
            Some((text, true)) => Some(text),
            Some((piece, false)) => match before {
                Some(held) => Some(held + piece),
                None => Some(piece),
            },
        }
    }
}

/// A part holds what the events told of it, and there is no part of which none told.
pub proof fn a_part_holds_what_was_told(events: Seq<StreamEventView>, key: PartKey)
    ensures
        consumed(events).text_parts.dom().contains(key) <==> told(events, key) is Some,
        told(events, key) matches Some(text) ==> consumed(events).text_parts[key] == text,
    decreases events.len(),
{
    if events.len() > 0 {
        a_part_holds_what_was_told(events.drop_last(), key);
        let before = consumed(events.drop_last());
        let event = events.last();
        match said_of(event, key) {
            Some((piece, false)) => {
                assert(Seq::<char>::empty() + piece =~= piece);
            },
            _ => {},
        }
    }
}

/// One event changes the text of the part it is about, and of no other.
pub proof fn an_event_changes_only_its_own_part(
    before: SettlingView,
    event: StreamEventView,
    key: PartKey,
)
    ensures
        match said_of(event, key) {
            None => {
                &&& before.after(event).text_parts.dom().contains(key)
                    <==> before.text_parts.dom().contains(key)
                &&& before.text_parts.dom().contains(key) ==> before.after(event).text_parts[key]
                    == before.text_parts[key]
            },
            Some((text, whole)) => {
                &&& before.after(event).text_parts.dom().contains(key)
                &&& before.after(event).text_parts[key] == if whole {
                    text
                } else if before.text_parts.dom().contains(key) {
                    before.text_parts[key] + text
                } else {
                    text
                }
            },
        },
{
    if let Some((piece, false)) = said_of(event, key) {
        assert(Seq::<char>::empty() + piece =~= piece);
    }
}

/// A disagreement is recorded exactly where the whole of a part is told and differs from what
/// its pieces made, and it holds both.
pub proof fn only_a_differing_whole_is_a_disagreement(
    before: SettlingView,
    event: StreamEventView,
    key: PartKey,
)
    requires
        said_of(event, key) is Some,
    ensures
        ({
            let (text, whole) = said_of(event, key)->0;
            let gathered = if before.text_parts.dom().contains(key) {
                before.text_parts[key]
            } else {
                Seq::empty()
            };
            let after = before.after(event).disagreements;
            if whole && gathered != text {
                &&& after.len() == before.disagreements.len() + 1
                &&& before.disagreements.is_prefix_of(after)
                &&& after.last().key == key
                &&& after.last().accumulated == gathered
                &&& after.last().reported == text
            } else {
                after == before.disagreements
            }
        }),
{
}

/// An event that is about no part records no disagreement, one that carries no item changes
/// no item, and one of no hosted tool changes no count.
pub proof fn an_event_leaves_the_rest_alone(before: SettlingView, event: StreamEventView)
    ensures
        before.after(event).events == before.events + 1,
        carried_item(event) is None ==> before.after(event).items == before.items,
        (forall|key: PartKey| said_of(event, key) is None) ==> before.after(event).disagreements
            == before.disagreements && before.after(event).text_parts == before.text_parts,
        tool_of(event) is None ==> before.after(event).hosted_tool_events
            == before.hosted_tool_events,
        !event.terminal() ==> before.after(event).terminal == before.terminal,
{
    match event {
        StreamEventView::TextDelta { stream, output_index, part_index, .. } => {
            assert(said_of(event, PartKey { output_index, stream, part_index }) is Some);
        },
        StreamEventView::TextDone { stream, output_index, part_index, .. } => {
            assert(said_of(event, PartKey { output_index, stream, part_index }) is Some);
        },
        StreamEventView::Part { stream, output_index, part_index, .. } => {
            assert(said_of(event, PartKey { output_index, stream, part_index }) is Some);
        },
        _ => {},
    }
}

/// The hosted tool an event is of, where it is of one.
pub open spec fn tool_of(event: StreamEventView) -> Option<HostedTool> {
    match event {
        StreamEventView::HostedToolLifecycle { tool, .. } => Some(tool),
        StreamEventView::HostedToolInputDelta { tool, .. } => Some(tool),
        StreamEventView::HostedToolInputDone { tool, .. } => Some(tool),
        _ => None,
    }
}

/// How many events are of a hosted tool.
pub open spec fn sent_by(events: Seq<StreamEventView>, tool: HostedTool) -> nat
    decreases events.len(),
{
    if events.len() == 0 {
        0
    } else {
        sent_by(events.drop_last(), tool) + if tool_of(events.last()) == Some(tool) {
            1nat
        } else {
            0nat
        }
    }
}

/// A hosted tool is counted once for each of its events, and not at all without one.
pub proof fn a_tool_is_counted_once_an_event(events: Seq<StreamEventView>, tool: HostedTool)
    requires
        events.len() <= usize::MAX,
    ensures
        sent_by(events, tool) <= events.len(),
        consumed(events).hosted_tool_events.dom().contains(tool) <==> sent_by(events, tool) > 0,
        sent_by(events, tool) > 0 ==> consumed(events).hosted_tool_events[tool] == sent_by(
            events,
            tool,
        ),
    decreases events.len(),
{
    if events.len() > 0 {
        a_tool_is_counted_once_an_event(events.drop_last(), tool);
    }
}

/// Whether a part is written before another: it is of an earlier item, or of the same item and
/// an earlier stream (answer, refusal, summary, reasoning), or of the same stream and earlier
/// there.
pub open spec fn written_before(a: PartKey, b: PartKey) -> bool {
    let place = |stream: TextStream|
        match stream {
            TextStream::Output => 0int,
            TextStream::Refusal => 1,
            TextStream::ReasoningSummary => 2,
            TextStream::Reasoning => 3,
        };
    ||| a.output_index < b.output_index
    ||| a.output_index == b.output_index && place(a.stream) < place(b.stream)
    ||| a.output_index == b.output_index && a.stream == b.stream && a.part_index < b.part_index
}

/// The joined text of a selection is written part by part: a part that comes after all the
/// others adds its text at the end where it is selected, and nothing where it is not. Without
/// parts there is no text.
pub proof fn text_is_joined_part_by_part(
    parts: Map<PartKey, Seq<char>>,
    key: PartKey,
    text: Seq<char>,
    stream: TextStream,
    at: Option<u32>,
)
    requires
        ordered::lists(ordered::in_order(parts.dom()), parts.dom()),
        forall|k: PartKey| #[trigger] parts.dom().contains(k) ==> written_before(k, key),
    ensures
        stream::joined_text(parts.insert(key, text), stream, at) == stream::joined_text(
            parts,
            stream,
            at,
        ) + if key.stream == stream && (at is None || at == Some(key.output_index)) {
            text
        } else {
            Seq::empty()
        },
        stream::joined_text(Map::empty(), stream, at).len() == 0,
{
    let keys = ordered::in_order(parts.dom());
    let more = parts.insert(key, text);
    ordered::with_key_lists(keys, parts.dom(), key);
    assert(more.dom() =~= parts.dom().insert(key));
    assert(!parts.dom().contains(key)) by {
        if parts.dom().contains(key) {
            assert(written_before(key, key));
        }
    }
    if keys.len() > 0 {
        assert(parts.dom().contains(keys[keys.len() - 1]));
        assert(written_before(keys.last(), key));
        assert(keys.last().rank() < key.rank());
    } else {
        assert(seq![key] =~= keys.push(key));
    }
    assert(ordered::in_order(more.dom()) == keys.push(key));
    assert(keys.push(key).drop_last() =~= keys);
    assert forall|n: int| 0 <= n < keys.len() implies #[trigger] keys[n] != key by {
        assert(parts.dom().contains(keys[n]));
    }
    joined_over_agrees(parts, more, keys, stream, at);
    ordered::listed(Seq::<PartKey>::empty(), Map::<PartKey, Seq<char>>::empty().dom());
}

proof fn joined_over_agrees(
    a: Map<PartKey, Seq<char>>,
    b: Map<PartKey, Seq<char>>,
    keys: Seq<PartKey>,
    stream: TextStream,
    at: Option<u32>,
)
    requires
        forall|n: int| 0 <= n < keys.len() ==> a[#[trigger] keys[n]] == b[keys[n]],
    ensures
        stream::joined_over(a, keys, stream, at) == stream::joined_over(b, keys, stream, at),
    decreases keys.len(),
{
    if keys.len() > 0 {
        assert(a[keys[keys.len() - 1]] == b[keys[keys.len() - 1]]);
        assert forall|n: int| 0 <= n < keys.drop_last().len() implies a[
            #[trigger] keys.drop_last()[n]
        ] == b[keys.drop_last()[n]] by {
            assert(keys.drop_last()[n] == keys[n]);
        }
        joined_over_agrees(a, b, keys.drop_last(), stream, at);
    }
}

/// What a stream settles to: how it ended, the id, the usage and the output that the ending
/// reports, each stream's text on its own, and what was counted and recorded on the way. Where
/// the ending reports no output, the items are those that were streamed.
pub proof fn a_settled_stream_reports_its_ending(held: SettlingView, ending: StreamEventView)
    requires
        ending.terminal(),
    ensures
        ({
            let settled = held.settled(ending);
            &&& match ending {
                StreamEventView::Completed(response) => {
                    &&& settled.outcome is Completed
                    &&& settled.id == response.id
                    &&& settled.usage == response.usage
                    &&& response.output.len() > 0 ==> settled.items == response.output
                },
                StreamEventView::Incomplete(response) => {
                    &&& settled.outcome == (OutcomeView::Incomplete {
                        reason: response.incomplete_reason,
                    })
                    &&& settled.id == response.id
                    &&& settled.usage == response.usage
                    &&& response.output.len() > 0 ==> settled.items == response.output
                },
                StreamEventView::Failed(response) => {
                    &&& settled.outcome matches OutcomeView::Failed { error } && match response.error {
                        Some(told) => error == told,
                        None => {
                            &&& error.code is None
                            &&& error.param is None
                            &&& error.message == "the response failed without an error object"@
                        },
                    }
                    &&& settled.id == response.id
                    &&& settled.usage == response.usage
                    &&& response.output.len() > 0 ==> settled.items == response.output
                },
                StreamEventView::Error(error) => {
                    &&& settled.outcome == (OutcomeView::Errored { error })
                    &&& settled.id is None
                    &&& settled.usage is None
                },
                _ => false,
            }
            &&& settled.text == stream::joined_text(held.text_parts, TextStream::Output, None)
            &&& settled.refusal == stream::joined_text(held.text_parts, TextStream::Refusal, None)
            &&& settled.reasoning_summary == stream::joined_text(
                held.text_parts,
                TextStream::ReasoningSummary,
                None,
            )
            &&& settled.reasoning == stream::joined_text(
                held.text_parts,
                TextStream::Reasoning,
                None,
            )
            &&& settled.events == held.events
            &&& settled.hosted_tool_events == held.hosted_tool_events
            &&& settled.part_disagreements == held.disagreements
            &&& !(settle::response_of(ending).output.len() > 0) ==> settled.items
                == settle::streamed_items(held.text_parts, held.items)
        }),
{
}

/// An item that was streamed is the one announced at its index. A message keeps the answer and
/// the refusal it was announced with, and one announced without takes what was streamed for
/// that index; where none was announced, what was streamed makes a message of its own.
pub proof fn a_streamed_item_is_the_announced_one(
    parts: Map<PartKey, Seq<char>>,
    items: Map<u32, OutputItemView>,
    i: u32,
)
    ensures
        ({
            let answer = stream::joined_text(parts, TextStream::Output, Some(i));
            let declined = stream::joined_text(parts, TextStream::Refusal, Some(i));
            let item = settle::item_at(parts, items, i);
            if items.dom().contains(i) {
                match items[i] {
                    OutputItemView::Message { id, phase, text, refusal } => {
                        &&& item matches OutputItemView::Message {
                            id: id_held,
                            phase: phase_held,
                            text: text_held,
                            refusal: refusal_held,
                        } && {
                            &&& id_held == id
                            &&& phase_held == phase
                            &&& text.len() > 0 ==> text_held == text
                            &&& text.len() == 0 ==> text_held == answer
                            &&& refusal.len() > 0 ==> refusal_held == refusal
                            &&& refusal.len() == 0 ==> refusal_held == declined
                        }
                    },
                    other => item == other,
                }
            } else {
                item matches OutputItemView::Message { id, phase, text, refusal } && {
                    &&& id is None
                    &&& phase is None
                    &&& text == answer
                    &&& refusal == declined
                }
            }
        }),
{
}

/// A stream that ended settles, and one that did not is refused with how far it had come: its
/// events, and the characters of its answer.
pub proof fn a_truncated_stream_is_refused(
    stream: Settling,
    outcome: Result<Settled, SettleError>,
)
    requires
        call_ensures(Settling::settle, (stream,), outcome),
    ensures
        outcome is Ok <==> stream@.terminal is Some,
        outcome matches Ok(settled) ==> settled@ == stream@.settled(stream@.terminal->0),
        outcome matches Err(error) ==> error@ == (SettleErrorView::Truncated {
            events: stream@.events,
            text_len: stream::joined_text(stream@.text_parts, TextStream::Output, None).len(),
        }),
{
}

} // verus!
