//! What the limits on a request let through, and what they refuse.
use vstd::prelude::*;

use crate::metadata;
use crate::metadata::{Metadata, MetadataErrorView};
use crate::model::{Model, ModelId};
use crate::request;
use crate::request::{CacheWriteBudget, RequestErrorView};
use crate::text;
use crate::values::{CacheMode, Include};

verus! {

/// One text comes before another exactly where, at the first character in which they differ, its
/// own is the smaller, or where it is a proper beginning of the other.
pub proof fn texts_are_ordered_by_their_first_difference(a: Seq<char>, b: Seq<char>)
    ensures
        text::lex_less(a, b) <==> exists|n: int| #[trigger] differ_first_at(a, b, n),
    decreases a.len(),
{
    if a.len() == 0 && b.len() > 0 {
        assert(differ_first_at(a, b, 0));
    } else if a.len() > 0 && b.len() > 0 {
        if a[0] != b[0] {
            if a[0] < b[0] {
                assert(differ_first_at(a, b, 0));
            }
        } else {
            let (rest_a, rest_b) = (a.drop_first(), b.drop_first());
            texts_are_ordered_by_their_first_difference(rest_a, rest_b);
            if text::lex_less(rest_a, rest_b) {
                let n = choose|n: int| #[trigger] differ_first_at(rest_a, rest_b, n);
                assert forall|i: int| 0 <= i < n + 1 implies #[trigger] a[i] == b[i] by {
                    if i > 0 {
                        assert(rest_a[i - 1] == rest_b[i - 1]);
                    }
                }
                assert(n < rest_a.len() ==> rest_a[n] == a[n + 1]);
                assert(rest_b[n] == b[n + 1]);
                assert(differ_first_at(a, b, n + 1));
            }
            if exists|n: int| #[trigger] differ_first_at(a, b, n) {
                let n = choose|n: int| #[trigger] differ_first_at(a, b, n);
                assert(n > 0);
                assert forall|i: int| 0 <= i < n - 1 implies #[trigger] rest_a[i] == rest_b[i] by {
                    assert(a[i + 1] == b[i + 1]);
                }
                assert(n - 1 < rest_a.len() ==> rest_a[n - 1] == a[n]);
                assert(rest_b[n - 1] == b[n]);
                assert(differ_first_at(rest_a, rest_b, n - 1));
            }
        }
    }
}

/// Whether two texts agree up to a place, where the first ends or has the smaller character.
pub open spec fn differ_first_at(a: Seq<char>, b: Seq<char>, n: int) -> bool {
    &&& 0 <= n <= a.len()
    &&& n < b.len()
    &&& forall|i: int| 0 <= i < n ==> #[trigger] a[i] == b[i]
    &&& n < a.len() ==> a[n] < b[n]
}

/// A number in decimal is digits whose value is the number, without a leading zero.
pub proof fn a_decimal_has_the_value_of_its_number(n: nat)
    ensures
        text::decimal(n).len() > 0,
        forall|i: int| 0 <= i < text::decimal(n).len() ==> '0' <= #[trigger] text::decimal(n)[i] <= '9',
        value_of(text::decimal(n)) == n,
        text::decimal(n)[0] == '0' ==> n == 0 && text::decimal(n).len() == 1,
    decreases n,
{
    if n < 10 {
        assert(text::decimal(n).drop_last() =~= Seq::<char>::empty());
        assert(value_of(Seq::<char>::empty()) == 0);
        assert(text::decimal(n).last() == text::digit(n));
    } else {
        a_decimal_has_the_value_of_its_number(n / 10);
        let front = text::decimal(n / 10);
        assert(text::decimal(n).drop_last() =~= front);
        assert(text::decimal(n).last() == text::digit(n % 10));
        assert(text::decimal(n)[0] == front[0]);
        assert forall|i: int| 0 <= i < text::decimal(n).len() implies '0' <= #[trigger] text::decimal(
            n,
        )[i] <= '9' by {
            if i < front.len() {
                assert(text::decimal(n)[i] == front[i]);
            }
        }
    }
}

/// What decimal digits come to.
pub open spec fn value_of(digits: Seq<char>) -> int
    decreases digits.len(),
{
    if digits.len() == 0 {
        0
    } else {
        value_of(digits.drop_last()) * 10 + (digits.last() as int - '0' as int)
    }
}

/// Whether a pair is within the limits: 64 characters of key and 512 of value.
pub open spec fn within(pair: (Seq<char>, Seq<char>)) -> bool {
    pair.0.len() <= 64 && pair.1.len() <= 512
}

/// Whether a pair is the last of those given with its key.
pub open spec fn last_given(
    given: Seq<(Seq<char>, Seq<char>)>,
    i: int,
    pair: (Seq<char>, Seq<char>),
) -> bool {
    &&& 0 <= i < given.len()
    &&& given[i] == pair
    &&& forall|k: int| i < k < given.len() ==> (#[trigger] given[k]).0 != pair.0
}

/// The keys of pairs.
pub open spec fn keys_of(given: Seq<(Seq<char>, Seq<char>)>) -> Set<Seq<char>> {
    Set::new(|key: Seq<char>| exists|i: int| 0 <= i < given.len() && (#[trigger] given[i]).0 == key)
}

/// Metadata holds, in key order, the last pair given for each key and nothing else. Otherwise
/// the first pair over a limit is named, with its length, or the number of keys over sixteen.
pub proof fn metadata_holds_the_last_pair_of_each_key(
    given: Seq<(Seq<char>, Seq<char>)>,
    outcome: Result<Seq<(Seq<char>, Seq<char>)>, MetadataErrorView>,
)
    requires
        Metadata::admits(given, outcome),
    ensures
        match outcome {
            Ok(held) => {
                &&& held.len() <= 16
                &&& forall|i: int| 0 <= i < given.len() ==> within(#[trigger] given[i])
                &&& forall|i: int, j: int|
                    0 <= i < j < held.len() ==> text::lex_less(
                        (#[trigger] held[i]).0,
                        (#[trigger] held[j]).0,
                    )
                &&& forall|j: int| 0 <= j < held.len() ==> stands_last(given, #[trigger] held[j])
                &&& forall|i: int|
                    0 <= i < given.len() ==> keys_of(held).contains((#[trigger] given[i]).0)
            },
            Err(MetadataErrorView::KeyTooLong { key, characters }) => exists|n: int|
                0 <= n < given.len() && (#[trigger] given[n]).0 == key && key.len() == characters
                    && characters > 64 && first_over(given, n),
            Err(MetadataErrorView::ValueTooLong { key, characters }) => exists|n: int|
                0 <= n < given.len() && (#[trigger] given[n]).0 == key && given[n].1.len()
                    == characters && characters > 512 && key.len() <= 64 && first_over(given, n),
            Err(MetadataErrorView::TooManyPairs { pairs }) => {
                &&& pairs > 16
                &&& pairs == keys_of(given).len()
                &&& forall|i: int| 0 <= i < given.len() ==> within(#[trigger] given[i])
            },
        },
{
    the_first_pair_over_a_limit_is_named(given);
    the_last_pair_of_a_key_stands(given);
    match outcome {
        Ok(held) => {
            one_map_holds_the_same_pairs(given, held);
        },
        Err(_) => {
            assert(metadata::mapped(given).dom() =~= keys_of(given));
        },
    }
}

proof fn one_map_holds_the_same_pairs(
    given: Seq<(Seq<char>, Seq<char>)>,
    held: Seq<(Seq<char>, Seq<char>)>,
)
    requires
        metadata::sorted(held),
        metadata::mapped(held) == metadata::mapped(given),
    ensures
        forall|j: int| 0 <= j < held.len() ==> stands_last(given, #[trigger] held[j]),
        forall|i: int| 0 <= i < given.len() ==> keys_of(held).contains((#[trigger] given[i]).0),
{
    the_last_pair_of_a_key_stands(given);
    the_last_pair_of_a_key_stands(held);
    let map = metadata::mapped(given);
    assert forall|j: int| 0 <= j < held.len() implies stands_last(given, #[trigger] held[j]) by {
        let key = held[j].0;
        assert(map.dom().contains(key));
        let i = choose|i: int| #[trigger] last_given(held, i, (key, map[key]));
        if i < j {
            assert(held[j].0 != key);
        }
        if j < i {
            assert(text::lex_less(held[j].0, held[i].0));
            text::lex_less_is_irreflexive(key);
        }
        let n = choose|n: int| #[trigger] last_given(given, n, (key, map[key]));
        assert(last_given(given, n, held[j]));
    }
    assert forall|i: int| 0 <= i < given.len() implies keys_of(held).contains(
        (#[trigger] given[i]).0,
    ) by {
        let key = given[i].0;
        assert(map.dom().contains(key));
        let j = choose|j: int| #[trigger] last_given(held, j, (key, map[key]));
        assert(held[j].0 == key);
    }
}

/// Whether a pair is given, and none after it has its key.
pub open spec fn stands_last(
    given: Seq<(Seq<char>, Seq<char>)>,
    pair: (Seq<char>, Seq<char>),
) -> bool {
    exists|i: int| #[trigger] last_given(given, i, pair)
}

/// Whether every pair before one is within the limits.
pub open spec fn first_over(given: Seq<(Seq<char>, Seq<char>)>, n: int) -> bool {
    forall|i: int| 0 <= i < n ==> within(#[trigger] given[i])
}

proof fn the_last_pair_of_a_key_stands(given: Seq<(Seq<char>, Seq<char>)>)
    ensures
        forall|i: int|
            0 <= i < given.len() ==> metadata::mapped(given).dom().contains(
                (#[trigger] given[i]).0,
            ),
        forall|key: Seq<char>| #[trigger]
            metadata::mapped(given).dom().contains(key) ==> exists|i: int|
                #[trigger] last_given(given, i, (key, metadata::mapped(given)[key])),
    decreases given.len(),
{
    if given.len() > 0 {
        let before = given.drop_last();
        the_last_pair_of_a_key_stands(before);
        assert forall|i: int| 0 <= i < given.len() implies metadata::mapped(given).dom().contains(
            (#[trigger] given[i]).0,
        ) by {
            if i < before.len() {
                assert(before[i] == given[i]);
            }
        }
        assert forall|key: Seq<char>| #[trigger]
            metadata::mapped(given).dom().contains(key) implies exists|i: int|
            #[trigger] last_given(given, i, (key, metadata::mapped(given)[key])) by {
            let value = metadata::mapped(given)[key];
            if key == given.last().0 {
                assert(last_given(given, given.len() - 1, (key, value)));
            } else {
                assert(metadata::mapped(before).dom().contains(key));
                let i = choose|i: int|
                    #[trigger] last_given(before, i, (key, metadata::mapped(before)[key]));
                assert(given[i] == before[i]);
                assert forall|k: int| i < k < given.len() implies (#[trigger] given[k]).0
                    != key by {
                    if k < before.len() {
                        assert(before[k] == given[k]);
                    }
                }
                assert(last_given(given, i, (key, value)));
            }
        }
    }
}

proof fn the_first_pair_over_a_limit_is_named(given: Seq<(Seq<char>, Seq<char>)>)
    ensures
        match metadata::first_too_long(given) {
            None => forall|i: int| 0 <= i < given.len() ==> within(#[trigger] given[i]),
            Some(MetadataErrorView::KeyTooLong { key, characters }) => exists|n: int|
                0 <= n < given.len() && (#[trigger] given[n]).0 == key && key.len() == characters
                    && characters > 64 && first_over(given, n),
            Some(MetadataErrorView::ValueTooLong { key, characters }) => exists|n: int|
                0 <= n < given.len() && (#[trigger] given[n]).0 == key && given[n].1.len()
                    == characters && characters > 512 && key.len() <= 64 && first_over(given, n),
            Some(MetadataErrorView::TooManyPairs { .. }) => false,
        },
    decreases given.len(),
{
    if given.len() > 0 {
        let before = given.drop_last();
        the_first_pair_over_a_limit_is_named(before);
        assert forall|n: int| 0 <= n < given.len() && first_over(before, n) implies
            #[trigger] first_over(given, n) by {
            assert forall|i: int| 0 <= i < n implies within(#[trigger] given[i]) by {
                assert(before[i] == given[i]);
            }
        }
        match metadata::first_too_long(before) {
            None => {
                assert(first_over(before, given.len() - 1));
                assert(first_over(given, given.len() - 1));
                assert(given[given.len() - 1] == given.last());
            },
            Some(MetadataErrorView::KeyTooLong { key, characters }) => {
                let n = choose|n: int|
                    0 <= n < before.len() && (#[trigger] before[n]).0 == key && key.len()
                        == characters && characters > 64 && first_over(before, n);
                assert(first_over(given, n));
                assert(given[n].0 == key);
            },
            Some(MetadataErrorView::ValueTooLong { key, characters }) => {
                let n = choose|n: int|
                    0 <= n < before.len() && (#[trigger] before[n]).0 == key && before[n].1.len()
                        == characters && characters > 512 && key.len() <= 64 && first_over(
                        before,
                        n,
                    );
                assert(first_over(given, n));
                assert(given[n].0 == key && given[n].1.len() == characters);
            },
            Some(MetadataErrorView::TooManyPairs { .. }) => {},
        }
    }
}

/// A caller may write four breakpoints where the model is told to add none of its own, three
/// where it adds one, and none on the models before GPT-5.6; and a request is refused exactly
/// over that, saying how many were placed and, where the model takes them at all, how many may
/// be.
pub proof fn a_budget_is_what_the_model_leaves(model: Model, placed: nat)
    ensures
        match model {
            Model::Gpt5_6(m) => leaves(model, placed, m.caching.mode),
            Model::Gpt6Sol(m) => leaves(model, placed, m.caching.mode),
            Model::Gpt5_5(_) => takes_none(model, placed, ModelId::Gpt5_5),
            Model::Gpt5_5Pro(_) => takes_none(model, placed, ModelId::Gpt5_5Pro),
            Model::Gpt5_4(_) => takes_none(model, placed, ModelId::Gpt5_4),
        },
{
}

/// Whether a model leaves the caller what its caching mode does.
pub open spec fn leaves(model: Model, placed: nat, mode: CacheMode) -> bool {
    let own: nat = if mode == CacheMode::Implicit {
        3
    } else {
        4
    };
    &&& CacheWriteBudget::allowed(model).explicit_slots == own
    &&& CacheWriteBudget::allowed(model).implicit_breakpoint == (mode == CacheMode::Implicit)
    &&& request::refusal(model, placed) == if placed > own {
        Some(RequestErrorView::TooManyExplicitBreakpoints { placed, budget: own })
    } else {
        None
    }
}

/// Whether a model takes no breakpoint of the caller's.
pub open spec fn takes_none(model: Model, placed: nat, id: ModelId) -> bool {
    &&& CacheWriteBudget::allowed(model).explicit_slots == 0
    &&& CacheWriteBudget::allowed(model).implicit_breakpoint
    &&& request::refusal(model, placed) == if placed > 0 {
        Some(RequestErrorView::ExplicitBreakpointsUnsupported { model: id.wire(), placed })
    } else {
        None
    }
}

/// Taking an entry out of two lists, one after the other, takes it out of each; of one entry,
/// what is left is the entry itself unless it is the one taken out.
pub proof fn only_the_entry_is_taken_out(a: Seq<Include>, b: Seq<Include>, entry: Include)
    ensures
        request::without(a + b, entry) == request::without(a, entry) + request::without(b, entry),
        b.len() == 1 ==> request::without(b, entry) == if b[0] == entry {
            Seq::empty()
        } else {
            b
        },
        b.len() == 0 ==> request::without(b, entry).len() == 0,
    decreases b.len(),
{
    if b.len() == 0 {
        assert(a + b =~= a);
        assert(request::without(a, entry) + Seq::<Include>::empty() =~= request::without(a, entry));
    } else {
        assert((a + b).drop_last() =~= a + b.drop_last());
        assert((a + b).last() == b.last());
        only_the_entry_is_taken_out(a, b.drop_last(), entry);
        assert(request::without(a + b, entry) =~= request::without(a, entry) + request::without(
            b,
            entry,
        ));
        if b.len() == 1 {
            assert(b.drop_last() =~= Seq::<Include>::empty());
            assert(request::without(b.drop_last(), entry).len() == 0);
            if b[0] != entry {
                assert(request::without(b, entry) =~= b);
            } else {
                assert(request::without(b, entry) =~= Seq::<Include>::empty());
            }
        }
    }
}

} // verus!
