//! `metadata`: the caller's own key-value pairs, and the limits the API sets on them.
use vstd::prelude::*;

use crate::json;
use crate::json::{no_fields, put, Json, JsonView};
use crate::text;
use crate::views;

verus! {

/// `metadata`: the caller's own key-value pairs, echoed back on the response.
///
/// At most 16 pairs, keys at most 64 characters, values at most 512. The API answers a 400 to
/// any of the three, so the checking constructor is the only way in. Lengths are counted in
/// characters, not bytes, because that is the unit OpenAI counts in.
#[derive(Debug, PartialEq, Eq)]
pub struct Metadata(Vec<(String, String)>);

/// Which documented metadata limit a rejected map broke.
#[derive(Debug, Clone, PartialEq, Eq)]
#[allow(inconsistent_fields)]
pub enum MetadataError {
    /// More than the 16 pairs the API accepts.
    TooManyPairs {
        /// How many were offered.
        pairs: usize,
    },
    /// A key longer than 64 characters.
    KeyTooLong {
        /// The offending key.
        key: String,
        /// Its length in characters.
        characters: usize,
    },
    /// A value longer than 512 characters.
    ValueTooLong {
        /// The key whose value was too long.
        key: String,
        /// The value's length in characters.
        characters: usize,
    },
}

/// What a [`MetadataError`] holds.
#[verifier::ext_equal]
pub enum MetadataErrorView {
    TooManyPairs { pairs: nat },
    KeyTooLong { key: Seq<char>, characters: nat },
    ValueTooLong { key: Seq<char>, characters: nat },
}

impl View for MetadataError {
    type V = MetadataErrorView;

    open spec fn view(&self) -> MetadataErrorView {
        match self {
            MetadataError::TooManyPairs { pairs } => MetadataErrorView::TooManyPairs {
                pairs: *pairs as nat,
            },
            MetadataError::KeyTooLong { key, characters } => MetadataErrorView::KeyTooLong {
                key: key@,
                characters: *characters as nat,
            },
            MetadataError::ValueTooLong { key, characters } => MetadataErrorView::ValueTooLong {
                key: key@,
                characters: *characters as nat,
            },
        }
    }
}

impl MetadataErrorView {
    /// The error in words.
    pub open spec fn words(self) -> Seq<char> {
        match self {
            MetadataErrorView::TooManyPairs { pairs } => "metadata holds "@ + text::decimal(pairs)
                + " pairs; the API accepts at most "@ + text::decimal(
                Metadata::MAX_PAIRS as nat,
            ),
            MetadataErrorView::KeyTooLong { key, characters } => "metadata key `"@ + key
                + "` is "@ + text::decimal(characters)
                + " characters; the API accepts at most "@ + text::decimal(
                Metadata::MAX_KEY_CHARACTERS as nat,
            ),
            MetadataErrorView::ValueTooLong { key, characters } => "the metadata value at `"@ + key
                + "` is "@ + text::decimal(characters)
                + " characters; the API accepts at most "@ + text::decimal(
                Metadata::MAX_VALUE_CHARACTERS as nat,
            ),
        }
    }
}

impl MetadataError {
    /// The error in words.
    pub fn message(&self) -> (words: String)
        ensures
            words@ == self@.words(),
    {
        match self {
            MetadataError::TooManyPairs { pairs } => {
                let mut words = "metadata holds ".to_owned();
                text::append_decimal(&mut words, *pairs as u64);
                words.append(" pairs; the API accepts at most ");
                text::append_decimal(&mut words, Metadata::MAX_PAIRS as u64);
                words
            },
            MetadataError::KeyTooLong { key, characters } => {
                let mut words = "metadata key `".to_owned();
                words.append(key.as_str());
                words.append("` is ");
                text::append_decimal(&mut words, *characters as u64);
                words.append(" characters; the API accepts at most ");
                text::append_decimal(&mut words, Metadata::MAX_KEY_CHARACTERS as u64);
                words
            },
            MetadataError::ValueTooLong { key, characters } => {
                let mut words = "the metadata value at `".to_owned();
                words.append(key.as_str());
                words.append("` is ");
                text::append_decimal(&mut words, *characters as u64);
                words.append(" characters; the API accepts at most ");
                text::append_decimal(&mut words, Metadata::MAX_VALUE_CHARACTERS as u64);
                words
            },
        }
    }
}

/// The names and values of pairs.
pub open spec fn pairs_view(pairs: Seq<(String, String)>) -> Seq<(Seq<char>, Seq<char>)> {
    Seq::new(pairs.len(), |i: int| (pairs[i].0@, pairs[i].1@))
}

/// Whether pairs stand in the order of their keys, no key twice.
pub open spec fn sorted(pairs: Seq<(Seq<char>, Seq<char>)>) -> bool {
    forall|i: int, j: int|
        0 <= i < j < pairs.len() ==> text::lex_less(
            (#[trigger] pairs[i]).0,
            (#[trigger] pairs[j]).0,
        )
}

/// The map that pairs make; of two pairs with one key the later stands.
pub open spec fn mapped(pairs: Seq<(Seq<char>, Seq<char>)>) -> Map<Seq<char>, Seq<char>>
    decreases pairs.len(),
{
    if pairs.len() == 0 {
        Map::empty()
    } else {
        mapped(pairs.drop_last()).insert(pairs.last().0, pairs.last().1)
    }
}

/// The first pair that breaks a length limit, as the error it is refused with.
pub open spec fn first_too_long(pairs: Seq<(Seq<char>, Seq<char>)>) -> Option<MetadataErrorView>
    decreases pairs.len(),
{
    if pairs.len() == 0 {
        None
    } else {
        match first_too_long(pairs.drop_last()) {
            Some(error) => Some(error),
            None => {
                let (key, value) = pairs.last();
                if key.len() > Metadata::MAX_KEY_CHARACTERS {
                    Some(MetadataErrorView::KeyTooLong { key, characters: key.len() })
                } else if value.len() > Metadata::MAX_VALUE_CHARACTERS {
                    Some(MetadataErrorView::ValueTooLong { key, characters: value.len() })
                } else {
                    None
                }
            },
        }
    }
}

impl View for Metadata {
    type V = Seq<(Seq<char>, Seq<char>)>;

    closed spec fn view(&self) -> Seq<(Seq<char>, Seq<char>)> {
        pairs_view(self.0@)
    }
}

impl Metadata {
    /// The most pairs the API accepts.
    pub const MAX_PAIRS: usize = 16;

    /// The longest key the API accepts, in characters.
    pub const MAX_KEY_CHARACTERS: usize = 64;

    /// The longest value the API accepts, in characters.
    pub const MAX_VALUE_CHARACTERS: usize = 512;

    /// Whether pairs are what metadata may hold: in key order and within every limit.
    pub open spec fn lawful(pairs: Seq<(Seq<char>, Seq<char>)>) -> bool {
        &&& sorted(pairs)
        &&& pairs.len() <= Metadata::MAX_PAIRS
        &&& first_too_long(pairs) is None
    }

    #[verifier::type_invariant]
    spec fn kept(self) -> bool {
        Metadata::lawful(pairs_view(self.0@))
    }

    /// How many pairs it holds.
    pub fn len(&self) -> (n: usize)
        ensures
            n == self@.len(),
    {
        self.0.len()
    }

    /// Whether it holds none, in which case the field is omitted rather than sent as `{}`.
    pub fn is_empty(&self) -> (r: bool)
        ensures
            r == (self@.len() == 0),
    {
        self.0.len() == 0
    }
}

impl Default for Metadata {
    fn default() -> (metadata: Self)
        ensures
            metadata@ == Seq::<(Seq<char>, Seq<char>)>::empty(),
    {
        let pairs: Vec<(String, String)> = Vec::new();
        assert(pairs_view(pairs@) =~= Seq::<(Seq<char>, Seq<char>)>::empty());
        Metadata(pairs)
    }
}

/// What the map of sorted pairs holds: each pair, and nothing else.
proof fn mapped_holds(pairs: Seq<(Seq<char>, Seq<char>)>)
    requires
        sorted(pairs),
    ensures
        forall|i: int|
            0 <= i < pairs.len() ==> mapped(pairs).dom().contains((#[trigger] pairs[i]).0),
        forall|i: int|
            0 <= i < pairs.len() ==> mapped(pairs)[(#[trigger] pairs[i]).0] == pairs[i].1,
        forall|k: Seq<char>| #[trigger]
            mapped(pairs).dom().contains(k) ==> exists|i: int|
                0 <= i < pairs.len() && (#[trigger] pairs[i]).0 == k,
        mapped(pairs).dom().finite(),
        mapped(pairs).dom().len() == pairs.len(),
    decreases pairs.len(),
{
    if pairs.len() > 0 {
        let before = pairs.drop_last();
        let last = pairs.last();
        mapped_holds(before);
        assert forall|i: int| 0 <= i < before.len() implies (#[trigger] before[i]).0
            != last.0 by {
            assert(text::lex_less(pairs[i].0, pairs[pairs.len() - 1].0));
            text::lex_less_is_irreflexive(last.0);
        }
        assert forall|i: int| 0 <= i < pairs.len() implies mapped(pairs).dom().contains(
            (#[trigger] pairs[i]).0,
        ) && mapped(pairs)[pairs[i].0] == pairs[i].1 by {
            if i < before.len() {
                assert(before[i] == pairs[i]);
            }
        }
        assert forall|k: Seq<char>| #[trigger] mapped(pairs).dom().contains(k) implies exists|
            i: int,
        | 0 <= i < pairs.len() && (#[trigger] pairs[i]).0 == k by {
            if k == last.0 {
                assert(pairs[pairs.len() - 1].0 == k);
            } else {
                assert(mapped(before).dom().contains(k));
                let i = choose|i: int| 0 <= i < before.len() && (#[trigger] before[i]).0 == k;
                assert(pairs[i].0 == k);
            }
        }
        assert(mapped(pairs).dom() =~= mapped(before).dom().insert(last.0));
    } else {
        assert(mapped(pairs).dom() =~= Set::<Seq<char>>::empty());
    }
}

/// Metadata is determined by the map it stands for: pairs given in another order make the
/// same value.
pub proof fn pairs_in_key_order_are_determined_by_their_map(
    a: Seq<(Seq<char>, Seq<char>)>,
    b: Seq<(Seq<char>, Seq<char>)>,
)
    requires
        sorted(a),
        sorted(b),
        mapped(a) == mapped(b),
    ensures
        a == b,
    decreases a.len(),
{
    mapped_holds(a);
    mapped_holds(b);
    if a.len() == 0 {
        assert(a =~= b);
    } else {
        let last_a = a[a.len() - 1];
        let last_b = b[b.len() - 1];
        assert(mapped(b).dom().contains(last_a.0));
        let i = choose|i: int| 0 <= i < b.len() && (#[trigger] b[i]).0 == last_a.0;
        assert(mapped(a).dom().contains(last_b.0));
        let j = choose|j: int| 0 <= j < a.len() && (#[trigger] a[j]).0 == last_b.0;
        if last_a.0 != last_b.0 {
            assert(text::lex_less(b[i].0, last_b.0));
            assert(text::lex_less(a[j].0, last_a.0));
            text::lex_less_is_transitive(last_a.0, last_b.0, last_a.0);
            text::lex_less_is_irreflexive(last_a.0);
        }
        assert(last_a.1 == last_b.1);
        let rest_a = a.drop_last();
        let rest_b = b.drop_last();
        assert(sorted(rest_a));
        assert(sorted(rest_b));
        mapped_holds(rest_a);
        mapped_holds(rest_b);
        assert forall|n: int| 0 <= n < rest_a.len() implies (#[trigger] rest_a[n]).0
            != last_a.0 by {
            assert(text::lex_less(a[n].0, a[a.len() - 1].0));
            text::lex_less_is_irreflexive(last_a.0);
        }
        assert forall|n: int| 0 <= n < rest_b.len() implies (#[trigger] rest_b[n]).0
            != last_b.0 by {
            assert(text::lex_less(b[n].0, b[b.len() - 1].0));
            text::lex_less_is_irreflexive(last_b.0);
        }
        assert(!mapped(rest_a).dom().contains(last_a.0));
        assert(!mapped(rest_b).dom().contains(last_b.0));
        assert(mapped(rest_a) =~= mapped(a).remove(last_a.0));
        assert(mapped(rest_b) =~= mapped(b).remove(last_b.0));
        pairs_in_key_order_are_determined_by_their_map(rest_a, rest_b);
        assert(a =~= rest_a.push(last_a));
        assert(b =~= rest_b.push(last_b));
    }
}

/// Whether every key and value is within its limit.
spec fn all_within(pairs: Seq<(Seq<char>, Seq<char>)>) -> bool {
    forall|i: int|
        0 <= i < pairs.len() ==> (#[trigger] pairs[i]).0.len() <= Metadata::MAX_KEY_CHARACTERS
            && pairs[i].1.len() <= Metadata::MAX_VALUE_CHARACTERS
}

proof fn within_is_not_too_long(pairs: Seq<(Seq<char>, Seq<char>)>)
    requires
        all_within(pairs),
    ensures
        first_too_long(pairs) is None,
    decreases pairs.len(),
{
    if pairs.len() > 0 {
        assert forall|i: int| 0 <= i < pairs.drop_last().len() implies (
        #[trigger] pairs.drop_last()[i]).0.len() <= Metadata::MAX_KEY_CHARACTERS
            && pairs.drop_last()[i].1.len() <= Metadata::MAX_VALUE_CHARACTERS by {
            assert(pairs.drop_last()[i] == pairs[i]);
        }
        within_is_not_too_long(pairs.drop_last());
        assert(pairs[pairs.len() - 1].0.len() <= Metadata::MAX_KEY_CHARACTERS);
    }
}

/// Once a pair was too long, the pairs after it do not change the answer.
proof fn too_long_stays(pairs: Seq<(Seq<char>, Seq<char>)>, n: int)
    requires
        0 <= n <= pairs.len(),
        first_too_long(pairs.take(n)) is Some,
    ensures
        first_too_long(pairs) == first_too_long(pairs.take(n)),
    decreases pairs.len() - n,
{
    if n == pairs.len() {
        assert(pairs.take(n) =~= pairs);
    } else {
        assert(pairs.take(n + 1).drop_last() =~= pairs.take(n));
        too_long_stays(pairs, n + 1);
    }
}

/// Puts a pair in its place among sorted pairs, over any with its key.
fn put_in_order(pairs: &mut Vec<(String, String)>, key: String, value: String)
    requires
        sorted(pairs_view(old(pairs)@)),
        all_within(pairs_view(old(pairs)@)),
        key@.len() <= Metadata::MAX_KEY_CHARACTERS,
        value@.len() <= Metadata::MAX_VALUE_CHARACTERS,
    ensures
        sorted(pairs_view(final(pairs)@)),
        all_within(pairs_view(final(pairs)@)),
        mapped(pairs_view(final(pairs)@)) == mapped(pairs_view(old(pairs)@)).insert(key@, value@),
{
    let ghost before = pairs_view(pairs@);
    let mut i: usize = pairs.len();
    while i > 0 && text::precedes(key.as_str(), pairs[i - 1].0.as_str())
        invariant
            i <= pairs.len(),
            before == pairs_view(pairs@),
            forall|j: int| i <= j < pairs.len() ==> text::lex_less(key@, (#[trigger] before[j]).0),
        decreases i,
    {
        assert(before[i - 1].0 == pairs@[i - 1].0@);
        i -= 1;
    }
    let found = i > 0 && !text::precedes(pairs[i - 1].0.as_str(), key.as_str());
    if found {
        i -= 1;
        proof {
            text::lex_less_is_total(before[i as int].0, key@);
            assert(before[i as int].0 == key@);
        }
        pairs.set(i, (key, value));
    } else {
        proof {
            if i > 0 {
                assert(before[i - 1].0 == pairs@[i - 1].0@);
            }
            assert forall|j: int| 0 <= j < i implies text::lex_less(
                (#[trigger] before[j]).0,
                key@,
            ) by {
                if j < i - 1 {
                    text::lex_less_is_transitive(before[j].0, before[i - 1].0, key@);
                }
            }
        }
        pairs.insert(i, (key, value));
    }
    proof {
        let after = pairs_view(pairs@);
        let at = i as int;
        assert(after[at] == (key@, value@));
        assert forall|a: int, b: int| 0 <= a < b < after.len() implies text::lex_less(
            (#[trigger] after[a]).0,
            (#[trigger] after[b]).0,
        ) by {
            let x = if found || a < at { a } else { a - 1 };
            let y = if found || b < at { b } else { b - 1 };
            if a != at {
                assert(after[a] == before[x]);
            }
            if b != at {
                assert(after[b] == before[y]);
            }
            if found {
                assert(text::lex_less(before[a].0, before[b].0));
            }
        }
        assert forall|n: int| 0 <= n < after.len() implies (#[trigger] after[n]).0.len()
            <= Metadata::MAX_KEY_CHARACTERS && after[n].1.len()
            <= Metadata::MAX_VALUE_CHARACTERS by {
            if n != at {
                let m = if found || n < at { n } else { n - 1 };
                assert(after[n] == before[m]);
            }
        }
        mapped_holds(before);
        mapped_holds(after);
        let wanted = mapped(before).insert(key@, value@);
        assert forall|k: Seq<char>| mapped(after).dom().contains(k) == wanted.dom().contains(k) by {
            if mapped(after).dom().contains(k) {
                let n = choose|n: int| 0 <= n < after.len() && (#[trigger] after[n]).0 == k;
                if n != at {
                    let m = if found || n < at { n } else { n - 1 };
                    assert(after[n] == before[m]);
                }
            }
            if mapped(before).dom().contains(k) {
                let m = choose|m: int| 0 <= m < before.len() && (#[trigger] before[m]).0 == k;
                let n = if found || m < at { m } else { m + 1 };
                assert(after[n] == before[m] || n == at);
                assert(mapped(after).dom().contains(after[n].0));
            }
            assert(mapped(after).dom().contains(after[at].0));
        }
        assert forall|k: Seq<char>| #[trigger] mapped(after).dom().contains(k) implies mapped(
            after,
        )[k] == wanted[k] by {
            let n = choose|n: int| 0 <= n < after.len() && (#[trigger] after[n]).0 == k;
            if n != at {
                let m = if found || n < at { n } else { n - 1 };
                assert(after[n] == before[m]);
                if k == key@ {
                    if n < at {
                        assert(text::lex_less(after[n].0, after[at].0));
                    } else {
                        assert(text::lex_less(after[at].0, after[n].0));
                    }
                    text::lex_less_is_irreflexive(k);
                }
            }
        }
        assert(mapped(after) =~= wanted);
    }
}

impl Metadata {
    /// What offered pairs come to: the first pair over a length limit is refused, then a map
    /// of too many pairs, and otherwise the map is held in key order.
    pub open spec fn admits(
        given: Seq<(Seq<char>, Seq<char>)>,
        outcome: Result<Seq<(Seq<char>, Seq<char>)>, MetadataErrorView>,
    ) -> bool {
        match first_too_long(given) {
            Some(error) => outcome == Err::<Seq<(Seq<char>, Seq<char>)>, MetadataErrorView>(error),
            None => if mapped(given).dom().len() > Metadata::MAX_PAIRS {
                outcome == Err::<Seq<(Seq<char>, Seq<char>)>, MetadataErrorView>(
                    MetadataErrorView::TooManyPairs { pairs: mapped(given).dom().len() },
                )
            } else {
                match outcome {
                    Ok(held) => Metadata::lawful(held) && mapped(held) == mapped(given),
                    Err(_) => false,
                }
            },
        }
    }

    /// Every pair at once, checked against all three documented limits.
    ///
    /// Whole-map rather than one-pair-at-a-time because the pair count is a property of the
    /// map. Of two pairs with one key the later stands.
    pub fn new(pairs: Vec<(String, String)>) -> (outcome: Result<Self, MetadataError>)
        ensures
            Metadata::admits(pairs_view(pairs@), views::result_view(outcome)),
    {
        let ghost given = pairs_view(pairs@);
        let ghost all = pairs@;
        let mut held: Vec<(String, String)> = Vec::new();
        proof {
            assert(pairs_view(held@) =~= Seq::<(Seq<char>, Seq<char>)>::empty());
            assert(given.take(0) =~= Seq::<(Seq<char>, Seq<char>)>::empty());
        }
        for pair in walk: pairs
            invariant
                walk.seq() == all,
                given == pairs_view(all),
                sorted(pairs_view(held@)),
                all_within(pairs_view(held@)),
                mapped(pairs_view(held@)) == mapped(given.take(walk.index() as int)),
                first_too_long(given.take(walk.index() as int)) is None,
        {
            let ghost n = walk.index() as int;
            proof {
                assert(given.take(n + 1).drop_last() =~= given.take(n));
                assert(given.take(n + 1).last() == (pair.0@, pair.1@));
            }
            let (key, value) = pair;
            let characters: usize = key.as_str().unicode_len();
            if characters > Self::MAX_KEY_CHARACTERS {
                proof {
                    too_long_stays(given, n + 1);
                }
                return Err(MetadataError::KeyTooLong { key, characters });
            }
            let characters: usize = value.as_str().unicode_len();
            if characters > Self::MAX_VALUE_CHARACTERS {
                proof {
                    too_long_stays(given, n + 1);
                }
                return Err(MetadataError::ValueTooLong { key, characters });
            }
            put_in_order(&mut held, key, value);
        }
        proof {
            assert(given.take(given.len() as int) =~= given);
            mapped_holds(pairs_view(held@));
            within_is_not_too_long(pairs_view(held@));
        }
        if held.len() > Self::MAX_PAIRS {
            return Err(MetadataError::TooManyPairs { pairs: held.len() });
        }
        Ok(Metadata(held))
    }

    /// The pairs, in key order.
    pub fn pairs(&self) -> (pairs: Vec<(&str, &str)>)
        ensures
            pairs.len() == self@.len(),
            forall|i: int|
                0 <= i < pairs.len() ==> (#[trigger] pairs@[i]).0@ == self@[i].0 && pairs@[i].1@
                    == self@[i].1,
            Metadata::lawful(self@),
    {
        proof {
            use_type_invariant(self);
        }
        let mut pairs: Vec<(&str, &str)> = Vec::new();
        let mut i: usize = 0;
        while i < self.0.len()
            invariant
                i <= self.0.len(),
                pairs.len() == i,
                forall|j: int|
                    0 <= j < i ==> (#[trigger] pairs@[j]).0@ == self.0@[j].0@ && pairs@[j].1@
                        == self.0@[j].1@,
            decreases self.0.len() - i,
        {
            pairs.push((self.0[i].0.as_str(), self.0[i].1.as_str()));
            i += 1;
        }
        pairs
    }

    /// The pairs as they are sent: an object with its fields in key order.
    pub open spec fn wire(pairs: Seq<(Seq<char>, Seq<char>)>) -> JsonView {
        JsonView::Object(
            Seq::new(pairs.len(), |i: int| (pairs[i].0, JsonView::Text(pairs[i].1))),
        )
    }

    /// The pairs as they are sent.
    pub fn to_json(&self) -> (json: Json)
        ensures
            json@ == Metadata::wire(self@),
    {
        let mut fields = no_fields();
        let mut i: usize = 0;
        while i < self.0.len()
            invariant
                i <= self.0.len(),
                json::fields_view(fields@) =~= Seq::new(
                    i as nat,
                    |j: int| (self.0@[j].0@, JsonView::Text(self.0@[j].1@)),
                ),
            decreases self.0.len() - i,
        {
            put(&mut fields, self.0[i].0.as_str(), Json::text(self.0[i].1.as_str()));
            i += 1;
        }
        assert(json::fields_view(fields@) =~= Metadata::wire(self@)->Object_0);
        Json::object(fields)
    }
}

impl Clone for Metadata {
    fn clone(&self) -> (copy: Self)
        ensures
            copy@ == self@,
    {
        proof {
            use_type_invariant(self);
        }
        let mut pairs: Vec<(String, String)> = Vec::new();
        let mut i: usize = 0;
        while i < self.0.len()
            invariant
                i <= self.0.len(),
                pairs.len() == i,
                forall|j: int|
                    0 <= j < i ==> (#[trigger] pairs@[j]).0@ == self.0@[j].0@ && pairs@[j].1@
                        == self.0@[j].1@,
            decreases self.0.len() - i,
        {
            let key = self.0[i].0.clone();
            let value = self.0[i].1.clone();
            pairs.push((key, value));
            i += 1;
        }
        assert(pairs_view(pairs@) =~= pairs_view(self.0@));
        Metadata(pairs)
    }
}

/// Whether no key stands twice.
pub open spec fn keys_are_distinct(pairs: Seq<(Seq<char>, Seq<char>)>) -> bool {
    forall|i: int, j: int|
        0 <= i < j < pairs.len() ==> (#[trigger] pairs[i]).0 != (#[trigger] pairs[j]).0
}

/// What the map of pairs with distinct keys holds: each pair, and nothing else.
proof fn distinct_pairs_are_all_mapped(pairs: Seq<(Seq<char>, Seq<char>)>)
    requires
        keys_are_distinct(pairs),
    ensures
        forall|k: Seq<char>, v: Seq<char>|
            pairs.contains((k, v)) <==> #[trigger] mapped(pairs).contains_pair(k, v),
    decreases pairs.len(),
{
    if pairs.len() > 0 {
        let before = pairs.drop_last();
        let last = pairs.last();
        assert forall|i: int, j: int| 0 <= i < j < before.len() implies (#[trigger] before[i]).0
            != (#[trigger] before[j]).0 by {
            assert(before[i] == pairs[i] && before[j] == pairs[j]);
        }
        distinct_pairs_are_all_mapped(before);
        assert forall|k: Seq<char>, v: Seq<char>|
            pairs.contains((k, v)) <==> #[trigger] mapped(pairs).contains_pair(k, v) by {
            if pairs.contains((k, v)) {
                let i = choose|i: int| 0 <= i < pairs.len() && pairs[i] == (k, v);
                if i < before.len() {
                    assert(before[i] == (k, v));
                    assert(before.contains((k, v)));
                    assert(mapped(before).contains_pair(k, v));
                    assert(pairs[i].0 != pairs[pairs.len() - 1].0);
                }
            }
            if mapped(pairs).contains_pair(k, v) {
                if k == last.0 {
                    assert(pairs[pairs.len() - 1] == (k, v));
                } else {
                    assert(mapped(before).contains_pair(k, v));
                    let i = choose|i: int| 0 <= i < before.len() && before[i] == (k, v);
                    assert(pairs[i] == (k, v));
                }
            }
        }
    }
}

/// Metadata made of the same pairs in another order is the same metadata.
pub proof fn the_order_of_pairs_does_not_matter(
    a: Seq<(Seq<char>, Seq<char>)>,
    b: Seq<(Seq<char>, Seq<char>)>,
    made_of_a: Seq<(Seq<char>, Seq<char>)>,
    made_of_b: Seq<(Seq<char>, Seq<char>)>,
)
    requires
        keys_are_distinct(a),
        keys_are_distinct(b),
        forall|pair: (Seq<char>, Seq<char>)| a.contains(pair) <==> #[trigger] b.contains(pair),
        Metadata::admits(a, Ok(made_of_a)),
        Metadata::admits(b, Ok(made_of_b)),
    ensures
        made_of_a == made_of_b,
{
    distinct_pairs_are_all_mapped(a);
    distinct_pairs_are_all_mapped(b);
    assert forall|k: Seq<char>| #[trigger] mapped(a).dom().contains(k) implies mapped(
        b,
    ).dom().contains(k) && mapped(a)[k] == mapped(b)[k] by {
        assert(mapped(a).contains_pair(k, mapped(a)[k]));
        assert(b.contains((k, mapped(a)[k])));
        assert(mapped(b).contains_pair(k, mapped(a)[k]));
    }
    assert forall|k: Seq<char>| #[trigger] mapped(b).dom().contains(k) implies mapped(
        a,
    ).dom().contains(k) by {
        assert(mapped(b).contains_pair(k, mapped(b)[k]));
        assert(b.contains((k, mapped(b)[k])));
        assert(mapped(a).contains_pair(k, mapped(b)[k]));
    }
    assert(mapped(a) =~= mapped(b));
    pairs_in_key_order_are_determined_by_their_map(made_of_a, made_of_b);
}

} // verus!
