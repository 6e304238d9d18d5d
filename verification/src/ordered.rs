//! A map that keeps its keys in order.
//!
//! The keys are few and arrive mostly in order, so the entries stand in one list, sorted,
//! and a place in it is looked for from the end.
use vstd::prelude::*;

verus! {

/// A key with a place in a total order.
pub trait Ranked: Copy {
    /// The key's place.
    spec fn rank(self) -> nat;

    /// Two keys with one place are one key.
    proof fn rank_is_one_to_one(a: Self, b: Self)
        requires
            a.rank() == b.rank(),
        ensures
            a == b,
    ;

    /// Whether this key comes before another.
    fn before(&self, other: &Self) -> (less: bool)
        ensures
            less == (self.rank() < other.rank()),
    ;
}

impl Ranked for u32 {
    open spec fn rank(self) -> nat {
        self as nat
    }

    proof fn rank_is_one_to_one(a: Self, b: Self) {
    }

    fn before(&self, other: &Self) -> (less: bool) {
        *self < *other
    }
}

/// Whether keys stand in order, none twice.
pub open spec fn increasing<K: Ranked>(keys: Seq<K>) -> bool {
    forall|i: int, j: int|
        0 <= i < j < keys.len() ==> (#[trigger] keys[i]).rank() < (#[trigger] keys[j]).rank()
}

/// Whether a list holds exactly the keys of a set, in order.
pub open spec fn lists<K: Ranked>(keys: Seq<K>, of: Set<K>) -> bool {
    &&& increasing(keys)
    &&& forall|k: K| #[trigger] of.contains(k) ==> keys.contains(k)
    &&& forall|i: int| 0 <= i < keys.len() ==> of.contains(#[trigger] keys[i])
}

/// The keys of a set, in order.
pub open spec fn in_order<K: Ranked>(of: Set<K>) -> Seq<K> {
    choose|keys: Seq<K>| lists(keys, of)
}

/// A set has one list of its keys in order.
pub proof fn order_is_unique<K: Ranked>(a: Seq<K>, b: Seq<K>, of: Set<K>)
    requires
        lists(a, of),
        lists(b, of),
    ensures
        a == b,
    decreases a.len(),
{
    if a.len() == 0 {
        if b.len() > 0 {
            assert(of.contains(b[0]));
            assert(a.contains(b[0]));
        }
        assert(a =~= b);
    } else {
        assert(of.contains(a.last()));
        let i = choose|i: int| 0 <= i < b.len() && b[i] == a.last();
        assert(of.contains(b.last()));
        let j = choose|j: int| 0 <= j < a.len() && a[j] == b.last();
        assert(a[j].rank() <= a.last().rank());
        assert(b[i].rank() <= b.last().rank());
        K::rank_is_one_to_one(a.last(), b.last());
        let rest = of.remove(a.last());
        assert forall|k: K| #[trigger] rest.contains(k) implies a.drop_last().contains(k) by {
            let n = choose|n: int| 0 <= n < a.len() && a[n] == k;
            assert(a.drop_last()[n] == k);
        }
        assert forall|k: K| #[trigger] rest.contains(k) implies b.drop_last().contains(k) by {
            let n = choose|n: int| 0 <= n < b.len() && b[n] == k;
            assert(b.drop_last()[n] == k);
        }
        assert(lists(a.drop_last(), rest)) by {
            assert forall|n: int| 0 <= n < a.drop_last().len() implies rest.contains(
                #[trigger] a.drop_last()[n],
            ) by {
                assert(of.contains(a[n]));
                assert(a[n].rank() < a.last().rank());
            }
        }
        assert(lists(b.drop_last(), rest)) by {
            assert forall|n: int| 0 <= n < b.drop_last().len() implies rest.contains(
                #[trigger] b.drop_last()[n],
            ) by {
                assert(of.contains(b[n]));
                assert(b[n].rank() < b.last().rank());
            }
        }
        order_is_unique(a.drop_last(), b.drop_last(), rest);
        assert(a =~= a.drop_last().push(a.last()));
        assert(b =~= b.drop_last().push(b.last()));
    }
}

/// The list of a set's keys in order is [`in_order`] of the set.
pub proof fn listed<K: Ranked>(keys: Seq<K>, of: Set<K>)
    requires
        lists(keys, of),
    ensures
        in_order(of) == keys,
{
    order_is_unique(keys, in_order(of), of);
}

/// A list of keys with one more key put in its place.
pub open spec fn with_key<K: Ranked>(keys: Seq<K>, key: K) -> Seq<K>
    decreases keys.len(),
{
    if keys.len() == 0 {
        seq![key]
    } else if keys.last().rank() < key.rank() {
        keys.push(key)
    } else if keys.last() == key {
        keys
    } else {
        with_key(keys.drop_last(), key).push(keys.last())
    }
}

/// Putting a key in its place lists the set with that key.
pub proof fn with_key_lists<K: Ranked>(keys: Seq<K>, of: Set<K>, key: K)
    requires
        lists(keys, of),
    ensures
        lists(with_key(keys, key), of.insert(key)),
        in_order(of.insert(key)) == with_key(keys, key),
    decreases keys.len(),
{
    let more = with_key(keys, key);
    let wider = of.insert(key);
    if keys.len() == 0 {
        assert(more[0] == key);
    } else if keys.last().rank() < key.rank() {
        assert forall|k: K| #[trigger] wider.contains(k) implies more.contains(k) by {
            if k == key {
                assert(more.last() == key);
            } else {
                let n = choose|n: int| 0 <= n < keys.len() && keys[n] == k;
                assert(more[n] == k);
            }
        }
    } else if keys.last() == key {
        assert(wider =~= of);
    } else {
        let last = keys.last();
        let rest = of.remove(last);
        assert(lists(keys.drop_last(), rest)) by {
            assert forall|k: K| #[trigger] rest.contains(k) implies keys.drop_last().contains(
                k,
            ) by {
                let n = choose|n: int| 0 <= n < keys.len() && keys[n] == k;
                assert(keys.drop_last()[n] == k);
            }
            assert forall|n: int| 0 <= n < keys.drop_last().len() implies rest.contains(
                #[trigger] keys.drop_last()[n],
            ) by {
                assert(of.contains(keys[n]));
                assert(keys[n].rank() < last.rank());
            }
        }
        with_key_lists(keys.drop_last(), rest, key);
        let inner = with_key(keys.drop_last(), key);
        if last.rank() == key.rank() {
            K::rank_is_one_to_one(last, key);
        }
        assert forall|n: int| 0 <= n < inner.len() implies (#[trigger] inner[n]).rank()
            < last.rank() by {
            assert(rest.insert(key).contains(inner[n]));
            if inner[n] != key {
                let m = choose|m: int| 0 <= m < keys.len() && keys[m] == inner[n];
                assert(keys[m].rank() < last.rank());
            }
        }
        assert forall|k: K| #[trigger] wider.contains(k) implies more.contains(k) by {
            if k == last {
                assert(more.last() == last);
            } else {
                assert(rest.insert(key).contains(k));
                let n = choose|n: int| 0 <= n < inner.len() && inner[n] == k;
                assert(more[n] == k);
            }
        }
        assert forall|n: int| 0 <= n < more.len() implies wider.contains(#[trigger] more[n]) by {
            if n < inner.len() {
                assert(rest.insert(key).contains(inner[n]));
            } else {
                assert(of.contains(last));
            }
        }
    }
    listed(more, wider);
}

/// A map from keys to values, with its keys in order.
#[derive(Debug, PartialEq, Eq)]
pub struct OrderedMap<K: Ranked, V> {
    entries: Vec<(K, V)>,
}

spec fn keys_of<K: Ranked, V>(entries: Seq<(K, V)>) -> Seq<K> {
    entries.map_values(|entry: (K, V)| entry.0)
}

spec fn map_of<K: Ranked, V>(entries: Seq<(K, V)>) -> Map<K, V> {
    Map::new(
        |k: K| keys_of(entries).contains(k),
        |k: K| entries[choose|i: int| 0 <= i < entries.len() && (#[trigger] entries[i]).0 == k].1,
    )
}

proof fn entry_in_map<K: Ranked, V>(entries: Seq<(K, V)>, i: int)
    requires
        increasing(keys_of(entries)),
        0 <= i < entries.len(),
    ensures
        map_of(entries).dom().contains(entries[i].0),
        map_of(entries)[entries[i].0] == entries[i].1,
{
    let k = entries[i].0;
    assert(keys_of(entries)[i] == k);
    let j = choose|j: int| 0 <= j < entries.len() && (#[trigger] entries[j]).0 == k;
    assert(keys_of(entries)[j] == k);
    assert(i == j);
}

proof fn keys_listed<K: Ranked, V>(entries: Seq<(K, V)>)
    requires
        increasing(keys_of(entries)),
    ensures
        lists(keys_of(entries), map_of(entries).dom()),
        in_order(map_of(entries).dom()) == keys_of(entries),
{
    let keys = keys_of(entries);
    assert forall|i: int| 0 <= i < keys.len() implies map_of(entries).dom().contains(
        #[trigger] keys[i],
    ) by {
        entry_in_map(entries, i);
    }
    listed(keys, map_of(entries).dom());
}

impl<K: Ranked, V> View for OrderedMap<K, V> {
    type V = Map<K, V>;

    closed spec fn view(&self) -> Map<K, V> {
        map_of(self.entries@)
    }
}

/// Where a key stands, or where it belongs.
fn locate<K: Ranked, V>(entries: &Vec<(K, V)>, key: &K) -> (place: (usize, bool))
    requires
        increasing(keys_of(entries@)),
    ensures
        place.0 <= entries.len(),
        place.1 ==> place.0 < entries.len() && entries@[place.0 as int].0 == *key,
        !place.1 ==> forall|j: int|
            0 <= j < place.0 ==> (#[trigger] entries@[j]).0.rank() < key.rank(),
        !place.1 ==> forall|j: int|
            place.0 <= j < entries.len() ==> key.rank() < (#[trigger] entries@[j]).0.rank(),
{
    let mut i: usize = entries.len();
    while i > 0 && key.before(&entries[i - 1].0)
        invariant
            i <= entries.len(),
            forall|j: int| i <= j < entries.len() ==> key.rank() < (#[trigger] entries@[j]).0.rank(),
        decreases i,
    {
        i -= 1;
    }
    if i > 0 {
        if !entries[i - 1].0.before(key) {
            proof {
                K::rank_is_one_to_one(entries@[i - 1].0, *key);
            }
            return (i - 1, true);
        }
        assert forall|j: int| 0 <= j < i implies (#[trigger] entries@[j]).0.rank()
            < key.rank() by {
            assert(keys_of(entries@)[j] == entries@[j].0);
            assert(keys_of(entries@)[i - 1] == entries@[i - 1].0);
        }
    }
    (i, false)
}

impl<K: Ranked, V> OrderedMap<K, V> {
    #[verifier::type_invariant]
    spec fn sorted(self) -> bool {
        increasing(keys_of(self.entries@))
    }

    /// A map with nothing in it.
    pub fn new() -> (map: Self)
        ensures
            map@ == Map::<K, V>::empty(),
    {
        let map = Self { entries: Vec::new() };
        assert(map@ =~= Map::<K, V>::empty());
        map
    }

    /// The value at a key.
    pub fn get(&self, key: &K) -> (value: Option<&V>)
        ensures
            match value {
                Some(value) => self@.dom().contains(*key) && self@[*key] == *value,
                None => !self@.dom().contains(*key),
            },
    {
        proof {
            use_type_invariant(self);
        }
        let (i, found) = locate(&self.entries, key);
        if found {
            proof {
                entry_in_map(self.entries@, i as int);
            }
            Some(&self.entries[i].1)
        } else {
            assert forall|n: int| 0 <= n < self.entries.len() implies keys_of(self.entries@)[n]
                != *key by {
                assert(keys_of(self.entries@)[n] == self.entries@[n].0);
            }
            None
        }
    }

    /// Puts a value at a key, in place of any that stood there.
    pub fn insert(&mut self, key: K, value: V)
        ensures
            final(self)@ == old(self)@.insert(key, value),
    {
        proof {
            use_type_invariant(&*self);
        }
        let mut entries: Vec<(K, V)> = Vec::new();
        std::mem::swap(&mut entries, &mut self.entries);
        let ghost before = entries@;
        let (i, found) = locate(&entries, &key);
        if found {
            entries.set(i, (key, value));
        } else {
            entries.insert(i, (key, value));
        }
        proof {
            let after = entries@;
            assert(after[i as int] == (key, value));
            assert(increasing(keys_of(after))) by {
                assert forall|a: int, b: int| 0 <= a < b < keys_of(after).len() implies (
                #[trigger] keys_of(after)[a]).rank() < (#[trigger] keys_of(after)[b]).rank() by {
                    let x = if found || a < i { a } else { a - 1 };
                    let y = if found || b < i { b } else { b - 1 };
                    if found {
                        assert(keys_of(after) =~= keys_of(before));
                    } else {
                        if a != i {
                            assert(after[a] == before[x]);
                            assert(keys_of(before)[x] == before[x].0);
                        }
                        if b != i {
                            assert(after[b] == before[y]);
                            assert(keys_of(before)[y] == before[y].0);
                        }
                    }
                }
            }
            assert forall|k: K|
                map_of(after).dom().contains(k) == map_of(before).insert(key, value).dom().contains(
                    k,
                ) by {
                if keys_of(after).contains(k) {
                    let n = choose|n: int| 0 <= n < keys_of(after).len() && keys_of(after)[n] == k;
                    if n != i {
                        let m = if found || n < i { n } else { n - 1 };
                        assert(after[n] == before[m]);
                        assert(keys_of(before)[m] == k);
                    }
                }
                if keys_of(before).contains(k) {
                    let m = choose|m: int|
                        0 <= m < keys_of(before).len() && keys_of(before)[m] == k;
                    let n = if found || m < i { m } else { m + 1 };
                    assert(after[n] == before[m] || n == i);
                    assert(keys_of(after)[n] == k);
                }
                if k == key {
                    assert(keys_of(after)[i as int] == key);
                }
            }
            assert forall|k: K| map_of(after).dom().contains(k) implies #[trigger] map_of(
                after,
            )[k] == map_of(before).insert(key, value)[k] by {
                let n = choose|n: int| 0 <= n < keys_of(after).len() && keys_of(after)[n] == k;
                entry_in_map(after, n);
                if n != i {
                    let m = if found || n < i { n } else { n - 1 };
                    assert(after[n] == before[m]);
                    entry_in_map(before, m);
                    assert(keys_of(after)[i as int] == key);
                    assert(k != key);
                }
            }
            assert(map_of(after) =~= map_of(before).insert(key, value));
        }
        self.entries = entries;
    }

    /// How many keys the map has.
    pub fn len(&self) -> (n: usize)
        ensures
            n == in_order(self@.dom()).len(),
            lists(in_order(self@.dom()), self@.dom()),
    {
        proof {
            use_type_invariant(self);
            keys_listed(self.entries@);
        }
        self.entries.len()
    }

    /// The key at a place in the order, and its value.
    pub fn at(&self, i: usize) -> (entry: (&K, &V))
        requires
            i < in_order(self@.dom()).len(),
        ensures
            *entry.0 == in_order(self@.dom())[i as int],
            self@.dom().contains(*entry.0),
            *entry.1 == self@[*entry.0],
    {
        proof {
            use_type_invariant(self);
            keys_listed(self.entries@);
            entry_in_map(self.entries@, i as int);
        }
        (&self.entries[i].0, &self.entries[i].1)
    }
}

impl<K: Ranked, V> OrderedMap<K, V> {
    /// The values, in the order of their keys.
    pub fn into_values(self) -> (values: Vec<V>)
        ensures
            values.len() == in_order(self@.dom()).len(),
            forall|i: int|
                0 <= i < values.len() ==> #[trigger] values@[i] == self@[in_order(
                    self@.dom(),
                )[i]],
            lists(in_order(self@.dom()), self@.dom()),
    {
        proof {
            use_type_invariant(&self);
            keys_listed(self.entries@);
            assert forall|i: int| 0 <= i < self.entries.len() implies self@[keys_of(
                self.entries@,
            )[i]] == (#[trigger] self.entries@[i]).1 by {
                entry_in_map(self.entries@, i);
            }
        }
        let ghost all = self.entries@;
        let ghost map = self@;
        let mut values: Vec<V> = Vec::new();
        for entry in walk: self.entries
            invariant
                walk.seq() == all,
                values.len() == walk.index(),
                forall|i: int| 0 <= i < values.len() ==> #[trigger] values@[i] == all[i].1,
        {
            let (_, value) = entry;
            values.push(value);
        }
        values
    }
}

/// The text at a key, the empty one where the map has no such key.
pub open spec fn text_at<K: Ranked>(map: Map<K, String>, key: K) -> Seq<char> {
    if map.dom().contains(key) {
        map[key]@
    } else {
        Seq::empty()
    }
}

impl<K: Ranked> OrderedMap<K, String> {
    /// Appends to the text at a key, in place, from the empty text where there is none.
    pub fn append(&mut self, key: K, more: &str)
        ensures
            final(self)@ == old(self)@.insert(key, final(self)@[key]),
            final(self)@[key]@ == text_at(old(self)@, key) + more@,
    {
        proof {
            use_type_invariant(&*self);
        }
        let ghost map = self@;
        let mut entries: Vec<(K, String)> = Vec::new();
        std::mem::swap(&mut entries, &mut self.entries);
        let ghost before = entries@;
        let (i, found) = locate(&entries, &key);
        if found {
            let entry = &mut entries[i];
            entry.1.append(more);
            proof {
                let after = entries@;
                assert(keys_of(after) =~= keys_of(before));
                assert forall|k: K| #[trigger] map_of(after).dom().contains(k) implies map_of(
                    after,
                )[k] == map_of(before).insert(key, after[i as int].1)[k] by {
                    let n = choose|n: int| 0 <= n < keys_of(after).len() && keys_of(after)[n] == k;
                    entry_in_map(after, n);
                    entry_in_map(before, n);
                    assert(keys_of(after)[i as int] == key);
                }
                entry_in_map(before, i as int);
                entry_in_map(after, i as int);
                assert(map_of(after) =~= map_of(before).insert(key, after[i as int].1));
            }
            self.entries = entries;
        } else {
            self.entries = entries;
            proof {
                assert forall|n: int| 0 <= n < self.entries.len() implies keys_of(
                    self.entries@,
                )[n] != key by {
                    assert(keys_of(self.entries@)[n] == self.entries@[n].0);
                }
                assert(!map.dom().contains(key));
                assert(Seq::<char>::empty() + more@ =~= more@);
            }
            self.insert(key, more.to_owned());
        }
    }
}

impl<K: Ranked, V: Clone> Clone for OrderedMap<K, V> {
    fn clone(&self) -> (copy: Self)
        ensures
            copy@.dom() == self@.dom(),
            forall|k: K| #[trigger]
                self@.dom().contains(k) ==> cloned::<V>(self@[k], copy@[k]),
    {
        proof {
            use_type_invariant(self);
        }
        let mut entries: Vec<(K, V)> = Vec::new();
        let mut i: usize = 0;
        while i < self.entries.len()
            invariant
                i <= self.entries.len(),
                entries.len() == i,
                forall|j: int|
                    0 <= j < i ==> (#[trigger] entries@[j]).0 == self.entries@[j].0 && cloned::<V>(
                        self.entries@[j].1,
                        entries@[j].1,
                    ),
            decreases self.entries.len() - i,
        {
            let value = self.entries[i].1.clone();
            entries.push((self.entries[i].0, value));
            i += 1;
        }
        assert(keys_of(entries@) =~= keys_of(self.entries@));
        assert forall|k: K| #[trigger] map_of(self.entries@).dom().contains(k) implies cloned::<V>(
            map_of(self.entries@)[k],
            map_of(entries@)[k],
        ) by {
            let n = choose|n: int|
                0 <= n < keys_of(entries@).len() && keys_of(entries@)[n] == k;
            entry_in_map(entries@, n);
            entry_in_map(self.entries@, n);
        }
        assert(map_of(entries@).dom() =~= map_of(self.entries@).dom());
        Self { entries }
    }
}

} // verus!
