//! A map keyed by strings, kept as a list of entries whose keys are pairwise
//! distinct. Its model is the map obtained by inserting the entries in order,
//! which is also what collecting `(key, value)` pairs into a hash map gives:
//! for a repeated key, the last pair wins.
use vstd::prelude::*;
use crate::text::str_eq;

verus! {

/// The map obtained by inserting the pairs one after another, the last pair
/// for a key winning.
pub open spec fn pairs_to_map<K, W>(pairs: Seq<(K, W)>) -> Map<K, W>
    decreases pairs.len(),
{
    if pairs.len() == 0 {
        Map::empty()
    } else {
        pairs_to_map(pairs.drop_last()).insert(pairs.last().0, pairs.last().1)
    }
}

/// Keys of the pairs are pairwise distinct.
pub open spec fn distinct_keys<K, W>(pairs: Seq<(K, W)>) -> bool {
    forall|i: int, j: int|
        0 <= i < pairs.len() && 0 <= j < pairs.len() && i != j ==> #[trigger] pairs[i].0
            != #[trigger] pairs[j].0
}

/// The entries of a string-keyed list, keys and values taken by their deep views.
pub open spec fn deep_pairs<V: DeepView>(entries: Seq<(String, V)>) -> Seq<(Seq<char>, V::V)> {
    entries.map_values(|e: (String, V)| (e.0@, e.1.deep_view()))
}

/// A key is in the map built from pairs exactly when some pair carries it.
pub proof fn lemma_pairs_to_map_dom<K, W>(pairs: Seq<(K, W)>, k: K)
    ensures
        pairs_to_map(pairs).dom().contains(k) <==> exists|i: int|
            0 <= i < pairs.len() && #[trigger] pairs[i].0 == k,
    decreases pairs.len(),
{
    if pairs.len() > 0 {
        let init = pairs.drop_last();
        lemma_pairs_to_map_dom(init, k);
        if pairs_to_map(pairs).dom().contains(k) && pairs.last().0 != k {
            let i = choose|i: int| 0 <= i < init.len() && #[trigger] init[i].0 == k;
            assert(pairs[i].0 == k);
        }
        if exists|i: int| 0 <= i < pairs.len() && #[trigger] pairs[i].0 == k {
            let i = choose|i: int| 0 <= i < pairs.len() && #[trigger] pairs[i].0 == k;
            if i < pairs.len() - 1 {
                assert(init[i].0 == k);
            }
        }
    }
}

/// With distinct keys, each pair's key maps to that pair's value.
pub proof fn lemma_pairs_to_map_value<K, W>(pairs: Seq<(K, W)>, i: int)
    requires
        distinct_keys(pairs),
        0 <= i < pairs.len(),
    ensures
        pairs_to_map(pairs).dom().contains(pairs[i].0),
        pairs_to_map(pairs)[pairs[i].0] == pairs[i].1,
    decreases pairs.len(),
{
    let init = pairs.drop_last();
    if i < pairs.len() - 1 {
        assert(init[i] == pairs[i]);
        assert(distinct_keys(init)) by {
            assert forall|a: int, b: int|
                0 <= a < init.len() && 0 <= b < init.len() && a != b implies #[trigger] init[a].0
                != #[trigger] init[b].0 by {
                assert(init[a] == pairs[a] && init[b] == pairs[b]);
            }
        }
        lemma_pairs_to_map_value(init, i);
        assert(pairs[pairs.len() - 1].0 != pairs[i].0);
    }
}

/// With distinct keys, overwriting the value of the pair at `i` is inserting
/// that key with the new value.
pub proof fn lemma_pairs_to_map_update<K, W>(pairs: Seq<(K, W)>, i: int, w: W)
    requires
        distinct_keys(pairs),
        0 <= i < pairs.len(),
    ensures
        pairs_to_map(pairs.update(i, (pairs[i].0, w))) == pairs_to_map(pairs).insert(
            pairs[i].0,
            w,
        ),
    decreases pairs.len(),
{
    let k = pairs[i].0;
    let upd = pairs.update(i, (k, w));
    let init = pairs.drop_last();
    if i == pairs.len() - 1 {
        assert(upd.drop_last() =~= init);
        assert(pairs_to_map(upd) =~= pairs_to_map(pairs).insert(k, w));
    } else {
        assert(distinct_keys(init)) by {
            assert forall|a: int, b: int|
                0 <= a < init.len() && 0 <= b < init.len() && a != b implies #[trigger] init[a].0
                != #[trigger] init[b].0 by {
                assert(init[a] == pairs[a] && init[b] == pairs[b]);
            }
        }
        assert(init[i] == pairs[i]);
        lemma_pairs_to_map_update(init, i, w);
        assert(upd.drop_last() =~= init.update(i, (k, w)));
        assert(upd.last() == pairs.last());
        assert(pairs.last().0 != k);
        assert(pairs_to_map(upd) =~= pairs_to_map(pairs).insert(k, w));
    }
}

/// A map from strings to values, as collected from `(key, value)` pairs.
#[derive(Debug)]
pub struct StringMap<V: DeepView> {
    entries: Vec<(String, V)>,
}

impl<V: DeepView> View for StringMap<V> {
    type V = Map<Seq<char>, V::V>;

    closed spec fn view(&self) -> Map<Seq<char>, V::V> {
        pairs_to_map(deep_pairs(self.entries@))
    }
}

impl<V: DeepView> StringMap<V> {
    #[verifier::type_invariant]
    spec fn keys_distinct(self) -> bool {
        distinct_keys(deep_pairs(self.entries@))
    }

    /// The entries in the order in which they are stored.
    pub closed spec fn entry_seq(self) -> Seq<(Seq<char>, V::V)> {
        deep_pairs(self.entries@)
    }

    /// The stored entries determine the map.
    pub proof fn lemma_entries(self)
        ensures
            self@ == pairs_to_map(self.entry_seq()),
    {
    }

    /// An empty map.
    pub fn new() -> (m: Self)
        ensures
            m@ == Map::<Seq<char>, V::V>::empty(),
            m.entry_seq().len() == 0,
    {
        let m = StringMap { entries: Vec::new() };
        assert(deep_pairs(m.entries@) =~= Seq::empty());
        m
    }

    /// The position of the entry stored under `key`, if any.
    fn find(&self, key: &str) -> (r: Option<usize>)
        ensures
            r matches Some(i) ==> i < self.entries@.len() && self.entries@[i as int].0@ == key@,
            r is None ==> forall|i: int|
                0 <= i < self.entries@.len() ==> #[trigger] self.entries@[i].0@ != key@,
    {
        let mut i: usize = 0;
        while i < self.entries.len()
            invariant
                i <= self.entries@.len(),
                forall|j: int| 0 <= j < i ==> #[trigger] self.entries@[j].0@ != key@,
            decreases self.entries@.len() - i,
        {
            if str_eq(self.entries[i].0.as_str(), key) {
                return Some(i);
            }
            i = i + 1;
        }
        None
    }

    /// Inserts `value` under `key`, replacing what was stored there.
    pub fn insert(&mut self, key: String, value: V)
        ensures
            final(self)@ == old(self)@.insert(key@, value.deep_view()),
    {
        proof {
            use_type_invariant(&*self);
        }
        let ghost old_pairs = deep_pairs(self.entries@);
        match self.find(key.as_str()) {
            Some(i) => {
                let ghost k = key@;
                let ghost w = value.deep_view();
                proof {
                    lemma_pairs_to_map_update(old_pairs, i as int, w);
                }
                let mut entries: Vec<(String, V)> = Vec::new();
                std::mem::swap(&mut entries, &mut self.entries);
                entries.set(i, (key, value));
                assert(deep_pairs(entries@) =~= old_pairs.update(i as int, (k, w)));
                assert(distinct_keys(deep_pairs(entries@))) by {
                    assert forall|a: int, b: int|
                        0 <= a < entries@.len() && 0 <= b < entries@.len() && a != b implies
                        #[trigger] deep_pairs(entries@)[a].0 != #[trigger] deep_pairs(entries@)[b].0 by {
                        assert(old_pairs[a].0 == deep_pairs(entries@)[a].0);
                        assert(old_pairs[b].0 == deep_pairs(entries@)[b].0);
                    }
                }
                self.entries = entries;
            },
            None => {
                let ghost k = key@;
                let ghost w = value.deep_view();
                let mut entries: Vec<(String, V)> = Vec::new();
                std::mem::swap(&mut entries, &mut self.entries);
                entries.push((key, value));
                assert(deep_pairs(entries@) =~= old_pairs.push((k, w)));
                assert(deep_pairs(entries@).drop_last() =~= old_pairs);
                assert(distinct_keys(deep_pairs(entries@))) by {
                    assert forall|a: int, b: int|
                        0 <= a < entries@.len() && 0 <= b < entries@.len() && a != b implies
                        #[trigger] deep_pairs(entries@)[a].0 != #[trigger] deep_pairs(entries@)[b].0 by {
                        if a < old_pairs.len() {
                            assert(old_pairs[a].0 == deep_pairs(entries@)[a].0);
                        }
                        if b < old_pairs.len() {
                            assert(old_pairs[b].0 == deep_pairs(entries@)[b].0);
                        }
                    }
                }
                self.entries = entries;
            },
        }
    }

    /// The value stored under `key`, if any.
    pub fn get(&self, key: &str) -> (r: Option<&V>)
        ensures
            r is Some <==> self@.dom().contains(key@),
            r matches Some(v) ==> v.deep_view() == self@[key@],
    {
        proof {
            use_type_invariant(self);
            lemma_pairs_to_map_dom(deep_pairs(self.entries@), key@);
        }
        match self.find(key) {
            Some(i) => {
                proof {
                    lemma_pairs_to_map_value(deep_pairs(self.entries@), i as int);
                }
                Some(&self.entries[i].1)
            },
            None => {
                proof {
                    if self@.dom().contains(key@) {
                        let j = choose|j: int|
                            0 <= j < deep_pairs(self.entries@).len()
                                && #[trigger] deep_pairs(self.entries@)[j].0 == key@;
                        assert(self.entries@[j].0@ == key@);
                    }
                }
                None
            },
        }
    }

    /// The stored entries, in the order of `entry_seq`.
    pub fn entries(&self) -> (r: &Vec<(String, V)>)
        ensures
            deep_pairs(r@) == self.entry_seq(),
            distinct_keys(self.entry_seq()),
    {
        proof {
            use_type_invariant(self);
        }
        &self.entries
    }
}

} // verus!
