//! A small map from strings to strings, kept as a list of entries with
//! distinct keys. It backs the query parameters and the request headers.
use vstd::prelude::*;

verus! {

/// The text of each entry of a list of string pairs.
pub open spec fn pair_views(pairs: Seq<(String, String)>) -> Seq<(Seq<char>, Seq<char>)> {
    pairs.map_values(|p: (String, String)| (p.0@, p.1@))
}

/// The map that results from inserting the pairs one after the other: a
/// later pair replaces an earlier one with the same key.
pub open spec fn pairs_to_map(pairs: Seq<(Seq<char>, Seq<char>)>) -> Map<Seq<char>, Seq<char>>
    decreases pairs.len(),
{
    if pairs.len() == 0 {
        Map::empty()
    } else {
        pairs_to_map(pairs.drop_last()).insert(pairs.last().0, pairs.last().1)
    }
}

/// No key occurs twice in the list.
pub open spec fn keys_distinct(pairs: Seq<(Seq<char>, Seq<char>)>) -> bool {
    forall|i: int, j: int|
        0 <= i < pairs.len() && 0 <= j < pairs.len() && i != j ==> #[trigger] pairs[i].0
            != #[trigger] pairs[j].0
}

/// A key is found in the map of a list exactly when some entry has it.
pub proof fn lemma_pairs_to_map_contains(pairs: Seq<(Seq<char>, Seq<char>)>, k: Seq<char>)
    ensures
        pairs_to_map(pairs).contains_key(k) <==> exists|i: int|
            0 <= i < pairs.len() && #[trigger] pairs[i].0 == k,
    decreases pairs.len(),
{
    if pairs.len() > 0 {
        let init = pairs.drop_last();
        lemma_pairs_to_map_contains(init, k);
        if pairs_to_map(pairs).contains_key(k) && pairs.last().0 != k {
            let i = choose|i: int| 0 <= i < init.len() && #[trigger] init[i].0 == k;
            assert(pairs[i].0 == k);
        }
        if exists|i: int| 0 <= i < pairs.len() && #[trigger] pairs[i].0 == k {
            let i = choose|i: int| 0 <= i < pairs.len() && #[trigger] pairs[i].0 == k;
            if i < pairs.len() - 1 {
                assert(init[i].0 == k);
            }
        }
    }
}

/// With distinct keys, the value of a key is the one of the entry that holds it.
pub proof fn lemma_pairs_to_map_value(pairs: Seq<(Seq<char>, Seq<char>)>, i: int)
    requires
        keys_distinct(pairs),
        0 <= i < pairs.len(),
    ensures
        pairs_to_map(pairs).contains_key(pairs[i].0),
        pairs_to_map(pairs)[pairs[i].0] == pairs[i].1,
    decreases pairs.len(),
{
    lemma_pairs_to_map_contains(pairs, pairs[i].0);
    if i < pairs.len() - 1 {
        let init = pairs.drop_last();
        assert(keys_distinct(init)) by {
            assert forall|a: int, b: int|
                0 <= a < init.len() && 0 <= b < init.len() && a != b implies #[trigger] init[a].0
                != #[trigger] init[b].0 by {
                assert(pairs[a].0 != pairs[b].0);
            }
        }
        lemma_pairs_to_map_value(init, i);
        assert(pairs[i].0 != pairs[pairs.len() - 1].0);
    }
}

/// Replacing the value of an entry with a distinct key is an insertion into the map.
pub proof fn lemma_pairs_to_map_update(
    pairs: Seq<(Seq<char>, Seq<char>)>,
    i: int,
    v: Seq<char>,
)
    requires
        keys_distinct(pairs),
        0 <= i < pairs.len(),
    ensures
        pairs_to_map(pairs.update(i, (pairs[i].0, v))) == pairs_to_map(pairs).insert(
            pairs[i].0,
            v,
        ),
    decreases pairs.len(),
{
    let upd = pairs.update(i, (pairs[i].0, v));
    let init = pairs.drop_last();
    if i == pairs.len() - 1 {
        assert(upd.drop_last() =~= init);
        assert(pairs_to_map(init).insert(pairs[i].0, pairs[i].1).insert(pairs[i].0, v)
            =~= pairs_to_map(init).insert(pairs[i].0, v));
    } else {
        assert(keys_distinct(init)) by {
            assert forall|a: int, b: int|
                0 <= a < init.len() && 0 <= b < init.len() && a != b implies #[trigger] init[a].0
                != #[trigger] init[b].0 by {
                assert(pairs[a].0 != pairs[b].0);
            }
        }
        lemma_pairs_to_map_update(init, i, v);
        assert(upd.drop_last() =~= init.update(i, (init[i].0, v)));
        assert(pairs[i].0 != pairs.last().0);
        assert(pairs_to_map(init).insert(pairs[i].0, v).insert(pairs.last().0, pairs.last().1)
            =~= pairs_to_map(init).insert(pairs.last().0, pairs.last().1).insert(pairs[i].0, v));
    }
}

/// A map from strings to strings held as entries with distinct keys.
pub struct StringMap {
    entries: Vec<(String, String)>,
}

impl View for StringMap {
    type V = Map<Seq<char>, Seq<char>>;

    closed spec fn view(&self) -> Map<Seq<char>, Seq<char>> {
        pairs_to_map(pair_views(self.entries@))
    }
}

impl StringMap {
    /// The entries have distinct keys.
    #[verifier::type_invariant]
    closed spec fn wf(&self) -> bool {
        keys_distinct(pair_views(self.entries@))
    }

    /// The empty map.
    pub fn new() -> (r: StringMap)
        ensures
            r@ == Map::<Seq<char>, Seq<char>>::empty(),
    {
        let r = StringMap { entries: Vec::new() };
        assert(pair_views(r.entries@) =~= Seq::<(Seq<char>, Seq<char>)>::empty());
        r
    }

    /// The entries, with distinct keys, from which the map is built.
    pub fn entries(&self) -> (r: &Vec<(String, String)>)
        ensures
            self@ == pairs_to_map(pair_views(r@)),
    {
        &self.entries
    }

    /// The index of the entry with the given key, if any.
    fn position(&self, key: &str) -> (r: Option<usize>)
        ensures
            r matches Some(i) ==> i < self.entries@.len() && self.entries@[i as int].0@ == key@,
            r is None ==> forall|i: int|
                0 <= i < self.entries@.len() ==> #[trigger] self.entries@[i].0@ != key@,
    {
        let mut i: usize = 0;
        while i < self.entries.len()
            invariant
                i <= self.entries@.len(),
                forall|j: int| 0 <= j < i ==> #[trigger] self.entries@[j].0@ != key@,
            decreases self.entries@.len() - i,
        {
            if crate::text::str_eq(self.entries[i].0.as_str(), key) {
                return Some(i);
            }
            i = i + 1;
        }
        None
    }

    /// The value of a key.
    pub fn get(&self, key: &str) -> (r: Option<&String>)
        ensures
            r is Some == self@.contains_key(key@),
            r matches Some(v) ==> v@ == self@[key@],
    {
        proof {
            use_type_invariant(self);
            lemma_pairs_to_map_contains(pair_views(self.entries@), key@);
        }
        match self.position(key) {
            Some(i) => {
                proof {
                    lemma_pairs_to_map_value(pair_views(self.entries@), i as int);
                }
                Some(&self.entries[i].1)
            },
            None => {
                proof {
                    if self@.contains_key(key@) {
                        let j = choose|j: int|
                            0 <= j < pair_views(self.entries@).len() && #[trigger] pair_views(
                                self.entries@,
                            )[j].0 == key@;
                        assert(self.entries@[j].0@ != key@);
                    }
                }
                None
            },
        }
    }

    /// Sets the value of a key, replacing the value it had.
    pub fn insert(&mut self, key: String, value: String)
        ensures
            final(self)@ == old(self)@.insert(key@, value@),
    {
        proof {
            use_type_invariant(&*self);
        }
        let ghost k = key@;
        let ghost v = value@;
        let ghost before = pair_views(self.entries@);
        let found = self.position(key.as_str());
        let mut entries: Vec<(String, String)> = Vec::new();
        std::mem::swap(&mut entries, &mut self.entries);
        match found {
            Some(i) => {
                proof {
                    lemma_pairs_to_map_update(before, i as int, v);
                }
                entries.set(i, (key, value));
                proof {
                    assert(pair_views(entries@) =~= before.update(i as int, (before[i as int].0, v)));
                    let pv = pair_views(entries@);
                    assert forall|a: int, b: int|
                        0 <= a < pv.len() && 0 <= b < pv.len() && a != b implies #[trigger] pv[a].0
                        != #[trigger] pv[b].0 by {
                        assert(before[a].0 != before[b].0);
                    }
                }
            },
            None => {
                entries.push((key, value));
                proof {
                    let pv = pair_views(entries@);
                    assert(pv.drop_last() =~= before);
                    assert(pv.last() == (k, v));
                    assert forall|a: int, b: int|
                        0 <= a < pv.len() && 0 <= b < pv.len() && a != b implies #[trigger] pv[a].0
                        != #[trigger] pv[b].0 by {
                        if a < pv.len() - 1 && b < pv.len() - 1 {
                            assert(before[a].0 != before[b].0);
                        } else if a < pv.len() - 1 {
                            assert(before[a].0 != k);
                        } else {
                            assert(before[b].0 != k);
                        }
                    }
                }
            },
        }
        self.entries = entries;
    }

    /// The map built by inserting the pairs in order: a later pair replaces
    /// an earlier one with the same key.
    pub fn from_pairs(pairs: &Vec<(String, String)>) -> (r: StringMap)
        ensures
            r@ == pairs_to_map(pair_views(pairs@)),
    {
        let mut r = StringMap::new();
        let ghost all = pair_views(pairs@);
        let mut i: usize = 0;
        while i < pairs.len()
            invariant
                i <= pairs@.len(),
                all == pair_views(pairs@),
                r@ == pairs_to_map(all.take(i as int)),
            decreases pairs@.len() - i,
        {
            let k = pairs[i].0.clone();
            let v = pairs[i].1.clone();
            r.insert(k, v);
            proof {
                assert(all.take(i + 1).drop_last() =~= all.take(i as int));
            }
            i = i + 1;
        }
        assert(all.take(i as int) =~= all);
        r
    }
}

} // verus!
