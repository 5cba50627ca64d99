//! A mapping from strings to strings, as labels, annotations and record
//! fields are.
//!
//! The entries are kept in a vector in which no key stands twice. Contracts
//! speak of the mapping through its view, a `Map` from key to value; the order
//! of the entries is never part of a contract.

use vstd::prelude::*;
use vstd::string::*;

verus! {

/// The entries of a map as plain values: key and value of each, in order.
pub open spec fn entry_views(entries: Seq<(String, String)>) -> Seq<(Seq<char>, Seq<char>)> {
    Seq::new(entries.len(), |i: int| (entries[i].0@, entries[i].1@))
}

/// No key stands at two places.
pub open spec fn keys_distinct(pairs: Seq<(Seq<char>, Seq<char>)>) -> bool {
    forall|i: int, j: int| 0 <= i < j < pairs.len() ==> pairs[i].0 != pairs[j].0
}

/// Some entry has the key `key`.
pub open spec fn has_key(pairs: Seq<(Seq<char>, Seq<char>)>, key: Seq<char>) -> bool {
    exists|i: int| 0 <= i < pairs.len() && #[trigger] pairs[i].0 == key
}

/// A place at which `key` stands, where there is one.
pub open spec fn place_of(pairs: Seq<(Seq<char>, Seq<char>)>, key: Seq<char>) -> int {
    choose|i: int| 0 <= i < pairs.len() && #[trigger] pairs[i].0 == key
}

/// The mapping that a sequence of entries stands for.
pub open spec fn pairs_to_map(pairs: Seq<(Seq<char>, Seq<char>)>) -> Map<Seq<char>, Seq<char>> {
    Map::new(|key: Seq<char>| has_key(pairs, key), |key: Seq<char>| pairs[place_of(pairs, key)].1)
}

/// In a sequence without repeated keys each entry is what the mapping holds
/// for its key.
pub proof fn lemma_entry_in_map(pairs: Seq<(Seq<char>, Seq<char>)>, i: int)
    requires
        keys_distinct(pairs),
        0 <= i < pairs.len(),
    ensures
        pairs_to_map(pairs).contains_key(pairs[i].0),
        pairs_to_map(pairs)[pairs[i].0] == pairs[i].1,
{
    let key = pairs[i].0;
    assert(has_key(pairs, key));
    let p = place_of(pairs, key);
    assert(p == i);
}

/// Appending an entry with a new key inserts it into the mapping.
pub proof fn lemma_push_inserts(
    pairs: Seq<(Seq<char>, Seq<char>)>,
    key: Seq<char>,
    value: Seq<char>,
)
    requires
        keys_distinct(pairs),
        !has_key(pairs, key),
    ensures
        keys_distinct(pairs.push((key, value))),
        pairs_to_map(pairs.push((key, value))) == pairs_to_map(pairs).insert(key, value),
{
    let grown = pairs.push((key, value));
    assert forall|i: int, j: int| 0 <= i < j < grown.len() implies grown[i].0 != grown[j].0 by {
        if j == pairs.len() {
            assert(pairs[i].0 == grown[i].0);
        }
    }
    assert forall|k: Seq<char>| has_key(grown, k) <==> (k == key || has_key(pairs, k)) by {
        if has_key(grown, k) {
            let p = place_of(grown, k);
            if p < pairs.len() {
                assert(pairs[p].0 == k);
            }
        }
        if k == key {
            assert(grown[pairs.len() as int].0 == k);
        }
        if has_key(pairs, k) {
            let p = place_of(pairs, k);
            assert(grown[p].0 == k);
        }
    }
    assert forall|k: Seq<char>| has_key(grown, k) implies #[trigger] pairs_to_map(grown)[k]
        == pairs_to_map(pairs).insert(key, value)[k] by {
        let p = place_of(grown, k);
        if k == key {
            assert(grown[pairs.len() as int].0 == k);
            assert(p == pairs.len());
        } else {
            assert(p < pairs.len());
            assert(pairs[p].0 == k);
            lemma_entry_in_map(pairs, p);
        }
    }
    assert(pairs_to_map(grown) =~= pairs_to_map(pairs).insert(key, value));
}

/// Replacing the value of an entry replaces it in the mapping.
pub proof fn lemma_update_inserts(pairs: Seq<(Seq<char>, Seq<char>)>, i: int, value: Seq<char>)
    requires
        keys_distinct(pairs),
        0 <= i < pairs.len(),
    ensures
        keys_distinct(pairs.update(i, (pairs[i].0, value))),
        pairs_to_map(pairs.update(i, (pairs[i].0, value))) == pairs_to_map(pairs).insert(
            pairs[i].0,
            value,
        ),
{
    let key = pairs[i].0;
    let changed = pairs.update(i, (key, value));
    assert forall|a: int, b: int| 0 <= a < b < changed.len() implies changed[a].0 != changed[b].0 by {
        assert(changed[a].0 == pairs[a].0);
        assert(changed[b].0 == pairs[b].0);
    }
    assert forall|k: Seq<char>| has_key(changed, k) <==> has_key(pairs, k) by {
        if has_key(changed, k) {
            let p = place_of(changed, k);
            assert(pairs[p].0 == k);
        }
        if has_key(pairs, k) {
            let p = place_of(pairs, k);
            assert(changed[p].0 == k);
        }
    }
    assert(has_key(pairs, key));
    assert forall|k: Seq<char>| has_key(changed, k) implies #[trigger] pairs_to_map(changed)[k]
        == pairs_to_map(pairs).insert(key, value)[k] by {
        let p = place_of(changed, k);
        lemma_entry_in_map(changed, p);
        if k != key {
            assert(p != i);
            assert(pairs[p].0 == k);
            lemma_entry_in_map(pairs, p);
        } else {
            assert(pairs[p].0 == pairs[i].0);
            assert(p == i);
        }
    }
    assert(pairs_to_map(changed) =~= pairs_to_map(pairs).insert(key, value));
}

/// A sequence without repeated keys stands for a finite mapping with as many
/// keys as the sequence has entries.
pub proof fn lemma_map_size(pairs: Seq<(Seq<char>, Seq<char>)>)
    requires
        keys_distinct(pairs),
    ensures
        pairs_to_map(pairs).dom().finite(),
        pairs_to_map(pairs).dom().len() == pairs.len(),
    decreases pairs.len(),
{
    if pairs.len() == 0 {
        assert(pairs_to_map(pairs).dom() =~= Set::<Seq<char>>::empty());
    } else {
        let front = pairs.drop_last();
        let last = pairs.last();
        assert(pairs =~= front.push(last));
        assert(keys_distinct(front)) by {
            assert forall|i: int, j: int| 0 <= i < j < front.len() implies front[i].0 != front[j].0 by {
                assert(front[i] == pairs[i]);
                assert(front[j] == pairs[j]);
            }
        }
        assert(!has_key(front, last.0)) by {
            if has_key(front, last.0) {
                let p = place_of(front, last.0);
                assert(front[p] == pairs[p]);
            }
        }
        lemma_map_size(front);
        lemma_push_inserts(front, last.0, last.1);
        assert(pairs_to_map(pairs).dom() =~= pairs_to_map(front).dom().insert(last.0));
    }
}

/// A mapping from strings to strings in which each key has one value.
#[derive(Debug)]
pub struct StrMap {
    pub(crate) entries: Vec<(String, String)>,
}

impl View for StrMap {
    type V = Map<Seq<char>, Seq<char>>;

    closed spec fn view(&self) -> Map<Seq<char>, Seq<char>> {
        pairs_to_map(entry_views(self.entries@))
    }
}

impl StrMap {
    /// No key stands twice among the entries.
    #[verifier::type_invariant]
    pub closed spec fn well_formed(&self) -> bool {
        keys_distinct(entry_views(self.entries@))
    }

    /// A map without entries.
    pub fn new() -> (map: StrMap)
        ensures
            map@ == Map::<Seq<char>, Seq<char>>::empty(),
    {
        let map = StrMap { entries: Vec::new() };
        assert(map@ =~= Map::<Seq<char>, Seq<char>>::empty());
        map
    }

    /// The number of entries.
    pub fn len(&self) -> (n: usize)
        ensures
            self@.dom().finite(),
            n == self@.dom().len(),
    {
        proof {
            use_type_invariant(self);
            lemma_map_size(entry_views(self.entries@));
        }
        self.entries.len()
    }

    /// Whether the map has no entry.
    pub fn is_empty(&self) -> (empty: bool)
        ensures
            empty == (self@ == Map::<Seq<char>, Seq<char>>::empty()),
    {
        let empty = self.entries.len() == 0;
        proof {
            use_type_invariant(self);
            if empty {
                assert(self@ =~= Map::<Seq<char>, Seq<char>>::empty());
            } else {
                lemma_entry_in_map(entry_views(self.entries@), 0);
            }
        }
        empty
    }

    /// The entries, each once, in no particular order.
    pub fn to_vec(&self) -> (entries: Vec<(String, String)>)
        ensures
            keys_distinct(entry_views(entries@)),
            pairs_to_map(entry_views(entries@)) == self@,
    {
        proof {
            use_type_invariant(self);
        }
        let mut entries: Vec<(String, String)> = Vec::new();
        let mut i: usize = 0;
        while i < self.entries.len()
            invariant
                i <= self.entries.len(),
                entries@.len() == i,
                entry_views(entries@) == entry_views(self.entries@).take(i as int),
            decreases self.entries.len() - i,
        {
            let ghost copied = entry_views(entries@);
            let key = self.entries[i].0.clone();
            let value = self.entries[i].1.clone();
            entries.push((key, value));
            assert forall|j: int| 0 <= j < i + 1 implies entry_views(entries@)[j] == entry_views(
                self.entries@,
            )[j] by {
                if j < i {
                    assert(entry_views(entries@)[j] == copied[j]);
                }
            }
            i = i + 1;
            assert(entry_views(entries@) =~= entry_views(self.entries@).take(i as int));
        }
        assert(entry_views(self.entries@).take(i as int) =~= entry_views(self.entries@));
        entries
    }

    /// The place at which `key` stands, if it stands anywhere.
    fn find(&self, key: &String) -> (place: Option<usize>)
        ensures
            match place {
                Some(i) => i < entry_views(self.entries@).len() && entry_views(self.entries@)[i as int].0 == key@,
                None => !has_key(entry_views(self.entries@), key@),
            },
    {
        let mut i: usize = 0;
        while i < self.entries.len()
            invariant
                i <= self.entries.len(),
                forall|j: int| 0 <= j < i ==> entry_views(self.entries@)[j].0 != key@,
            decreases self.entries.len() - i,
        {
            if self.entries[i].0 == *key {
                return Some(i);
            }
            i = i + 1;
        }
        None
    }

    /// Whether `key` has a value.
    pub fn contains_key(&self, key: &str) -> (found: bool)
        ensures
            found == self@.contains_key(key@),
    {
        self.find(&String::from_str(key)).is_some()
    }

    /// The value of `key`, if it has one.
    pub fn get(&self, key: &str) -> (value: Option<&String>)
        ensures
            match value {
                Some(v) => self@.contains_key(key@) && self@[key@] == v@,
                None => !self@.contains_key(key@),
            },
    {
        match self.find(&String::from_str(key)) {
            Some(i) => {
                proof {
                    use_type_invariant(self);
                    lemma_entry_in_map(entry_views(self.entries@), i as int);
                }
                Some(&self.entries[i].1)
            },
            None => None,
        }
    }

    /// Gives `key` the value `value`, in place of the one it had, if any.
    pub fn insert(&mut self, key: String, value: String)
        ensures
            final(self)@ == old(self)@.insert(key@, value@),
    {
        proof {
            use_type_invariant(&*self);
        }
        let place = self.find(&key);
        let ghost before = entry_views(self.entries@);
        let mut entries: Vec<(String, String)> = Vec::new();
        std::mem::swap(&mut self.entries, &mut entries);
        match place {
            Some(i) => {
                proof {
                    lemma_update_inserts(before, i as int, value@);
                }
                entries.set(i, (key, value));
                assert(entry_views(entries@) =~= before.update(i as int, (before[i as int].0, value@)));
            },
            None => {
                proof {
                    lemma_push_inserts(before, key@, value@);
                }
                entries.push((key, value));
                assert(entry_views(entries@) =~= before.push((key@, value@)));
            },
        }
        self.entries = entries;
    }

    /// Whether every entry of `self` stands in `other` with the same value.
    fn within(&self, other: &StrMap) -> (all: bool)
        ensures
            all == (forall|key: Seq<char>| #[trigger]
                self@.contains_key(key) ==> other@.contains_key(key) && other@[key] == self@[key]),
    {
        proof {
            use_type_invariant(self);
        }
        let mut i: usize = 0;
        while i < self.entries.len()
            invariant
                i <= self.entries.len(),
                keys_distinct(entry_views(self.entries@)),
                forall|j: int|
                    0 <= j < i ==> other@.contains_key(#[trigger] entry_views(self.entries@)[j].0) && other@[entry_views(self.entries@)[j].0]
                        == entry_views(self.entries@)[j].1,
            decreases self.entries.len() - i,
        {
            proof {
                lemma_entry_in_map(entry_views(self.entries@), i as int);
            }
            match other.find(&self.entries[i].0) {
                Some(at) => {
                    proof {
                        use_type_invariant(other);
                        lemma_entry_in_map(entry_views(other.entries@), at as int);
                    }
                    if !(other.entries[at].1 == self.entries[i].1) {
                        assert(self@.contains_key(entry_views(self.entries@)[i as int].0));
                        return false;
                    }
                },
                None => {
                    assert(self@.contains_key(entry_views(self.entries@)[i as int].0));
                    assert(!other@.contains_key(entry_views(self.entries@)[i as int].0));
                    return false;
                },
            }
            i = i + 1;
        }
        proof {
            assert forall|key: Seq<char>| #[trigger] self@.contains_key(key) implies other@.contains_key(key)
                && other@[key] == self@[key] by {
                let p = place_of(entry_views(self.entries@), key);
                lemma_entry_in_map(entry_views(self.entries@), p);
            }
        }
        true
    }

    /// Adds each entry of `other` whose key has no value here yet. A key that
    /// has a value keeps it, whatever `other` holds for it.
    pub fn fill_absent(&mut self, other: &StrMap)
        ensures
            final(self)@ == other@.union_prefer_right(old(self)@),
    {
        proof {
            use_type_invariant(other);
        }
        let ghost start = self@;
        let mut i: usize = 0;
        assert(entry_views(other.entries@).take(0) =~= Seq::empty());
        assert(self@ =~= pairs_to_map(entry_views(other.entries@).take(0)).union_prefer_right(start));
        while i < other.entries.len()
            invariant
                i <= other.entries.len(),
                keys_distinct(entry_views(other.entries@)),
                self@ == pairs_to_map(entry_views(other.entries@).take(i as int)).union_prefer_right(start),
            decreases other.entries.len() - i,
        {
            let ghost seen = entry_views(other.entries@).take(i as int);
            let ghost key = entry_views(other.entries@)[i as int].0;
            let ghost value = entry_views(other.entries@)[i as int].1;
            proof {
                assert(entry_views(other.entries@).take(i + 1) =~= seen.push((key, value)));
                assert(keys_distinct(seen)) by {
                    assert forall|a: int, b: int| 0 <= a < b < seen.len() implies seen[a].0 != seen[b].0 by {
                        assert(seen[a] == entry_views(other.entries@)[a]);
                        assert(seen[b] == entry_views(other.entries@)[b]);
                    }
                }
                assert(!has_key(seen, key)) by {
                    if has_key(seen, key) {
                        let p = place_of(seen, key);
                        assert(seen[p] == entry_views(other.entries@)[p]);
                    }
                }
                lemma_push_inserts(seen, key, value);
            }
            assert(!pairs_to_map(seen).contains_key(key));
            if !self.find(&other.entries[i].0).is_some() {
                assert(!self@.contains_key(key));
                assert(!start.contains_key(key));
                self.insert(other.entries[i].0.clone(), other.entries[i].1.clone());
                assert(self@ =~= pairs_to_map(seen.push((key, value))).union_prefer_right(start));
            } else {
                assert(self@.contains_key(key));
                assert(start.contains_key(key));
                assert(self@ =~= pairs_to_map(seen.push((key, value))).union_prefer_right(start));
            }
            i = i + 1;
        }
        assert(entry_views(other.entries@).take(i as int) =~= entry_views(other.entries@));
    }
}

impl Clone for StrMap {
    fn clone(&self) -> (copy: StrMap)
        ensures
            copy@ == self@,
    {
        proof {
            use_type_invariant(self);
        }
        let mut copy = StrMap::new();
        copy.fill_absent(self);
        assert(copy@ =~= self@);
        copy
    }
}

impl PartialEq for StrMap {
    fn eq(&self, other: &StrMap) -> (same: bool) {
        let same = self.within(other) && other.within(self);
        assert(same == (self@ =~= other@));
        same
    }
}

impl vstd::std_specs::cmp::PartialEqSpecImpl for StrMap {
    open spec fn obeys_eq_spec() -> bool {
        true
    }

    open spec fn eq_spec(&self, other: &StrMap) -> bool {
        self@ == other@
    }
}

} // verus!
