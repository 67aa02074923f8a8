//! A table of values under unique keys.

use vstd::prelude::*;

verus! {

/// A type whose values can name the entries of a [`Registry`].
pub trait Key: View + Sized {
    /// Whether two keys name the same entry.
    fn same_key(&self, other: &Self) -> (same: bool)
        ensures
            same == (self@ == other@),
    ;
}

impl Key for String {
    fn same_key(&self, other: &Self) -> (same: bool) {
        *self == *other
    }
}

/// Values under unique keys; its view is the map from each key's view to its value.
pub struct Registry<K: Key, V> {
    entries: Vec<(K, V)>,
}

/// No key occurs twice.
spec fn keys_unique<K: Key, V>(entries: Seq<(K, V)>) -> bool {
    forall|i: int, j: int|
        0 <= i < j < entries.len() ==> (#[trigger] entries[i]).0@ != (#[trigger] entries[j]).0@
}

/// The map that a list of entries stands for.
spec fn entries_map<K: Key, V>(entries: Seq<(K, V)>) -> Map<K::V, V>
    decreases entries.len(),
{
    if entries.len() == 0 {
        Map::empty()
    } else {
        entries_map(entries.drop_last()).insert(entries.last().0@, entries.last().1)
    }
}

/// What a complete listing of a map is: each entry once, and nothing else.
pub open spec fn lists<K: Key, V>(listing: Seq<(K, V)>, map: Map<K::V, V>) -> bool {
    &&& listing.len() == map.len()
    &&& forall|i: int|
        0 <= i < listing.len() ==> map.contains_key((#[trigger] listing[i]).0@)
            && map[listing[i].0@] == listing[i].1
    &&& forall|i: int, j: int|
        0 <= i < j < listing.len() ==> (#[trigger] listing[i]).0@ != (#[trigger] listing[j]).0@
    &&& forall|k: K::V|
        map.contains_key(k) ==> exists|i: int|
            0 <= i < listing.len() && (#[trigger] listing[i]).0@ == k
}

/// The order of a listing does not matter.
pub proof fn lemma_lists_reverse<K: Key, V>(listing: Seq<(K, V)>, map: Map<K::V, V>)
    requires
        lists(listing, map),
    ensures
        lists(listing.reverse(), map),
{
    let back = listing.reverse();
    let n = listing.len() as int;
    assert forall|k: K::V| map.contains_key(k) implies exists|i: int|
        0 <= i < back.len() && (#[trigger] back[i]).0@ == k by {
        let i = choose|i: int| 0 <= i < listing.len() && (#[trigger] listing[i]).0@ == k;
        assert(back[n - 1 - i] == listing[i]);
    }
}

proof fn lemma_entries_map<K: Key, V>(entries: Seq<(K, V)>)
    requires
        keys_unique(entries),
    ensures
        entries_map(entries).dom().finite(),
        lists(entries, entries_map(entries)),
    decreases entries.len(),
{
    if entries.len() > 0 {
        let rest = entries.drop_last();
        lemma_entries_map(rest);
        let map = entries_map(entries);
        let last = entries.len() - 1;
        assert(!entries_map(rest).contains_key(entries[last].0@)) by {
            if entries_map(rest).contains_key(entries[last].0@) {
                let i = choose|i: int|
                    0 <= i < rest.len() && (#[trigger] rest[i]).0@ == entries[last].0@;
                assert(entries[i] == rest[i]);
            }
        }
        assert forall|i: int| 0 <= i < entries.len() implies map.contains_key(
            (#[trigger] entries[i]).0@,
        ) && map[entries[i].0@] == entries[i].1 by {
            if i < last {
                assert(rest[i] == entries[i]);
            }
        }
        assert forall|k: K::V| map.contains_key(k) implies exists|i: int|
            0 <= i < entries.len() && (#[trigger] entries[i]).0@ == k by {
            if k == entries[last].0@ {
            } else {
                let i = choose|i: int| 0 <= i < rest.len() && (#[trigger] rest[i]).0@ == k;
                assert(entries[i].0@ == k);
            }
        }
    }
}

impl<K: Key, V> View for Registry<K, V> {
    type V = Map<K::V, V>;

    closed spec fn view(&self) -> Map<K::V, V> {
        entries_map(self.entries@)
    }
}

impl<K: Key, V> Registry<K, V> {
    #[verifier::type_invariant]
    spec fn well_formed(self) -> bool {
        keys_unique(self.entries@)
    }

    /// An empty registry.
    pub fn new() -> (registry: Self)
        ensures
            registry@ == Map::<K::V, V>::empty(),
    {
        Registry { entries: Vec::new() }
    }

    /// The number of entries.
    pub fn len(&self) -> (count: usize)
        ensures
            count == self@.len(),
            self@.dom().finite(),
    {
        proof {
            use_type_invariant(self);
            lemma_entries_map(self.entries@);
        }
        self.entries.len()
    }

    /// The place of a key in a list of entries.
    fn position(entries: &Vec<(K, V)>, key: &K) -> (found: Option<usize>)
        requires
            keys_unique(entries@),
        ensures
            match found {
                Some(i) => i < entries.len() && entries[i as int].0@ == key@ && entries_map(
                    entries@,
                ).contains_key(key@) && entries_map(entries@)[key@] == entries[i as int].1,
                None => !entries_map(entries@).contains_key(key@),
            },
    {
        proof {
            lemma_entries_map(entries@);
        }
        for i in 0..entries.len()
            invariant
                keys_unique(entries@),
                lists(entries@, entries_map(entries@)),
                forall|j: int| 0 <= j < i ==> (#[trigger] entries@[j]).0@ != key@,
        {
            if entries[i].0.same_key(key) {
                return Some(i);
            }
        }
        None
    }

    /// Whether there is an entry under the key.
    pub fn contains_key(&self, key: &K) -> (found: bool)
        ensures
            found == self@.contains_key(key@),
    {
        proof {
            use_type_invariant(self);
        }
        Self::position(&self.entries, key).is_some()
    }

    /// The value under the key.
    pub fn get(&self, key: &K) -> (value: Option<&V>)
        ensures
            match value {
                Some(v) => self@.contains_key(key@) && *v == self@[key@],
                None => !self@.contains_key(key@),
            },
    {
        proof {
            use_type_invariant(self);
        }
        match Self::position(&self.entries, key) {
            Some(i) => Some(&self.entries[i].1),
            None => None,
        }
    }

    /// Takes out the entry under the key.
    pub fn remove(&mut self, key: &K) -> (value: Option<V>)
        ensures
            final(self)@ == old(self)@.remove(key@),
            match value {
                Some(v) => old(self)@.contains_key(key@) && v == old(self)@[key@],
                None => !old(self)@.contains_key(key@),
            },
    {
        proof {
            use_type_invariant(&*self);
            lemma_entries_map(self.entries@);
        }
        let mut entries: Vec<(K, V)> = Vec::new();
        std::mem::swap(&mut entries, &mut self.entries);
        let found = Self::position(&entries, key);
        let value = match found {
            Some(i) => {
                let ghost before = entries@;
                let entry = entries.remove(i);
                proof {
                    lemma_remove(before, i as int);
                    assert(entries@ == before.remove(i as int));
                }
                Some(entry.1)
            },
            None => None,
        };
        assert(keys_unique(entries@));
        assert(entries_map(entries@) =~= old(self)@.remove(key@));
        self.entries = entries;
        value
    }

    /// Puts a value under a key; the value that was there comes back.
    pub fn insert(&mut self, key: K, value: V) -> (replaced: Option<V>)
        ensures
            final(self)@ == old(self)@.insert(key@, value),
            old(self)@.dom().finite(),
            match replaced {
                Some(v) => old(self)@.contains_key(key@) && v == old(self)@[key@],
                None => !old(self)@.contains_key(key@),
            },
    {
        proof {
            use_type_invariant(&*self);
            lemma_entries_map(self.entries@);
        }
        let replaced = self.remove(&key);
        proof {
            use_type_invariant(&*self);
            lemma_entries_map(self.entries@);
        }
        let mut entries: Vec<(K, V)> = Vec::new();
        std::mem::swap(&mut entries, &mut self.entries);
        let ghost before = entries@;
        entries.push((key, value));
        proof {
            assert(entries@.drop_last() =~= before);
            assert forall|i: int, j: int| 0 <= i < j < entries@.len() implies (
            #[trigger] entries@[i]).0@ != (#[trigger] entries@[j]).0@ by {
                if j == before.len() {
                    assert(before[i] == entries@[i]);
                    assert(entries_map(before).contains_key(before[i].0@));
                } else {
                    assert(before[i] == entries@[i] && before[j] == entries@[j]);
                }
            }
            assert(entries_map(entries@) =~= old(self)@.insert(key@, value));
        }
        self.entries = entries;
        replaced
    }

    /// Takes out every entry.
    pub fn drain(&mut self) -> (listing: Vec<(K, V)>)
        ensures
            final(self)@ == Map::<K::V, V>::empty(),
            lists(listing@, old(self)@),
    {
        proof {
            use_type_invariant(&*self);
            lemma_entries_map(self.entries@);
        }
        let mut entries: Vec<(K, V)> = Vec::new();
        std::mem::swap(&mut entries, &mut self.entries);
        entries
    }
}

proof fn lemma_remove<K: Key, V>(entries: Seq<(K, V)>, i: int)
    requires
        keys_unique(entries),
        0 <= i < entries.len(),
    ensures
        keys_unique(entries.remove(i)),
        entries_map(entries.remove(i)) == entries_map(entries).remove(entries[i].0@),
{
    let rest = entries.remove(i);
    assert forall|a: int, b: int| 0 <= a < b < rest.len() implies (#[trigger] rest[a]).0@ != (
    #[trigger] rest[b]).0@ by {
        let a0 = if a < i { a } else { a + 1 };
        let b0 = if b < i { b } else { b + 1 };
        assert(rest[a] == entries[a0] && rest[b] == entries[b0]);
    }
    lemma_entries_map(entries);
    lemma_entries_map(rest);
    let before = entries_map(entries);
    let after = entries_map(rest);
    assert forall|k: K::V| after.contains_key(k) implies before.remove(entries[i].0@).contains_key(
        k,
    ) && after[k] == before[k] by {
        let a = choose|a: int| 0 <= a < rest.len() && (#[trigger] rest[a]).0@ == k;
        let a0 = if a < i { a } else { a + 1 };
        assert(rest[a] == entries[a0]);
    }
    assert forall|k: K::V| before.remove(entries[i].0@).contains_key(k) implies after.contains_key(
        k,
    ) by {
        let a0 = choose|a: int| 0 <= a < entries.len() && (#[trigger] entries[a]).0@ == k;
        let a = if a0 < i { a0 } else { a0 - 1 };
        assert(rest[a] == entries[a0]);
    }
    assert(after =~= before.remove(entries[i].0@));
}

/// A listing of a map gives every entry, each of them once, and nothing that is not in the map.
pub proof fn law_listing_gives_every_entry_once<K: Key, V>(
    listing: Seq<(K, V)>,
    map: Map<K::V, V>,
    k: K::V,
)
    requires
        lists(listing, map),
    ensures
        listing.len() == map.len(),
        map.contains_key(k) <==> exists|i: int|
            0 <= i < listing.len() && (#[trigger] listing[i]).0@ == k,
        forall|i: int|
            0 <= i < listing.len() && (#[trigger] listing[i]).0@ == k ==> listing[i].1 == map[k],
        forall|i: int, j: int|
            0 <= i < listing.len() && 0 <= j < listing.len() && (#[trigger] listing[i]).0@ == (
            #[trigger] listing[j]).0@ ==> i == j,
{
}

} // verus!
