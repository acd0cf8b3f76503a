//! A string-keyed map of serialized values, kept as a vector of entries in
//! which no key occurs twice.

use crate::assoc::{
    assoc_map, distinct, lemma_assoc_at, lemma_assoc_empty, lemma_assoc_len, lemma_assoc_push,
    lemma_assoc_remove, lemma_assoc_update,
};
use vstd::prelude::*;

verus! {

/// One key with its serialized value.
#[derive(Debug)]
pub struct Entry {
    pub key: String,
    pub value: String,
}

/// The keys of the entries, in order.
pub open spec fn entry_keys(entries: Seq<Entry>) -> Seq<Seq<char>> {
    Seq::new(entries.len(), |i: int| entries[i].key@)
}

/// The values of the entries, in order.
pub open spec fn entry_values(entries: Seq<Entry>) -> Seq<Seq<char>> {
    Seq::new(entries.len(), |i: int| entries[i].value@)
}

/// String-keyed map of serialized values.
#[derive(Debug)]
pub struct DataMap {
    entries: Vec<Entry>,
}

impl View for DataMap {
    type V = Map<Seq<char>, Seq<char>>;

    closed spec fn view(&self) -> Map<Seq<char>, Seq<char>> {
        assoc_map(entry_keys(self.entries@), entry_values(self.entries@))
    }
}

impl DataMap {
    #[verifier::type_invariant]
    spec fn well_formed(&self) -> bool {
        distinct(entry_keys(self.entries@))
    }

    /// An empty map.
    pub fn new() -> (map: DataMap)
        ensures
            map@ == Map::<Seq<char>, Seq<char>>::empty(),
    {
        let map = DataMap { entries: Vec::new() };
        proof {
            lemma_assoc_empty(entry_keys(map.entries@), entry_values(map.entries@));
        }
        map
    }

    /// Moves the entries out and leaves the map empty.
    fn take_entries(&mut self) -> (entries: Vec<Entry>)
        ensures
            entries@ == old(self).entries@,
            distinct(entry_keys(entries@)),
    {
        proof {
            use_type_invariant(&*self);
        }
        let mut taken = DataMap::new();
        std::mem::swap(self, &mut taken);
        taken.entries
    }

    /// Where `key` stands among the entries, if it does.
    fn find(&self, key: &str) -> (found: Option<usize>)
        ensures
            match found {
                Some(i) => i < self.entries@.len() && self.entries@[i as int].key@ == key@
                    && self@.contains_key(key@) && self@[key@] == self.entries@[i as int].value@,
                None => !self@.contains_key(key@),
            },
    {
        proof {
            use_type_invariant(self);
        }
        let ghost keys = entry_keys(self.entries@);
        let wanted: String = key.to_owned();
        let mut i: usize = 0;
        while i < self.entries.len()
            invariant
                i <= self.entries@.len(),
                wanted@ == key@,
                keys == entry_keys(self.entries@),
                distinct(keys),
                forall|j: int| 0 <= j < i ==> keys[j] != key@,
            decreases self.entries@.len() - i,
        {
            if self.entries[i].key == wanted {
                proof {
                    assert(keys[i as int] == key@);
                    lemma_assoc_at(keys, entry_values(self.entries@), i as int);
                }
                return Some(i);
            }
            i += 1;
        }
        None
    }

    /// The value stored under `key`.
    pub fn get(&self, key: &str) -> (value: Option<&String>)
        ensures
            match value {
                Some(v) => self@.contains_key(key@) && self@[key@] == v@,
                None => !self@.contains_key(key@),
            },
    {
        match self.find(key) {
            Some(i) => Some(&self.entries[i].value),
            None => None,
        }
    }

    /// How many keys the map holds.
    pub fn len(&self) -> (n: usize)
        ensures
            self@.dom().finite(),
            n == self@.len(),
    {
        proof {
            use_type_invariant(self);
            lemma_assoc_len(entry_keys(self.entries@), entry_values(self.entries@));
        }
        self.entries.len()
    }

    /// Whether the map holds no key.
    pub fn is_empty(&self) -> (empty: bool)
        ensures
            empty == (self@ == Map::<Seq<char>, Seq<char>>::empty()),
    {
        proof {
            use_type_invariant(self);
            lemma_assoc_len(entry_keys(self.entries@), entry_values(self.entries@));
            if self.entries@.len() == 0 {
                lemma_assoc_empty(entry_keys(self.entries@), entry_values(self.entries@));
            }
        }
        self.entries.len() == 0
    }

    /// Whether `key` is present.
    pub fn contains_key(&self, key: &str) -> (present: bool)
        ensures
            present == self@.contains_key(key@),
    {
        self.find(key).is_some()
    }

    /// Stores `value` under `key` and returns the value that was there before.
    pub fn insert(&mut self, key: String, value: String) -> (previous: Option<String>)
        ensures
            final(self)@ == old(self)@.insert(key@, value@),
            match previous {
                Some(p) => old(self)@.contains_key(key@) && old(self)@[key@] == p@,
                None => !old(self)@.contains_key(key@),
            },
    {
        let position = self.find(key.as_str());
        let mut entries = self.take_entries();
        let ghost before = entries@;
        let previous = match position {
            Some(i) => {
                let mut entry = Entry { key, value };
                std::mem::swap(&mut entries[i], &mut entry);
                proof {
                    assert(entry_keys(entries@) =~= entry_keys(before));
                    assert(entry_values(entries@) =~= entry_values(before).update(
                        i as int,
                        value@,
                    ));
                    lemma_assoc_update(
                        entry_keys(before),
                        entry_values(before),
                        i as int,
                        value@,
                    );
                }
                Some(entry.value)
            },
            None => {
                let entry = Entry { key, value };
                entries.push(entry);
                proof {
                    assert(entry_keys(entries@) =~= entry_keys(before).push(key@));
                    assert(entry_values(entries@) =~= entry_values(before).push(value@));
                    lemma_assoc_push(entry_keys(before), entry_values(before), key@, value@);
                }
                None
            },
        };
        *self = DataMap { entries };
        previous
    }

    /// Takes `key` out of the map and returns the value that was stored under it.
    pub fn remove(&mut self, key: &str) -> (removed: Option<String>)
        ensures
            final(self)@ == old(self)@.remove(key@),
            match removed {
                Some(r) => old(self)@.contains_key(key@) && old(self)@[key@] == r@,
                None => !old(self)@.contains_key(key@),
            },
    {
        match self.find(key) {
            Some(i) => {
                let mut entries = self.take_entries();
                let ghost before = entries@;
                let entry = entries.remove(i);
                proof {
                    assert(entry_keys(entries@) =~= entry_keys(before).remove(i as int));
                    assert(entry_values(entries@) =~= entry_values(before).remove(i as int));
                    lemma_assoc_remove(entry_keys(before), entry_values(before), i as int);
                }
                *self = DataMap { entries };
                Some(entry.value)
            },
            None => {
                assert(self@ =~= old(self)@.remove(key@));
                None
            },
        }
    }

    /// Takes every key out of the map.
    pub fn clear(&mut self)
        ensures
            final(self)@ == Map::<Seq<char>, Seq<char>>::empty(),
    {
        *self = DataMap::new();
    }

    /// The entries, one for each key, in no particular order.
    pub fn entries(&self) -> (entries: &Vec<Entry>)
        ensures
            distinct(entry_keys(entries@)),
            assoc_map(entry_keys(entries@), entry_values(entries@)) == self@,
    {
        proof {
            use_type_invariant(self);
        }
        &self.entries
    }
}

impl Clone for DataMap {
    /// A copy that holds the same keys with the same values.
    fn clone(&self) -> (copy: DataMap)
        ensures
            copy@ == self@,
    {
        proof {
            use_type_invariant(self);
        }
        let mut entries: Vec<Entry> = Vec::new();
        let mut i: usize = 0;
        while i < self.entries.len()
            invariant
                i <= self.entries@.len(),
                entries@.len() == i,
                forall|j: int|
                    0 <= j < i ==> (#[trigger] entries@[j]).key@ == self.entries@[j].key@
                        && entries@[j].value@ == self.entries@[j].value@,
            decreases self.entries@.len() - i,
        {
            let entry = &self.entries[i];
            entries.push(Entry { key: entry.key.clone(), value: entry.value.clone() });
            i += 1;
        }
        proof {
            assert(entry_keys(entries@) =~= entry_keys(self.entries@));
            assert(entry_values(entries@) =~= entry_values(self.entries@));
        }
        DataMap { entries }
    }
}

} // verus!
