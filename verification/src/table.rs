//! A small map from text keys to values that remembers the order in which keys arrived.

use vstd::prelude::*;

verus! {

/// A map from text keys to values.
///
/// Keys are case sensitive and each key occurs once. The entries are kept in the order in
/// which their keys were first inserted, so walking the table gives the same order on every
/// run. The view of a table is the mathematical map from keys to the views of the values.
#[derive(Debug)]
pub struct Table<V> {
    entries: Vec<(String, V)>,
}

/// The keys of a sequence of entries.
spec fn keys_of<V>(entries: Seq<(String, V)>) -> Seq<Seq<char>> {
    entries.map_values(|entry: (String, V)| entry.0@)
}

impl<V> Table<V> {
    /// The keys of the table, in the order in which they were first inserted.
    pub closed spec fn keys(&self) -> Seq<Seq<char>> {
        keys_of(self.entries@)
    }

    /// The values of the table, each at the place of its key in the order.
    pub closed spec fn values(&self) -> Seq<V> {
        self.entries@.map_values(|entry: (String, V)| entry.1)
    }

    #[verifier::type_invariant]
    spec fn keys_are_distinct(&self) -> bool {
        self.keys().no_duplicates()
    }
}

impl<V: Clone> Clone for Table<V> {
    /// A table with the same keys in the same order, each with a clone of its value.
    fn clone(&self) -> (copy: Self)
        ensures
            copy.keys() == self.keys(),
            copy.values().len() == self.values().len(),
            forall|i: int|
                0 <= i < self.values().len() ==> cloned::<V>(
                    #[trigger] self.values()[i],
                    copy.values()[i],
                ),
    {
        proof {
            use_type_invariant(self);
        }
        let mut entries: Vec<(String, V)> = Vec::new();
        let mut done: usize = 0;
        while done < self.entries.len()
            invariant
                done <= self.entries.len(),
                entries.len() == done,
                forall|i: int| 0 <= i < done ==> (#[trigger] entries[i]).0@ == self.entries[i].0@,
                forall|i: int|
                    0 <= i < done ==> cloned::<V>(self.entries[i].1, (#[trigger] entries[i]).1),
            decreases self.entries.len() - done,
        {
            let key = self.entries[done].0.clone();
            let value = self.entries[done].1.clone();
            entries.push((key, value));
            done += 1;
        }
        proof {
            assert(keys_of(entries@) =~= self.keys());
        }
        let copy = Table { entries };
        proof {
            assert(copy.values().len() == self.values().len());
        }
        copy
    }
}

impl<V: View> View for Table<V> {
    type V = Map<Seq<char>, V::V>;

    closed spec fn view(&self) -> Map<Seq<char>, V::V> {
        Map::new(
            |key: Seq<char>| self.keys().contains(key),
            |key: Seq<char>| self.entries@[self.keys().index_of(key)].1@,
        )
    }
}

/// In a sequence without duplicates, each item is found at its own position.
proof fn lemma_index_of<A>(items: Seq<A>, index: int)
    requires
        items.no_duplicates(),
        0 <= index < items.len(),
    ensures
        items.index_of(items[index]) == index,
{
    let found = items.index_of(items[index]);
    assert(0 <= found < items.len() && items[found] == items[index]);
}

/// The first position at which `key` stands in `entries`.
fn position<V>(entries: &Vec<(String, V)>, key: &String) -> (found: Option<usize>)
    ensures
        match found {
            Some(index) => index < entries.len() && entries[index as int].0@ == key@,
            None => forall|j: int| 0 <= j < entries.len() ==> entries[j].0@ != key@,
        },
{
    let mut index: usize = 0;
    while index < entries.len()
        invariant
            index <= entries.len(),
            forall|j: int| 0 <= j < index ==> entries[j].0@ != key@,
        decreases entries.len() - index,
    {
        if entries[index].0 == *key {
            return Some(index);
        }
        index += 1;
    }
    None
}

impl<V: View> Table<V> {
    /// The keys of the map are the keys of the order, whatever the order is.
    pub proof fn lemma_domain(&self)
        ensures
            self@.dom() == self.keys().to_set(),
            forall|key: Seq<char>| self@.dom().contains(key) <==> self.keys().contains(key),
    {
        assert(self@.dom() =~= self.keys().to_set());
    }

    /// An empty table.
    pub fn new() -> (table: Self)
        ensures
            table@ == Map::<Seq<char>, V::V>::empty(),
            table.keys() == Seq::<Seq<char>>::empty(),
    {
        let table = Table { entries: Vec::new() };
        proof {
            assert(table.keys() =~= Seq::empty());
            assert(table@ =~= Map::empty());
        }
        table
    }

    /// The number of entries.
    pub fn len(&self) -> (count: usize)
        ensures
            count == self.keys().len(),
            count == self@.dom().len(),
            self@.dom().finite(),
            self.keys().no_duplicates(),
    {
        proof {
            use_type_invariant(self);
            self.lemma_domain();
            self.keys().unique_seq_to_set();
            vstd::seq_lib::seq_to_set_is_finite(self.keys());
        }
        self.entries.len()
    }

    /// Whether the table has no entries.
    pub fn is_empty(&self) -> (empty: bool)
        ensures
            empty == (self@.dom().len() == 0),
            empty == (self.keys().len() == 0),
    {
        self.len() == 0
    }

    /// Whether `key` has an entry.
    pub fn contains_key(&self, key: &str) -> (present: bool)
        ensures
            present == self@.dom().contains(key@),
    {
        let owned = key.to_owned();
        let found = position(&self.entries, &owned);
        proof {
            match found {
                Some(index) => {
                    assert(self.keys()[index as int] == key@);
                },
                None => {},
            }
        }
        found.is_some()
    }

    /// The value stored under `key`, if there is one.
    pub fn get(&self, key: &str) -> (found: Option<&V>)
        ensures
            match found {
                Some(value) => self@.dom().contains(key@) && value@ == self@[key@],
                None => !self@.dom().contains(key@),
            },
    {
        let owned = key.to_owned();
        match position(&self.entries, &owned) {
            Some(index) => {
                proof {
                    use_type_invariant(self);
                    assert(self.keys()[index as int] == key@);
                }
                Some(&self.entries[index].1)
            },
            None => None,
        }
    }

    /// The entry at position `index` in insertion order, if there are that many entries.
    pub fn entry(&self, index: usize) -> (found: Option<(&String, &V)>)
        ensures
            match found {
                Some((key, value)) => {
                    &&& index < self.keys().len()
                    &&& key@ == self.keys()[index as int]
                    &&& self@.dom().contains(key@)
                    &&& value@ == self@[key@]
                },
                None => index >= self.keys().len(),
            },
    {
        if index < self.entries.len() {
            proof {
                use_type_invariant(self);
                assert(self.keys()[index as int] == self.entries@[index as int].0@);
            }
            Some((&self.entries[index].0, &self.entries[index].1))
        } else {
            None
        }
    }

    /// Stores `value` under `key`, in place of what was stored there before.
    ///
    /// A key that is new to the table goes to the end of the order; a key that is already
    /// present keeps its place.
    pub fn insert(&mut self, key: String, value: V)
        ensures
            final(self)@ == old(self)@.insert(key@, value@),
            final(self).keys() == if old(self)@.dom().contains(key@) {
                old(self).keys()
            } else {
                old(self).keys().push(key@)
            },
    {
        proof {
            use_type_invariant(&*self);
        }
        let ghost before = *self;
        let ghost key_view = key@;
        let ghost value_view = value@;
        let mut entries: Vec<(String, V)> = Vec::new();
        core::mem::swap(&mut entries, &mut self.entries);
        let place = position(&entries, &key);
        match place {
            Some(index) => {
                entries.set(index, (key, value));
                proof {
                    assert(before.keys()[index as int] == key_view);
                    assert(keys_of(entries@) =~= before.keys());
                }
            },
            None => {
                entries.push((key, value));
                proof {
                    assert(!before.keys().contains(key_view));
                    assert(keys_of(entries@) =~= before.keys().push(key_view));
                }
            },
        }
        self.entries = entries;
        proof {
            let after = *self;
            let target = before@.insert(key_view, value_view);
            let last = before.keys().len() as int;
            assert forall|k: Seq<char>| after.keys().contains(k) <==> (before.keys().contains(k)
                || k == key_view) by {
                if after.keys().contains(k) && k != key_view {
                    let i = choose|i: int| 0 <= i < after.keys().len() && after.keys()[i] == k;
                    assert(before.keys()[i] == k);
                }
                if before.keys().contains(k) {
                    let i = choose|i: int| 0 <= i < before.keys().len() && before.keys()[i] == k;
                    assert(after.keys()[i] == k);
                }
                if k == key_view {
                    assert(after.keys()[if place is Some { place->0 as int } else { last }] == k);
                }
            }
            assert forall|k: Seq<char>| after.keys().contains(k) implies after@[k] == target[k] by {
                let i = choose|i: int| 0 <= i < after.keys().len() && after.keys()[i] == k;
                lemma_index_of(after.keys(), i);
                if k != key_view {
                    assert(before.keys()[i] == k);
                    lemma_index_of(before.keys(), i);
                    assert(after.entries@[i] == before.entries@[i]);
                } else {
                    assert(after.keys()[if place is Some { place->0 as int } else { last }] == k);
                }
            }
            assert(after@ =~= target);
        }
    }
}

} // verus!
