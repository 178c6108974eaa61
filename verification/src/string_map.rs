//! An insertion-ordered map from strings to values.
//!
//! The map is modelled by the sequence of its entries, each a key (as a
//! sequence of characters) and a value, in the order in which the keys were
//! first inserted. No key occurs twice. The spec functions of this module
//! speak of such sequences; the methods of [`StringMap`] are stated over them.

use crate::text::str_eq;
use vstd::prelude::*;

verus! {

/// No key occurs at two positions of `entries`.
pub open spec fn keys_distinct<V>(entries: Seq<(Seq<char>, V)>) -> bool {
    forall|i: int, j: int|
        0 <= i < j < entries.len() ==> (#[trigger] entries[i]).0 != (#[trigger] entries[j]).0
}

/// Some entry of `entries` has the key `key`.
pub open spec fn has_key<V>(entries: Seq<(Seq<char>, V)>, key: Seq<char>) -> bool {
    exists|i: int| 0 <= i < entries.len() && (#[trigger] entries[i]).0 == key
}

/// A position at which `key` stands in `entries`; meaningful where
/// `has_key(entries, key)`, and then the only one if the keys are distinct.
pub open spec fn position_of<V>(entries: Seq<(Seq<char>, V)>, key: Seq<char>) -> int {
    choose|i: int| 0 <= i < entries.len() && (#[trigger] entries[i]).0 == key
}

/// The value stored under `key`, if there is one.
pub open spec fn lookup<V>(entries: Seq<(Seq<char>, V)>, key: Seq<char>) -> Option<V> {
    if has_key(entries, key) {
        Some(entries[position_of(entries, key)].1)
    } else {
        None
    }
}

/// `entries` after `value` was stored under `key`: an existing entry keeps
/// its place and gets the new value, a new key goes to the end.
pub open spec fn with_entry<V>(entries: Seq<(Seq<char>, V)>, key: Seq<char>, value: V) -> Seq<
    (Seq<char>, V),
> {
    if has_key(entries, key) {
        entries.update(position_of(entries, key), (key, value))
    } else {
        entries.push((key, value))
    }
}

/// `entries` without the entry of `key`; the others keep their order.
pub open spec fn without_key<V>(entries: Seq<(Seq<char>, V)>, key: Seq<char>) -> Seq<
    (Seq<char>, V),
> {
    if has_key(entries, key) {
        entries.remove(position_of(entries, key))
    } else {
        entries
    }
}

/// The finite map that `entries` stands for.
pub open spec fn as_map<V>(entries: Seq<(Seq<char>, V)>) -> Map<Seq<char>, V> {
    Map::new(|k: Seq<char>| has_key(entries, k), |k: Seq<char>| entries[position_of(entries, k)].1)
}

/// With distinct keys, the position of a key is the position where it stands.
pub proof fn lemma_position_unique<V>(entries: Seq<(Seq<char>, V)>, i: int)
    requires
        keys_distinct(entries),
        0 <= i < entries.len(),
    ensures
        has_key(entries, entries[i].0),
        position_of(entries, entries[i].0) == i,
        lookup(entries, entries[i].0) == Some(entries[i].1),
{
    let key = entries[i].0;
    assert(has_key(entries, key));
    let p = position_of(entries, key);
    assert(0 <= p < entries.len() && entries[p].0 == key);
    if p < i {
        assert(entries[p].0 != entries[i].0);
    } else if i < p {
        assert(entries[i].0 != entries[p].0);
    }
}

/// Storing a value keeps the keys distinct, makes the key present with that
/// value, and changes the value of no other key.
pub proof fn lemma_with_entry<V>(entries: Seq<(Seq<char>, V)>, key: Seq<char>, value: V)
    requires
        keys_distinct(entries),
    ensures
        keys_distinct(with_entry(entries, key, value)),
        lookup(with_entry(entries, key, value), key) == Some(value),
        forall|other: Seq<char>|
            other != key ==> lookup(with_entry(entries, key, value), other) == lookup(
                entries,
                other,
            ),
        with_entry(entries, key, value).len() == if has_key(entries, key) {
            entries.len()
        } else {
            entries.len() + 1
        },
{
    let after = with_entry(entries, key, value);
    if has_key(entries, key) {
        let p = position_of(entries, key);
        assert forall|i: int, j: int| 0 <= i < j < after.len() implies (#[trigger] after[i]).0 != (
        #[trigger] after[j]).0 by {
            assert(entries[i].0 != entries[j].0);
            assert(after[i].0 == entries[i].0);
            assert(after[j].0 == entries[j].0);
        }
        assert(after[p].0 == key);
        lemma_position_unique(after, p);
        assert forall|other: Seq<char>| other != key implies lookup(after, other) == lookup(
            entries,
            other,
        ) by {
            if has_key(entries, other) {
                let q = position_of(entries, other);
                assert(q != p);
                assert(after[q] == entries[q]);
                lemma_position_unique(after, q);
            } else {
                if has_key(after, other) {
                    let q = position_of(after, other);
                    assert(after[q].0 == other);
                    assert(q != p);
                    assert(entries[q].0 == other);
                    assert(false);
                }
            }
        }
    } else {
        let n = entries.len() as int;
        assert forall|i: int, j: int| 0 <= i < j < after.len() implies (#[trigger] after[i]).0 != (
        #[trigger] after[j]).0 by {
            if j < n {
                assert(entries[i].0 != entries[j].0);
            } else {
                assert(after[j].0 == key);
                assert(after[i] == entries[i]);
                if after[i].0 == key {
                    assert(has_key(entries, key));
                }
            }
        }
        assert(after[n].0 == key);
        lemma_position_unique(after, n);
        assert forall|other: Seq<char>| other != key implies lookup(after, other) == lookup(
            entries,
            other,
        ) by {
            if has_key(entries, other) {
                let q = position_of(entries, other);
                assert(after[q] == entries[q]);
                lemma_position_unique(after, q);
            } else {
                if has_key(after, other) {
                    let q = position_of(after, other);
                    assert(after[q].0 == other);
                    assert(q != n);
                    assert(entries[q].0 == other);
                    assert(false);
                }
            }
        }
    }
}

/// Removing a key keeps the keys distinct, makes the key absent, and changes
/// the value of no other key.
pub proof fn lemma_without_key<V>(entries: Seq<(Seq<char>, V)>, key: Seq<char>)
    requires
        keys_distinct(entries),
    ensures
        keys_distinct(without_key(entries, key)),
        !has_key(without_key(entries, key), key),
        forall|other: Seq<char>|
            other != key ==> lookup(without_key(entries, key), other) == lookup(entries, other),
        without_key(entries, key).len() == if has_key(entries, key) {
            entries.len() - 1
        } else {
            entries.len() as int
        },
{
    let after = without_key(entries, key);
    if has_key(entries, key) {
        let p = position_of(entries, key);
        lemma_remove_at(entries, p);
    }
}

/// Removing the entry at position `p` keeps the keys distinct, makes its key
/// absent, and changes the value of no other key.
pub proof fn lemma_remove_at<V>(entries: Seq<(Seq<char>, V)>, p: int)
    requires
        keys_distinct(entries),
        0 <= p < entries.len(),
    ensures
        keys_distinct(entries.remove(p)),
        !has_key(entries.remove(p), entries[p].0),
        entries.remove(p) == without_key(entries, entries[p].0),
        forall|other: Seq<char>|
            other != entries[p].0 ==> lookup(entries.remove(p), other) == lookup(entries, other),
{
    let key = entries[p].0;
    let after = entries.remove(p);
    lemma_position_unique(entries, p);
    assert forall|i: int, j: int| 0 <= i < j < after.len() implies (#[trigger] after[i]).0 != (
    #[trigger] after[j]).0 by {
        let oi = if i < p {
            i
        } else {
            i + 1
        };
        let oj = if j < p {
            j
        } else {
            j + 1
        };
        assert(after[i] == entries[oi]);
        assert(after[j] == entries[oj]);
        assert(entries[oi].0 != entries[oj].0);
    }
    if has_key(after, key) {
        let q = position_of(after, key);
        let oq = if q < p {
            q
        } else {
            q + 1
        };
        assert(after[q] == entries[oq]);
        if oq < p {
            assert(entries[oq].0 != entries[p].0);
        } else {
            assert(entries[p].0 != entries[oq].0);
        }
        assert(false);
    }
    assert forall|other: Seq<char>| other != key implies lookup(after, other) == lookup(
        entries,
        other,
    ) by {
        if has_key(entries, other) {
            let q = position_of(entries, other);
            assert(q != p);
            let nq = if q < p {
                q
            } else {
                q - 1
            };
            assert(after[nq] == entries[q]);
            lemma_position_unique(after, nq);
        } else {
            if has_key(after, other) {
                let q = position_of(after, other);
                let oq = if q < p {
                    q
                } else {
                    q + 1
                };
                assert(after[q] == entries[oq]);
                assert(entries[oq].0 == other);
                assert(false);
            }
        }
    }
}

/// The map of `with_entry` is the map with the key inserted.
pub proof fn lemma_as_map_with_entry<V>(entries: Seq<(Seq<char>, V)>, key: Seq<char>, value: V)
    requires
        keys_distinct(entries),
    ensures
        as_map(with_entry(entries, key, value)) == as_map(entries).insert(key, value),
{
    lemma_with_entry(entries, key, value);
    let after = with_entry(entries, key, value);
    assert forall|k: Seq<char>| #[trigger] as_map(after).dom().contains(k) <==> as_map(
        entries,
    ).insert(key, value).dom().contains(k) by {
        if k != key {
            assert(lookup(after, k) == lookup(entries, k));
        }
    }
    assert forall|k: Seq<char>| #[trigger] as_map(after).dom().contains(k) implies as_map(after)[k]
        == as_map(entries).insert(key, value)[k] by {
        if k != key {
            assert(lookup(after, k) == lookup(entries, k));
        }
    }
    assert(as_map(after) =~= as_map(entries).insert(key, value));
}

/// The map of `without_key` is the map with the key removed.
pub proof fn lemma_as_map_without_key<V>(entries: Seq<(Seq<char>, V)>, key: Seq<char>)
    requires
        keys_distinct(entries),
    ensures
        as_map(without_key(entries, key)) == as_map(entries).remove(key),
{
    lemma_without_key(entries, key);
    let after = without_key(entries, key);
    assert forall|k: Seq<char>| #[trigger] as_map(after).dom().contains(k) <==> as_map(
        entries,
    ).remove(key).dom().contains(k) by {
        if k != key {
            assert(lookup(after, k) == lookup(entries, k));
        }
    }
    assert forall|k: Seq<char>| #[trigger] as_map(after).dom().contains(k) implies as_map(after)[k]
        == as_map(entries).remove(key)[k] by {
        if k != key {
            assert(lookup(after, k) == lookup(entries, k));
        }
    }
    assert(as_map(after) =~= as_map(entries).remove(key));
}

/// Filtering the entries keeps the keys distinct; a key is present afterwards
/// exactly if it was present with an entry that the filter keeps, and then
/// with the same value.
pub proof fn lemma_filter_lookup<V>(
    entries: Seq<(Seq<char>, V)>,
    keep: spec_fn((Seq<char>, V)) -> bool,
)
    requires
        keys_distinct(entries),
    ensures
        keys_distinct(entries.filter(keep)),
        forall|key: Seq<char>| #[trigger]
            lookup(entries.filter(keep), key) == match lookup(entries, key) {
                Some(value) => if keep((key, value)) {
                    Some(value)
                } else {
                    None
                },
                None => None,
            },
    decreases entries.len(),
{
    reveal(Seq::filter);
    if entries.len() > 0 {
        let rest = entries.drop_last();
        let last = entries.last();
        let n = rest.len() as int;
        assert forall|i: int, j: int| 0 <= i < j < rest.len() implies (#[trigger] rest[i]).0 != (
        #[trigger] rest[j]).0 by {
            assert(entries[i].0 != entries[j].0);
        }
        lemma_filter_lookup(rest, keep);
        let kept_rest = rest.filter(keep);
        let kept = entries.filter(keep);
        if has_key(rest, last.0) {
            let p = position_of(rest, last.0);
            assert(entries[p].0 != entries[n].0);
        }
        assert(lookup(kept_rest, last.0) is None);
        assert(entries =~= with_entry(rest, last.0, last.1));
        lemma_with_entry(rest, last.0, last.1);
        if keep(last) {
            assert(kept =~= with_entry(kept_rest, last.0, last.1));
            lemma_with_entry(kept_rest, last.0, last.1);
        }
        assert forall|key: Seq<char>| #[trigger]
            lookup(kept, key) == match lookup(entries, key) {
                Some(value) => if keep((key, value)) {
                    Some(value)
                } else {
                    None
                },
                None => None,
            } by {
            if key == last.0 {
                assert((key, last.1) == last);
            } else {
                assert(lookup(entries, key) == lookup(rest, key));
                assert(lookup(kept, key) == lookup(kept_rest, key));
            }
        }
    }
}

/// A map from strings to values that remembers the order of insertion.
#[derive(Debug)]
pub struct StringMap<V> {
    items: Vec<(String, V)>,
}

impl<V> View for StringMap<V> {
    type V = Map<Seq<char>, V>;

    open spec fn view(&self) -> Map<Seq<char>, V> {
        as_map(self.entries())
    }
}

impl<V> StringMap<V> {
    /// The entries of the map, oldest key first.
    pub closed spec fn entries(&self) -> Seq<(Seq<char>, V)> {
        Seq::new(self.items@.len(), |i: int| (self.items@[i].0@, self.items@[i].1))
    }

    /// No key is stored twice. This holds of every map that a program can
    /// hold.
    #[verifier::type_invariant]
    pub open spec fn inv(&self) -> bool {
        keys_distinct(self.entries())
    }

    /// An empty map.
    pub fn new() -> (m: Self)
        ensures
            m.entries() == Seq::<(Seq<char>, V)>::empty(),
    {
        let items: Vec<(String, V)> = Vec::new();
        let ghost entries = Seq::new(items@.len(), |i: int| (items@[i].0@, items@[i].1));
        assert(entries =~= Seq::<(Seq<char>, V)>::empty());
        StringMap { items }
    }

    /// The number of entries.
    pub fn len(&self) -> (n: usize)
        ensures
            n == self.entries().len(),
    {
        self.items.len()
    }

    /// Whether the map has no entry.
    pub fn is_empty(&self) -> (b: bool)
        ensures
            b == (self.entries().len() == 0),
    {
        self.items.len() == 0
    }

    /// The position of `key` among the entries, if it is present.
    pub fn find(&self, key: &str) -> (r: Option<usize>)
        ensures
            match r {
                Some(i) => has_key(self.entries(), key@) && i == position_of(self.entries(), key@)
                    && i < self.entries().len(),
                None => !has_key(self.entries(), key@),
            },
    {
        proof {
            use_type_invariant(self);
        }
        let mut i: usize = 0;
        while i < self.items.len()
            invariant
                keys_distinct(self.entries()),
                i <= self.items@.len(),
                forall|j: int| 0 <= j < i ==> (#[trigger] self.entries()[j]).0 != key@,
            decreases self.items@.len() - i,
        {
            if str_eq(self.items[i].0.as_str(), key) {
                proof {
                    assert(self.entries()[i as int].0 == key@);
                    lemma_position_unique(self.entries(), i as int);
                }
                return Some(i);
            }
            i += 1;
        }
        None
    }

    /// Whether `key` is present.
    pub fn contains_key(&self, key: &str) -> (b: bool)
        ensures
            b == has_key(self.entries(), key@),
    {
        self.find(key).is_some()
    }

    /// The value stored under `key`, if any.
    pub fn get(&self, key: &str) -> (r: Option<&V>)
        ensures
            match r {
                Some(v) => lookup(self.entries(), key@) == Some(*v),
                None => lookup(self.entries(), key@) is None,
            },
    {
        match self.find(key) {
            Some(i) => Some(&self.items[i].1),
            None => None,
        }
    }

    /// The key at position `i`.
    pub fn key_at(&self, i: usize) -> (k: &String)
        requires
            i < self.entries().len(),
        ensures
            k@ == self.entries()[i as int].0,
    {
        &self.items[i].0
    }

    /// The value at position `i`.
    pub fn value_at(&self, i: usize) -> (v: &V)
        requires
            i < self.entries().len(),
        ensures
            *v == self.entries()[i as int].1,
    {
        &self.items[i].1
    }

    /// Stores `value` under `key` and returns the value that was there.
    pub fn insert(&mut self, key: String, value: V) -> (previous: Option<V>)
        ensures
            final(self).entries() == with_entry(old(self).entries(), key@, value),
            previous == lookup(old(self).entries(), key@),
    {
        proof {
            use_type_invariant(&*self);
            lemma_with_entry(self.entries(), key@, value);
        }
        let found = self.find(key.as_str());
        let mut items: Vec<(String, V)> = Vec::new();
        std::mem::swap(&mut items, &mut self.items);
        let ghost before = Seq::new(items@.len(), |i: int| (items@[i].0@, items@[i].1));
        assert(before =~= old(self).entries());
        let previous = match found {
            Some(i) => {
                items.push((key, value));
                let replaced = items.swap_remove(i);
                Some(replaced.1)
            },
            None => {
                items.push((key, value));
                None
            },
        };
        let ghost after = Seq::new(items@.len(), |i: int| (items@[i].0@, items@[i].1));
        assert(after =~= with_entry(before, key@, value));
        self.items = items;
        previous
    }

    /// Stores `value` under a key that is not yet present.
    pub fn insert_new(&mut self, key: String, value: V)
        requires
            !has_key(old(self).entries(), key@),
        ensures
            final(self).entries() == old(self).entries().push((key@, value)),
    {
        proof {
            use_type_invariant(&*self);
            lemma_with_entry(self.entries(), key@, value);
        }
        let mut items: Vec<(String, V)> = Vec::new();
        std::mem::swap(&mut items, &mut self.items);
        let ghost before = Seq::new(items@.len(), |i: int| (items@[i].0@, items@[i].1));
        assert(before =~= old(self).entries());
        items.push((key, value));
        let ghost after = Seq::new(items@.len(), |i: int| (items@[i].0@, items@[i].1));
        assert(after =~= with_entry(before, key@, value));
        self.items = items;
    }

    /// Stores `value` under a key that is not yet present, at position `i`;
    /// the entries from there on move one place towards the end.
    pub fn insert_at(&mut self, i: usize, key: String, value: V)
        requires
            i <= old(self).entries().len(),
            !has_key(old(self).entries(), key@),
        ensures
            final(self).entries() == old(self).entries().insert(i as int, (key@, value)),
    {
        proof {
            use_type_invariant(&*self);
        }
        let mut items: Vec<(String, V)> = Vec::new();
        std::mem::swap(&mut items, &mut self.items);
        let ghost before = Seq::new(items@.len(), |i: int| (items@[i].0@, items@[i].1));
        assert(before =~= old(self).entries());
        items.insert(i, (key, value));
        let ghost after = Seq::new(items@.len(), |i: int| (items@[i].0@, items@[i].1));
        assert(after =~= before.insert(i as int, (key@, value)));
        assert forall|a: int, b: int| 0 <= a < b < after.len() implies (#[trigger] after[a]).0 != (
        #[trigger] after[b]).0 by {
            let oa = if a < i {
                a
            } else {
                a - 1
            };
            let ob = if b < i {
                b
            } else {
                b - 1
            };
            if a == i {
                assert(after[b] == before[ob]);
            } else if b == i {
                assert(after[a] == before[oa]);
            } else {
                assert(after[a] == before[oa]);
                assert(after[b] == before[ob]);
                assert(before[oa].0 != before[ob].0);
            }
        }
        self.items = items;
    }

    /// Puts a value in the place of the one at position `i` and returns the
    /// one that was there. The key stays.
    pub fn replace_at(&mut self, i: usize, value: V) -> (previous: V)
        requires
            i < old(self).entries().len(),
        ensures
            final(self).entries() == old(self).entries().update(
                i as int,
                (old(self).entries()[i as int].0, value),
            ),
            previous == old(self).entries()[i as int].1,
    {
        proof {
            use_type_invariant(&*self);
        }
        let mut items: Vec<(String, V)> = Vec::new();
        std::mem::swap(&mut items, &mut self.items);
        let ghost before = Seq::new(items@.len(), |i: int| (items@[i].0@, items@[i].1));
        assert(before =~= old(self).entries());
        let entry = items.remove(i);
        items.insert(i, (entry.0, value));
        let ghost after = Seq::new(items@.len(), |i: int| (items@[i].0@, items@[i].1));
        assert(after =~= before.update(i as int, (before[i as int].0, value)));
        assert forall|a: int, b: int| 0 <= a < b < after.len() implies (#[trigger] after[a]).0 != (
        #[trigger] after[b]).0 by {
            assert(before[a].0 != before[b].0);
        }
        self.items = items;
        entry.1
    }

    /// Removes the entry at position `i` and returns it.
    pub fn remove_at(&mut self, i: usize) -> (entry: (String, V))
        requires
            i < old(self).entries().len(),
        ensures
            final(self).entries() == old(self).entries().remove(i as int),
            entry.0@ == old(self).entries()[i as int].0,
            entry.1 == old(self).entries()[i as int].1,
    {
        proof {
            use_type_invariant(&*self);
            lemma_remove_at(self.entries(), i as int);
        }
        let mut items: Vec<(String, V)> = Vec::new();
        std::mem::swap(&mut items, &mut self.items);
        let ghost before = Seq::new(items@.len(), |i: int| (items@[i].0@, items@[i].1));
        assert(before =~= old(self).entries());
        let entry = items.remove(i);
        let ghost after = Seq::new(items@.len(), |i: int| (items@[i].0@, items@[i].1));
        assert(after =~= before.remove(i as int));
        self.items = items;
        entry
    }

    /// Removes `key` and returns the value that was stored under it.
    pub fn remove(&mut self, key: &str) -> (previous: Option<V>)
        ensures
            final(self).entries() == without_key(old(self).entries(), key@),
            previous == lookup(old(self).entries(), key@),
    {
        match self.find(key) {
            Some(i) => {
                let entry = self.remove_at(i);
                Some(entry.1)
            },
            None => None,
        }
    }

    /// Removes every entry.
    pub fn clear(&mut self)
        ensures
            final(self).entries() == Seq::<(Seq<char>, V)>::empty(),
    {
        let items: Vec<(String, V)> = Vec::new();
        let ghost after = Seq::new(items@.len(), |i: int| (items@[i].0@, items@[i].1));
        assert(after =~= Seq::<(Seq<char>, V)>::empty());
        self.items = items;
    }

    /// The keys, oldest first.
    pub fn keys(&self) -> (ks: Vec<String>)
        ensures
            ks@.len() == self.entries().len(),
            forall|i: int| 0 <= i < ks@.len() ==> (#[trigger] ks@[i])@ == self.entries()[i].0,
    {
        let mut ks: Vec<String> = Vec::new();
        let mut i: usize = 0;
        while i < self.items.len()
            invariant
                i <= self.items@.len(),
                ks@.len() == i,
                forall|j: int| 0 <= j < i ==> (#[trigger] ks@[j])@ == self.entries()[j].0,
            decreases self.items@.len() - i,
        {
            ks.push(self.items[i].0.clone());
            i += 1;
        }
        ks
    }
}

} // verus!
