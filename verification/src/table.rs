//! A small map kept as a vector of entries with distinct keys.

use vstd::prelude::*;

verus! {

/// A key of a table: two keys are the same key where their views are equal,
/// and `same` decides it.
pub trait Key: View + Copy {
    fn same(&self, other: &Self) -> (r: bool)
        ensures
            r == (self@ == other@),
    ;
}

/// No two entries of `entries` have keys with the same view.
spec fn distinct_keys<K: View, V>(entries: Seq<(K, V)>) -> bool {
    forall|i: int, j: int|
        0 <= i < entries.len() && 0 <= j < entries.len() && i != j ==> #[trigger] entries[i].0@
            != #[trigger] entries[j].0@
}

/// Whether some entry of `entries` has the key `key`.
spec fn has_key<K: View, V>(entries: Seq<(K, V)>, key: K::V) -> bool {
    exists|i: int| 0 <= i < entries.len() && #[trigger] entries[i].0@ == key
}

/// The position of an entry with the key `key`, where there is one.
spec fn position<K: View, V>(entries: Seq<(K, V)>, key: K::V) -> int {
    choose|i: int| 0 <= i < entries.len() && #[trigger] entries[i].0@ == key
}

/// The map that the entries stand for.
spec fn entries_map<K: View, V>(entries: Seq<(K, V)>) -> Map<K::V, V> {
    Map::new(|key: K::V| has_key(entries, key), |key: K::V| entries[position(entries, key)].1)
}

/// A finite map from keys to values. Its view is a `Map` over the keys' views.
pub struct Table<K, V> {
    entries: Vec<(K, V)>,
}

impl<K: View, V> View for Table<K, V> {
    type V = Map<K::V, V>;

    closed spec fn view(&self) -> Map<K::V, V> {
        entries_map(self.entries@)
    }
}

impl<K: Key, V: Copy> Table<K, V> {
    /// The table holds no key twice.
    pub closed spec fn wf(&self) -> bool {
        distinct_keys(self.entries@)
    }

    /// The empty table.
    pub fn new() -> (r: Table<K, V>)
        ensures
            r.wf(),
            r@ == Map::<K::V, V>::empty(),
    {
        let r = Table { entries: Vec::new() };
        proof {
            assert(r@ =~= Map::<K::V, V>::empty());
        }
        r
    }

    /// The position of the entry with the key `key`, if there is one.
    fn find(&self, key: &K) -> (r: Option<usize>)
        requires
            self.wf(),
        ensures
            match r {
                Some(i) => i < self.entries@.len() && self.entries@[i as int].0@ == key@,
                None => !has_key(self.entries@, key@),
            },
    {
        let mut i: usize = 0;
        while i < self.entries.len()
            invariant
                i <= self.entries@.len(),
                forall|j: int| 0 <= j < i ==> self.entries@[j].0@ != key@,
            decreases self.entries@.len() - i,
        {
            if self.entries[i].0.same(key) {
                return Some(i);
            }
            i += 1;
        }
        None
    }

    /// The value stored under `key`, if there is one.
    pub fn get(&self, key: &K) -> (r: Option<V>)
        requires
            self.wf(),
        ensures
            r == (if self@.contains_key(key@) {
                Some(self@[key@])
            } else {
                None
            }),
    {
        match self.find(key) {
            Some(i) => {
                proof {
                    lemma_entry_at(self.entries@, i as int);
                }
                Some(self.entries[i].1)
            },
            None => None,
        }
    }

    /// Stores `value` under `key`, in place of what was stored there.
    pub fn insert(&mut self, key: K, value: V)
        requires
            old(self).wf(),
        ensures
            final(self).wf(),
            final(self)@ == old(self)@.insert(key@, value),
    {
        match self.find(&key) {
            Some(i) => {
                proof {
                    lemma_update_entry(self.entries@, i as int, key, value);
                }
                self.entries.set(i, (key, value));
            },
            None => {
                proof {
                    lemma_push_entry(self.entries@, key, value);
                }
                self.entries.push((key, value));
            },
        }
    }

    /// Removes `key` and what was stored under it.
    pub fn remove(&mut self, key: &K)
        requires
            old(self).wf(),
        ensures
            final(self).wf(),
            final(self)@ == old(self)@.remove(key@),
    {
        match self.find(key) {
            Some(i) => {
                proof {
                    lemma_remove_entry(self.entries@, i as int);
                }
                self.entries.remove(i);
            },
            None => {
                proof {
                    assert(self@ =~= self@.remove(key@));
                }
            },
        }
    }
}

/// With distinct keys, the map gives each entry's value under its key.
proof fn lemma_entry_at<K: View, V>(entries: Seq<(K, V)>, i: int)
    requires
        distinct_keys(entries),
        0 <= i < entries.len(),
    ensures
        has_key(entries, entries[i].0@),
        position(entries, entries[i].0@) == i,
        entries_map(entries).contains_key(entries[i].0@),
        entries_map(entries)[entries[i].0@] == entries[i].1,
{
    let key = entries[i].0@;
    assert(has_key(entries, key));
    let p = position(entries, key);
    assert(0 <= p < entries.len() && entries[p].0@ == key);
}

/// Replacing the value of the entry at `i` stores the new value under its key.
proof fn lemma_update_entry<K: View, V>(entries: Seq<(K, V)>, i: int, key: K, value: V)
    requires
        distinct_keys(entries),
        0 <= i < entries.len(),
        entries[i].0@ == key@,
    ensures
        distinct_keys(entries.update(i, (key, value))),
        entries_map(entries.update(i, (key, value))) == entries_map(entries).insert(key@, value),
{
    let after = entries.update(i, (key, value));
    assert forall|j: int| 0 <= j < entries.len() implies #[trigger] after[j].0@ == entries[j].0@ by {}
    assert(distinct_keys(after));
    assert forall|k: K::V| has_key(after, k) <==> has_key(entries, k) by {
        if has_key(after, k) {
            let p = position(after, k);
            assert(entries[p].0@ == k);
        }
        if has_key(entries, k) {
            let p = position(entries, k);
            assert(after[p].0@ == k);
        }
    }
    assert forall|k: K::V| has_key(after, k) implies #[trigger] entries_map(after)[k]
        == entries_map(entries).insert(key@, value)[k] by {
        let p = position(after, k);
        lemma_entry_at(after, p);
        lemma_entry_at(entries, p);
    }
    lemma_entry_at(entries, i);
    assert(entries_map(after) =~= entries_map(entries).insert(key@, value));
}

/// Appending an entry with a new key stores its value under that key.
proof fn lemma_push_entry<K: View, V>(entries: Seq<(K, V)>, key: K, value: V)
    requires
        distinct_keys(entries),
        !has_key(entries, key@),
    ensures
        distinct_keys(entries.push((key, value))),
        entries_map(entries.push((key, value))) == entries_map(entries).insert(key@, value),
{
    let after = entries.push((key, value));
    assert forall|i: int, j: int|
        0 <= i < after.len() && 0 <= j < after.len() && i != j implies #[trigger] after[i].0@
        != #[trigger] after[j].0@ by {
        if i < entries.len() {
            assert(entries[i].0@ == after[i].0@);
        }
        if j < entries.len() {
            assert(entries[j].0@ == after[j].0@);
        }
    }
    assert forall|k: K::V| has_key(after, k) <==> (has_key(entries, k) || k == key@) by {
        if has_key(after, k) {
            let p = position(after, k);
            if p < entries.len() {
                assert(entries[p].0@ == k);
            }
        }
        if has_key(entries, k) {
            let p = position(entries, k);
            assert(after[p].0@ == k);
        }
        if k == key@ {
            assert(after[entries.len() as int].0@ == k);
        }
    }
    assert forall|k: K::V| has_key(after, k) implies #[trigger] entries_map(after)[k]
        == entries_map(entries).insert(key@, value)[k] by {
        let p = position(after, k);
        lemma_entry_at(after, p);
        if p < entries.len() {
            lemma_entry_at(entries, p);
        }
    }
    assert(entries_map(after) =~= entries_map(entries).insert(key@, value));
}

/// Dropping the entry at `i` removes its key from the map.
proof fn lemma_remove_entry<K: View, V>(entries: Seq<(K, V)>, i: int)
    requires
        distinct_keys(entries),
        0 <= i < entries.len(),
    ensures
        distinct_keys(entries.remove(i)),
        entries_map(entries.remove(i)) == entries_map(entries).remove(entries[i].0@),
{
    let after = entries.remove(i);
    let key = entries[i].0@;
    assert forall|j: int| 0 <= j < after.len() implies #[trigger] after[j] == entries[if j < i {
        j
    } else {
        j + 1
    }] by {}
    assert forall|a: int, b: int|
        0 <= a < after.len() && 0 <= b < after.len() && a != b implies #[trigger] after[a].0@
        != #[trigger] after[b].0@ by {
        let first = if a < i { a } else { a + 1 };
        let second = if b < i { b } else { b + 1 };
        assert(after[a] == entries[first]);
        assert(after[b] == entries[second]);
    }
    assert forall|k: K::V| has_key(after, k) <==> (has_key(entries, k) && k != key) by {
        if has_key(after, k) {
            let p = position(after, k);
            let shifted = if p < i { p } else { p + 1 };
            assert(after[p] == entries[shifted]);
            assert(entries[shifted].0@ == k);
        }
        if has_key(entries, k) && k != key {
            let p = position(entries, k);
            let q = if p < i { p } else { p - 1 };
            assert(after[q] == entries[p]);
            assert(after[q].0@ == k);
        }
    }
    assert forall|k: K::V| has_key(after, k) implies #[trigger] entries_map(after)[k]
        == entries_map(entries).remove(key)[k] by {
        let p = position(after, k);
        let shifted = if p < i { p } else { p + 1 };
        assert(after[p] == entries[shifted]);
        lemma_entry_at(after, p);
        lemma_entry_at(entries, shifted);
    }
    assert(entries_map(after) =~= entries_map(entries).remove(key));
}

} // verus!
