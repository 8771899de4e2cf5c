use crate::text::str_eq;
use vstd::prelude::*;

verus! {

/// Is `key` the key of some entry of `entries`?
spec fn has_key<V>(entries: Seq<(String, V)>, key: Seq<char>) -> bool {
    exists|i: int| 0 <= i < entries.len() && (#[trigger] entries[i]).0@ == key
}

/// The position of an entry of `entries` whose key is `key`.
spec fn key_index<V>(entries: Seq<(String, V)>, key: Seq<char>) -> int {
    choose|i: int| 0 <= i < entries.len() && (#[trigger] entries[i]).0@ == key
}

/// No two entries of `entries` share a key.
spec fn distinct_keys<V>(entries: Seq<(String, V)>) -> bool {
    forall|i: int, j: int|
        0 <= i < j < entries.len() ==> (#[trigger] entries[i]).0@ != (#[trigger] entries[j]).0@
}

/// The map that `entries` stands for: each key with the value stored beside it.
spec fn as_map<V>(entries: Seq<(String, V)>) -> Map<Seq<char>, V> {
    Map::new(|k: Seq<char>| has_key(entries, k), |k: Seq<char>| entries[key_index(entries, k)].1)
}

/// The keys of `entries`, in their order.
spec fn key_seq<V>(entries: Seq<(String, V)>) -> Seq<Seq<char>> {
    Seq::new(entries.len(), |i: int| entries[i].0@)
}

/// With distinct keys, the entry at `i` is the one the map shows under its key.
proof fn lemma_entry_in_map<V>(entries: Seq<(String, V)>, i: int)
    requires
        distinct_keys(entries),
        0 <= i < entries.len(),
    ensures
        as_map(entries).contains_key(entries[i].0@),
        as_map(entries)[entries[i].0@] == entries[i].1,
        key_index(entries, entries[i].0@) == i,
{
    let k = entries[i].0@;
    assert(has_key(entries, k));
    let j = key_index(entries, k);
    assert(0 <= j < entries.len() && entries[j].0@ == k);
    if j < i {
        assert(entries[j].0@ != entries[i].0@);
    } else if i < j {
        assert(entries[i].0@ != entries[j].0@);
    }
}

/// Appending an entry under a new key inserts it into the map.
proof fn lemma_push_entry<V>(entries: Seq<(String, V)>, key: String, value: V)
    requires
        distinct_keys(entries),
        !has_key(entries, key@),
    ensures
        distinct_keys(entries.push((key, value))),
        as_map(entries.push((key, value))) == as_map(entries).insert(key@, value),
        key_seq(entries.push((key, value))) == key_seq(entries).push(key@),
{
    let after = entries.push((key, value));
    assert forall|i: int, j: int| 0 <= i < j < after.len() implies (#[trigger] after[i]).0@ != (
    #[trigger] after[j]).0@ by {
        if j == entries.len() {
            assert(after[i] == entries[i]);
        } else {
            assert(after[i] == entries[i]);
            assert(after[j] == entries[j]);
        }
    }
    assert forall|k: Seq<char>| has_key(after, k) <==> (k == key@ || has_key(entries, k)) by {
        if has_key(after, k) {
            let i = key_index(after, k);
            if i < entries.len() {
                assert(entries[i].0@ == k);
            }
        }
        if has_key(entries, k) {
            let i = key_index(entries, k);
            assert(after[i].0@ == k);
        }
        if k == key@ {
            assert(after[entries.len() as int].0@ == k);
        }
    }
    assert forall|k: Seq<char>| has_key(after, k) implies as_map(after)[k] == as_map(
        entries,
    ).insert(key@, value)[k] by {
        let i = key_index(after, k);
        lemma_entry_in_map(after, i);
        if i < entries.len() {
            assert(after[i] == entries[i]);
            lemma_entry_in_map(entries, i);
        }
    }
    assert(as_map(after) =~= as_map(entries).insert(key@, value));
    assert(key_seq(after) =~= key_seq(entries).push(key@));
}

/// Replacing the entry at `i` by one with the same key inserts the new value.
proof fn lemma_update_entry<V>(entries: Seq<(String, V)>, i: int, key: String, value: V)
    requires
        distinct_keys(entries),
        0 <= i < entries.len(),
        entries[i].0@ == key@,
    ensures
        distinct_keys(entries.update(i, (key, value))),
        as_map(entries.update(i, (key, value))) == as_map(entries).insert(key@, value),
        key_seq(entries.update(i, (key, value))) == key_seq(entries),
{
    let after = entries.update(i, (key, value));
    assert forall|a: int, b: int| 0 <= a < b < after.len() implies (#[trigger] after[a]).0@ != (
    #[trigger] after[b]).0@ by {
        assert(after[a].0@ == entries[a].0@);
        assert(after[b].0@ == entries[b].0@);
    }
    assert forall|k: Seq<char>| has_key(after, k) <==> has_key(entries, k) by {
        if has_key(after, k) {
            let a = key_index(after, k);
            assert(entries[a].0@ == k);
        }
        if has_key(entries, k) {
            let a = key_index(entries, k);
            assert(after[a].0@ == k);
        }
    }
    lemma_entry_in_map(entries, i);
    assert forall|k: Seq<char>| has_key(after, k) implies as_map(after)[k] == as_map(
        entries,
    ).insert(key@, value)[k] by {
        let a = key_index(after, k);
        lemma_entry_in_map(after, a);
        if a != i {
            assert(after[a] == entries[a]);
            lemma_entry_in_map(entries, a);
        }
    }
    assert(as_map(after) =~= as_map(entries).insert(key@, value));
    assert(key_seq(after) =~= key_seq(entries));
}

/// Taking out the entry at `i` removes its key from the map.
proof fn lemma_remove_entry<V>(entries: Seq<(String, V)>, i: int)
    requires
        distinct_keys(entries),
        0 <= i < entries.len(),
    ensures
        distinct_keys(entries.remove(i)),
        as_map(entries.remove(i)) == as_map(entries).remove(entries[i].0@),
        key_seq(entries.remove(i)) == key_seq(entries).remove(i),
{
    let after = entries.remove(i);
    let gone = entries[i].0@;
    assert forall|a: int| 0 <= a < after.len() implies #[trigger] after[a] == entries[if a < i {
        a
    } else {
        a + 1
    }] by {}
    assert forall|a: int, b: int| 0 <= a < b < after.len() implies (#[trigger] after[a]).0@ != (
    #[trigger] after[b]).0@ by {
        let a0 = if a < i { a } else { a + 1 };
        let b0 = if b < i { b } else { b + 1 };
        assert(after[a] == entries[a0]);
        assert(after[b] == entries[b0]);
        assert(entries[a0].0@ != entries[b0].0@);
    }
    assert forall|k: Seq<char>| has_key(after, k) <==> (k != gone && has_key(entries, k)) by {
        if has_key(after, k) {
            let a = key_index(after, k);
            let a0 = if a < i { a } else { a + 1 };
            assert(after[a] == entries[a0]);
            assert(entries[a0].0@ == k);
            if a0 < i {
                assert(entries[a0].0@ != entries[i].0@);
            } else {
                assert(entries[i].0@ != entries[a0].0@);
            }
        }
        if k != gone && has_key(entries, k) {
            let a0 = key_index(entries, k);
            let a = if a0 < i { a0 } else { a0 - 1 };
            assert(after[a] == entries[a0]);
            assert(after[a].0@ == k);
        }
    }
    assert forall|k: Seq<char>| has_key(after, k) implies as_map(after)[k] == as_map(
        entries,
    ).remove(gone)[k] by {
        let a = key_index(after, k);
        let a0 = if a < i { a } else { a + 1 };
        lemma_entry_in_map(after, a);
        assert(after[a] == entries[a0]);
        lemma_entry_in_map(entries, a0);
    }
    assert(as_map(after) =~= as_map(entries).remove(gone));
    assert(key_seq(after) =~= key_seq(entries).remove(i));
}

/// A map from text keys to values that remembers the order in which its
/// keys were first inserted. No key occurs twice.
#[derive(Debug)]
pub struct StrMap<V> {
    entries: Vec<(String, V)>,
}

impl<V> View for StrMap<V> {
    type V = Map<Seq<char>, V>;

    closed spec fn view(&self) -> Map<Seq<char>, V> {
        as_map(self.entries@)
    }
}

impl<V> StrMap<V> {
    #[verifier::type_invariant]
    spec fn well_formed(&self) -> bool {
        distinct_keys(self.entries@)
    }

    /// The keys in the order of their first insertion.
    pub closed spec fn keys(&self) -> Seq<Seq<char>> {
        key_seq(self.entries@)
    }

    /// The map without any key.
    pub fn new() -> (map: Self)
        ensures
            map@ == Map::<Seq<char>, V>::empty(),
            map.keys() == Seq::<Seq<char>>::empty(),
    {
        let map = StrMap { entries: Vec::new() };
        assert(map@ =~= Map::<Seq<char>, V>::empty());
        assert(map.keys() =~= Seq::<Seq<char>>::empty());
        map
    }

    /// Moves the entries out and leaves the map empty.
    fn take_entries(&mut self) -> (entries: Vec<(String, V)>)
        ensures
            entries@ == old(self).entries@,
            final(self).entries@ == Seq::<(String, V)>::empty(),
    {
        let mut taken = StrMap { entries: Vec::new() };
        core::mem::swap(self, &mut taken);
        taken.entries
    }

    /// The position of `key` among the entries.
    fn position(&self, key: &str) -> (found: Option<usize>)
        ensures
            match found {
                Some(i) => i < self.entries@.len() && self.entries@[i as int].0@ == key@,
                None => !has_key(self.entries@, key@),
            },
    {
        let n: usize = self.entries.len();
        let mut i: usize = 0;
        while i < n
            invariant
                n == self.entries@.len(),
                i <= n,
                forall|k: int| 0 <= k < i ==> (#[trigger] self.entries@[k]).0@ != key@,
            decreases n - i,
        {
            if str_eq(self.entries[i].0.as_str(), key) {
                return Some(i);
            }
            i += 1;
        }
        None
    }

    /// The number of keys, with what relates `keys()` to the view.
    pub fn len(&self) -> (n: usize)
        ensures
            n == self.keys().len(),
            self.keys().no_duplicates(),
            forall|k: Seq<char>| self@.contains_key(k) <==> self.keys().contains(k),
    {
        proof {
            use_type_invariant(self);
            let entries = self.entries@;
            assert forall|i: int, j: int|
                0 <= i < self.keys().len() && 0 <= j < self.keys().len() && i != j implies self.keys()[i]
                != self.keys()[j] by {
                if i < j {
                    assert(entries[i].0@ != entries[j].0@);
                } else {
                    assert(entries[j].0@ != entries[i].0@);
                }
            }
            assert forall|k: Seq<char>| self@.contains_key(k) <==> self.keys().contains(k) by {
                if self@.contains_key(k) {
                    let i = key_index(entries, k);
                    assert(self.keys()[i] == k);
                }
                if self.keys().contains(k) {
                    let i = choose|i: int| 0 <= i < self.keys().len() && self.keys()[i] == k;
                    assert(entries[i].0@ == k);
                }
            }
        }
        self.entries.len()
    }

    /// `true` when the map has no key.
    pub fn is_empty(&self) -> (empty: bool)
        ensures
            empty == (self.keys().len() == 0),
            empty == (self@ == Map::<Seq<char>, V>::empty()),
    {
        proof {
            if self.entries@.len() == 0 {
                assert(self@ =~= Map::<Seq<char>, V>::empty());
            } else {
                assert(has_key(self.entries@, self.entries@[0].0@));
                assert(self@.contains_key(self.entries@[0].0@));
            }
        }
        self.entries.len() == 0
    }

    /// The key at position `i` of `keys()`.
    pub fn key_at(&self, i: usize) -> (key: &String)
        requires
            i < self.keys().len(),
        ensures
            key@ == self.keys()[i as int],
            self@.contains_key(key@),
    {
        proof {
            use_type_invariant(self);
            lemma_entry_in_map(self.entries@, i as int);
        }
        &self.entries[i].0
    }

    /// The value stored under the key at position `i` of `keys()`.
    pub fn value_at(&self, i: usize) -> (value: &V)
        requires
            i < self.keys().len(),
        ensures
            self@.contains_key(self.keys()[i as int]),
            *value == self@[self.keys()[i as int]],
    {
        proof {
            use_type_invariant(self);
            lemma_entry_in_map(self.entries@, i as int);
        }
        &self.entries[i].1
    }

    /// Is there a value under `key`?
    pub fn contains_key(&self, key: &str) -> (present: bool)
        ensures
            present == self@.contains_key(key@),
    {
        self.position(key).is_some()
    }

    /// The value under `key`, if there is one.
    pub fn get(&self, key: &str) -> (value: Option<&V>)
        ensures
            match value {
                Some(v) => self@.contains_key(key@) && *v == self@[key@],
                None => !self@.contains_key(key@),
            },
    {
        match self.position(key) {
            Some(i) => {
                proof {
                    use_type_invariant(self);
                    lemma_entry_in_map(self.entries@, i as int);
                }
                Some(&self.entries[i].1)
            },
            None => None,
        }
    }

    /// Stores `value` under `key` and hands back what was stored there
    /// before. A new key goes to the end of `keys()`; a key already present
    /// keeps its place.
    pub fn insert(&mut self, key: String, value: V) -> (before: Option<V>)
        ensures
            final(self)@ == old(self)@.insert(key@, value),
            old(self)@.contains_key(key@) ==> final(self).keys() == old(self).keys(),
            !old(self)@.contains_key(key@) ==> final(self).keys() == old(self).keys().push(key@),
            match before {
                Some(v) => old(self)@.contains_key(key@) && v == old(self)@[key@],
                None => !old(self)@.contains_key(key@),
            },
    {
        proof {
            use_type_invariant(&*self);
        }
        match self.position(key.as_str()) {
            Some(i) => {
                proof {
                    lemma_update_entry(self.entries@, i as int, key, value);
                    lemma_entry_in_map(self.entries@, i as int);
                }
                let mut entries = self.take_entries();
                let ghost as_was = entries@;
                entries.push((key, value));
                let gone = entries.swap_remove(i);
                assert(entries@ =~= as_was.update(i as int, (key, value)));
                *self = StrMap { entries };
                Some(gone.1)
            },
            None => {
                proof {
                    lemma_push_entry(self.entries@, key, value);
                }
                let mut entries = self.take_entries();
                entries.push((key, value));
                *self = StrMap { entries };
                None
            },
        }
    }

    /// Takes `key` out of the map and hands back what was stored under it.
    pub fn remove(&mut self, key: &str) -> (value: Option<V>)
        ensures
            final(self)@ == old(self)@.remove(key@),
            match value {
                Some(v) => old(self)@.contains_key(key@) && v == old(self)@[key@],
                None => !old(self)@.contains_key(key@),
            },
            !old(self)@.contains_key(key@) ==> final(self).keys() == old(self).keys(),
            old(self)@.contains_key(key@) ==> exists|i: int|
                0 <= i < old(self).keys().len() && old(self).keys()[i] == key@ && final(self).keys()
                    == old(self).keys().remove(i),
    {
        proof {
            use_type_invariant(&*self);
        }
        match self.position(key) {
            Some(i) => {
                proof {
                    lemma_remove_entry(self.entries@, i as int);
                    lemma_entry_in_map(self.entries@, i as int);
                    assert(old(self).keys()[i as int] == key@);
                }
                let mut entries = self.take_entries();
                let gone = entries.remove(i);
                *self = StrMap { entries };
                Some(gone.1)
            },
            None => {
                proof {
                    assert(self@ =~= self@.remove(key@));
                }
                None
            },
        }
    }

    /// Takes every key out of the map.
    pub fn clear(&mut self)
        ensures
            final(self)@ == Map::<Seq<char>, V>::empty(),
            final(self).keys() == Seq::<Seq<char>>::empty(),
    {
        *self = StrMap { entries: Vec::new() };
        assert(self@ =~= Map::<Seq<char>, V>::empty());
        assert(self.keys() =~= Seq::<Seq<char>>::empty());
    }
}

impl<V: Clone> Clone for StrMap<V> {
    /// A map with the same keys in the same order, each value cloned.
    fn clone(&self) -> (copy: Self)
        ensures
            copy.keys() == self.keys(),
            copy@.dom() == self@.dom(),
            forall|k: Seq<char>| #[trigger] self@.contains_key(k) ==> cloned::<V>(self@[k], copy@[k]),
    {
        proof {
            use_type_invariant(self);
        }
        let n: usize = self.entries.len();
        let mut entries: Vec<(String, V)> = Vec::new();
        let mut i: usize = 0;
        while i < n
            invariant
                n == self.entries@.len(),
                i <= n,
                entries@.len() == i,
                forall|k: int| 0 <= k < i ==> (#[trigger] entries@[k]).0@ == self.entries@[k].0@,
                forall|k: int| 0 <= k < i ==> cloned::<V>(self.entries@[k].1, (#[trigger] entries@[k]).1),
            decreases n - i,
        {
            let key = self.entries[i].0.clone();
            let value = self.entries[i].1.clone();
            entries.push((key, value));
            i += 1;
        }
        proof {
            let mine = self.entries@;
            let theirs = entries@;
            assert forall|a: int, b: int| 0 <= a < b < theirs.len() implies (#[trigger] theirs[a]).0@
                != (#[trigger] theirs[b]).0@ by {
                assert(mine[a].0@ != mine[b].0@);
            }
            assert(key_seq(theirs) =~= key_seq(mine));
            assert forall|k: Seq<char>| has_key(theirs, k) <==> has_key(mine, k) by {
                if has_key(theirs, k) {
                    let a = key_index(theirs, k);
                    assert(mine[a].0@ == k);
                }
                if has_key(mine, k) {
                    let a = key_index(mine, k);
                    assert(theirs[a].0@ == k);
                }
            }
            assert(as_map(theirs).dom() =~= as_map(mine).dom());
            assert forall|k: Seq<char>| #[trigger] as_map(mine).contains_key(k) implies cloned::<V>(
                as_map(mine)[k],
                as_map(theirs)[k],
            ) by {
                let a = key_index(mine, k);
                lemma_entry_in_map(mine, a);
                assert(theirs[a].0@ == k);
                lemma_entry_in_map(theirs, a);
            }
        }
        StrMap { entries }
    }
}

/// Each element of `s` replaced by its view.
pub open spec fn seq_views<T: View>(s: Seq<T>) -> Seq<T::V> {
    s.map_values(|x: T| x@)
}

/// Each value of `m` replaced by its view.
pub open spec fn map_views<T: View>(m: Map<Seq<char>, T>) -> Map<Seq<char>, T::V> {
    m.map_values(|x: T| x@)
}

/// Inserting a value and then taking views is inserting the value's view.
pub proof fn lemma_map_views_insert<T: View>(m: Map<Seq<char>, T>, key: Seq<char>, value: T)
    ensures
        map_views(m.insert(key, value)) == map_views(m).insert(key, value@),
{
    assert(map_views(m.insert(key, value)) =~= map_views(m).insert(key, value@));
}

impl StrMap<String> {
    /// The map as plain text: each key with the characters stored under it.
    pub open spec fn texts(&self) -> Map<Seq<char>, Seq<char>> {
        map_views(self@)
    }

    /// Stores a copy of `value` under a copy of `key`.
    pub fn set(&mut self, key: &str, value: &str)
        ensures
            final(self).texts() == old(self).texts().insert(key@, value@),
            old(self)@.contains_key(key@) ==> final(self).keys() == old(self).keys(),
            !old(self)@.contains_key(key@) ==> final(self).keys() == old(self).keys().push(key@),
    {
        let k = String::from_str(key);
        let v = String::from_str(value);
        proof {
            lemma_map_views_insert(self@, k@, v);
        }
        self.insert(k, v);
    }

    /// A copy with the same keys, in the same order, and the same texts.
    pub fn duplicate(&self) -> (copy: Self)
        ensures
            copy@ == self@,
            copy.texts() == self.texts(),
            copy.keys() == self.keys(),
    {
        let copy = self.clone();
        assert(copy@ =~= self@);
        copy
    }
}

impl StrMap<bool> {
    /// A copy with the same keys, in the same order, and the same flags.
    pub fn duplicate(&self) -> (copy: Self)
        ensures
            copy@ == self@,
            copy.keys() == self.keys(),
    {
        let copy = self.clone();
        assert(copy@ =~= self@);
        copy
    }
}

} // verus!
