//! A small map from 32-byte public keys to values, kept as an association list
//! with distinct keys in insertion order.

use vstd::prelude::*;

verus! {

/// Compares two 32-byte values (keys, challenges) byte by byte.
pub fn bytes32_eq(a: &[u8; 32], b: &[u8; 32]) -> (r: bool)
    ensures
        r == (a@ == b@),
{
    let mut i: usize = 0;
    while i < 32
        invariant
            0 <= i <= 32,
            forall|j: int| 0 <= j < i ==> a@[j] == b@[j],
        decreases 32 - i,
    {
        if a[i] != b[i] {
            return false;
        }
        i = i + 1;
    }
    assert(a@ =~= b@);
    true
}

/// Public keys mapped to values. Each key occurs at most once; entries keep the
/// order in which their keys were first inserted.
pub struct PubkeyMap<V> {
    entries: Vec<([u8; 32], V)>,
}

/// Index of the entry holding `key`, if any, in an association list.
pub open spec fn index_of_key<V>(entries: Seq<([u8; 32], V)>, key: Seq<u8>) -> int {
    choose|i: int| 0 <= i < entries.len() && entries[i].0@ == key
}

/// Whether some entry of the list holds `key`.
pub open spec fn has_key<V>(entries: Seq<([u8; 32], V)>, key: Seq<u8>) -> bool {
    exists|i: int| 0 <= i < entries.len() && entries[i].0@ == key
}

/// The list after storing `value` under `key`: the entry holding `key` is
/// replaced in place, or a new entry is appended.
pub open spec fn inserted<V>(entries: Seq<([u8; 32], V)>, key: [u8; 32], value: V) -> Seq<([u8; 32], V)> {
    if has_key(entries, key@) {
        entries.update(index_of_key(entries, key@), (key, value))
    } else {
        entries.push((key, value))
    }
}

/// Whether no key occurs twice in the list.
pub open spec fn keys_distinct<V>(entries: Seq<([u8; 32], V)>) -> bool {
    forall|i: int, j: int|
        0 <= i < entries.len() && 0 <= j < entries.len() && i != j ==> entries[i].0@ != entries[j].0@
}

impl<V: Copy> PubkeyMap<V> {
    /// The entries, in order.
    pub closed spec fn entries(&self) -> Seq<([u8; 32], V)> {
        self.entries@
    }

    /// Keys are distinct.
    pub open spec fn wf(&self) -> bool {
        keys_distinct(self.entries())
    }

    /// Whether `key` is present.
    pub open spec fn contains(&self, key: Seq<u8>) -> bool {
        has_key(self.entries(), key)
    }

    /// The value stored under `key` (meaningful when `contains(key)`).
    pub open spec fn value_of(&self, key: Seq<u8>) -> V {
        self.entries()[index_of_key(self.entries(), key)].1
    }

    /// An empty map.
    pub fn new() -> (r: Self)
        ensures
            r.wf(),
            r.entries() == Seq::<([u8; 32], V)>::empty(),
    {
        PubkeyMap { entries: Vec::new() }
    }

    /// Number of keys.
    pub fn len(&self) -> (r: usize)
        ensures
            r == self.entries().len(),
    {
        self.entries.len()
    }

    /// The key and value at position `i`.
    pub fn entry(&self, i: usize) -> (r: ([u8; 32], V))
        requires
            i < self.entries().len(),
        ensures
            r == self.entries()[i as int],
    {
        self.entries[i]
    }

    /// Position of `key`, if present.
    pub fn position(&self, key: &[u8; 32]) -> (r: Option<usize>)
        requires
            self.wf(),
        ensures
            match r {
                Some(i) => i < self.entries().len() && self.entries()[i as int].0@ == key@
                    && index_of_key(self.entries(), key@) == i,
                None => !self.contains(key@),
            },
    {
        let mut i: usize = 0;
        while i < self.entries.len()
            invariant
                self.wf(),
                0 <= i <= self.entries@.len(),
                forall|j: int| 0 <= j < i ==> self.entries@[j].0@ != key@,
            decreases self.entries@.len() - i,
        {
            if bytes32_eq(&self.entries[i].0, key) {
                assert(self.entries()[i as int].0@ == key@);
                assert(has_key(self.entries(), key@));
                let ghost k = index_of_key(self.entries(), key@);
                assert(0 <= k < self.entries().len() && self.entries()[k].0@ == key@);
                return Some(i);
            }
            i = i + 1;
        }
        None
    }

    /// The value stored under `key`, if any.
    pub fn get(&self, key: &[u8; 32]) -> (r: Option<V>)
        requires
            self.wf(),
        ensures
            r == (if self.contains(key@) { Some(self.value_of(key@)) } else { None::<V> }),
    {
        match self.position(key) {
            Some(i) => Some(self.entries[i].1),
            None => None,
        }
    }

    /// Stores `value` under `key`, replacing an earlier value in place or
    /// appending a new entry.
    pub fn insert(&mut self, key: [u8; 32], value: V)
        requires
            old(self).wf(),
        ensures
            final(self).wf(),
            final(self).contains(key@),
            final(self).value_of(key@) == value,
            forall|k: Seq<u8>| k != key@ ==> (final(self).contains(k) == old(self).contains(k)),
            forall|k: Seq<u8>| k != key@ && old(self).contains(k) ==> final(self).value_of(k) == old(self).value_of(k),
            final(self).entries() == inserted(old(self).entries(), key, value),
    {
        match self.position(&key) {
            Some(i) => {
                let ghost old_entries = self.entries@;
                self.entries.set(i, (key, value));
                proof {
                    let e = self.entries@;
                    assert(has_key(e, key@)) by {
                        assert(e[i as int].0@ == key@);
                    }
                    assert forall|a: int, b: int| 0 <= a < e.len() && 0 <= b < e.len() && a != b
                        implies e[a].0@ != e[b].0@ by {
                        assert(old_entries[a].0@ == e[a].0@);
                        assert(old_entries[b].0@ == e[b].0@);
                    }
                    let k0 = index_of_key(e, key@);
                    assert(k0 == i);
                    assert forall|k: Seq<u8>| k != key@ implies has_key(e, k) == has_key(old_entries, k) by {
                        if has_key(e, k) {
                            let j = choose|j: int| 0 <= j < e.len() && e[j].0@ == k;
                            assert(old_entries[j].0@ == k);
                        }
                        if has_key(old_entries, k) {
                            let j = choose|j: int| 0 <= j < old_entries.len() && old_entries[j].0@ == k;
                            assert(e[j].0@ == k);
                        }
                    }
                    assert forall|k: Seq<u8>| k != key@ && has_key(old_entries, k)
                        implies e[index_of_key(e, k)].1 == old_entries[index_of_key(old_entries, k)].1 by {
                        let a = index_of_key(e, k);
                        let b = index_of_key(old_entries, k);
                        assert(has_key(e, k));
                        assert(e[a].0@ == k);
                        assert(old_entries[b].0@ == k);
                        assert(e[b].0@ == k);
                        assert(a == b);
                    }
                }
            },
            None => {
                let ghost old_entries = self.entries@;
                self.entries.push((key, value));
                proof {
                    let e = self.entries@;
                    let n = old_entries.len() as int;
                    assert(e[n].0@ == key@);
                    assert(has_key(e, key@));
                    assert forall|a: int, b: int| 0 <= a < e.len() && 0 <= b < e.len() && a != b
                        implies e[a].0@ != e[b].0@ by {
                        if a < n && b < n {
                            assert(old_entries[a] == e[a]);
                            assert(old_entries[b] == e[b]);
                        } else if a == n {
                            assert(old_entries[b] == e[b]);
                        } else {
                            assert(old_entries[a] == e[a]);
                        }
                    }
                    assert(index_of_key(e, key@) == n);
                    assert forall|k: Seq<u8>| k != key@ implies has_key(e, k) == has_key(old_entries, k) by {
                        if has_key(e, k) {
                            let j = choose|j: int| 0 <= j < e.len() && e[j].0@ == k;
                            assert(j < n);
                            assert(old_entries[j] == e[j]);
                        }
                        if has_key(old_entries, k) {
                            let j = choose|j: int| 0 <= j < old_entries.len() && old_entries[j].0@ == k;
                            assert(e[j] == old_entries[j]);
                        }
                    }
                    assert forall|k: Seq<u8>| k != key@ && has_key(old_entries, k)
                        implies e[index_of_key(e, k)].1 == old_entries[index_of_key(old_entries, k)].1 by {
                        let a = index_of_key(e, k);
                        let b = index_of_key(old_entries, k);
                        assert(has_key(e, k));
                        assert(e[a].0@ == k);
                        assert(old_entries[b].0@ == k);
                        assert(e[b] == old_entries[b]);
                        assert(a == b);
                    }
                }
            },
        }
    }

    /// A copy of the map with the same entries.
    pub fn duplicate(&self) -> (r: Self)
        ensures
            r.entries() == self.entries(),
    {
        let mut entries: Vec<([u8; 32], V)> = Vec::new();
        let mut i: usize = 0;
        while i < self.entries.len()
            invariant
                0 <= i <= self.entries@.len(),
                entries@ == self.entries@.take(i as int),
            decreases self.entries@.len() - i,
        {
            entries.push(self.entries[i]);
            i = i + 1;
            assert(entries@ =~= self.entries@.take(i as int));
        }
        assert(self.entries@.take(self.entries@.len() as int) =~= self.entries@);
        PubkeyMap { entries }
    }

    /// Removes every entry.
    pub fn clear(&mut self)
        ensures
            final(self).wf(),
            final(self).entries() == Seq::<([u8; 32], V)>::empty(),
    {
        self.entries = Vec::new();
    }
}

} // verus!
