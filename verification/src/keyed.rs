//! An insertion-ordered map from text keys to values: the library's stand-in
//! for the hash maps of device and request tables. Each key occurs at most
//! once; the order in which keys were first inserted is kept.
use vstd::prelude::*;
use crate::text::str_eq;

verus! {

/// Map from text keys to values, without duplicate keys.
#[derive(Debug)]
pub struct KeyedList<V> {
    entries: Vec<(String, V)>,
}

impl<V> KeyedList<V> {
    /// The keys, in insertion order.
    pub closed spec fn keys(&self) -> Seq<Seq<char>> {
        self.entries@.map_values(|e: (String, V)| e.0@)
    }

    /// The values, in the order of their keys.
    pub closed spec fn values(&self) -> Seq<V> {
        self.entries@.map_values(|e: (String, V)| e.1)
    }

    /// No key occurs twice.
    #[verifier::type_invariant]
    spec fn keys_distinct(self) -> bool {
        self.keys().no_duplicates()
    }

    /// The table as a map.
    pub open spec fn view(&self) -> Map<Seq<char>, V> {
        Map::new(
            |k: Seq<char>| self.keys().contains(k),
            |k: Seq<char>| self.values()[self.keys().index_of(k)],
        )
    }

    /// An empty table.
    pub fn new() -> (r: Self)
        ensures
            r@ == Map::<Seq<char>, V>::empty(),
            r.keys() == Seq::<Seq<char>>::empty(),
            r.values() == Seq::<V>::empty(),
    {
        let entries: Vec<(String, V)> = Vec::new();
        assert(entries@.map_values(|e: (String, V)| e.0@) =~= Seq::<Seq<char>>::empty());
        let r = KeyedList { entries };
        assert(r@ =~= Map::<Seq<char>, V>::empty());
        assert(r.values() =~= Seq::<V>::empty());
        r
    }

    /// Number of entries: the size of the map.
    pub fn len(&self) -> (n: usize)
        ensures
            n == self.keys().len(),
            self@.dom().finite(),
            n == self@.dom().len(),
    {
        proof {
            use_type_invariant(self);
            self.lemma_size();
        }
        self.entries.len()
    }

    /// The keys of the map are those of the key sequence, so the map has
    /// as many entries as the sequence.
    proof fn lemma_size(&self)
        requires
            self.keys().no_duplicates(),
        ensures
            self@.dom() == self.keys().to_set(),
            self@.dom().finite(),
            self@.dom().len() == self.keys().len(),
    {
        assert(self@.dom() =~= self.keys().to_set());
        self.keys().unique_seq_to_set();
    }

    /// Position of `key` among the keys.
    fn position(&self, key: &str) -> (r: Option<usize>)
        ensures
            match r {
                Some(i) => i < self.keys().len() && self.keys()[i as int] == key@,
                None => !self.keys().contains(key@),
            },
    {
        let mut i: usize = 0;
        while i < self.entries.len()
            invariant
                i <= self.entries@.len(),
                forall|j: int| 0 <= j < i ==> self.keys()[j] != key@,
            decreases self.entries@.len() - i,
        {
            assert(self.keys()[i as int] == self.entries@[i as int].0@);
            if str_eq(self.entries[i].0.as_str(), key) {
                return Some(i);
            }
            i = i + 1;
        }
        proof {
            if self.keys().contains(key@) {
                let j = choose|j: int| 0 <= j < self.keys().len() && self.keys()[j] == key@;
                assert(self.keys()[j] != key@);
            }
        }
        None
    }

    /// The value at position `i` is the one the map gives for the key at `i`.
    proof fn lemma_index_of(&self, i: int)
        requires
            self.keys().no_duplicates(),
            0 <= i < self.keys().len(),
        ensures
            self.keys().index_of(self.keys()[i]) == i,
            self@.contains_key(self.keys()[i]),
            self@[self.keys()[i]] == self.values()[i],
    {
        let k = self.keys()[i];
        assert(self.keys().contains(k));
        let j = self.keys().index_of(k);
        assert(0 <= j < self.keys().len() && self.keys()[j] == k);
    }

    /// Whether `key` has an entry.
    pub fn contains_key(&self, key: &str) -> (b: bool)
        ensures
            b == self@.contains_key(key@),
    {
        self.position(key).is_some()
    }

    /// The value stored under `key`.
    pub fn get(&self, key: &str) -> (r: Option<&V>)
        ensures
            match r {
                Some(v) => self@.contains_key(key@) && *v == self@[key@],
                None => !self@.contains_key(key@),
            },
    {
        match self.position(key) {
            Some(i) => {
                proof {
                    use_type_invariant(self);
                    self.lemma_index_of(i as int);
                }
                Some(&self.entries[i].1)
            },
            None => None,
        }
    }

    /// The entry at position `i`, in key order.
    pub fn entry_at(&self, i: usize) -> (r: (&String, &V))
        requires
            i < self.keys().len(),
        ensures
            r.0@ == self.keys()[i as int],
            *r.1 == self.values()[i as int],
    {
        let e = &self.entries[i];
        (&e.0, &e.1)
    }

    /// Stores `value` under `key`: a new key goes last; an existing key keeps
    /// its place and gets the new value (`HashMap::insert`).
    pub fn insert(&mut self, key: String, value: V)
        ensures
            final(self)@ == old(self)@.insert(key@, value),
            old(self).keys().contains(key@) ==> final(self).keys() == old(self).keys(),
            !old(self).keys().contains(key@) ==> final(self).keys() == old(self).keys().push(key@),
            !old(self).keys().contains(key@) ==> final(self).values() == old(self).values().push(value),
    {
        proof {
            use_type_invariant(&*self);
        }
        let ghost k = key@;
        let pos = self.position(key.as_str());
        let mut entries: Vec<(String, V)> = Vec::new();
        std::mem::swap(&mut entries, &mut self.entries);
        match pos {
            Some(i) => {
                entries.set(i, (key, value));
                proof {
                    let nk = entries@.map_values(|e: (String, V)| e.0@);
                    assert(nk =~= old(self).keys().update(i as int, k));
                    assert(nk =~= old(self).keys());
                }
                self.entries = entries;
                proof {
                    assert(self.keys() =~= old(self).keys());
                    assert(self.values() =~= old(self).values().update(i as int, value));
                    assert forall|q: Seq<char>| #[trigger] self@.contains_key(q) == old(self)@.insert(k, value).contains_key(q) by {}
                    assert forall|q: Seq<char>| self@.contains_key(q) implies #[trigger] self@[q] == old(self)@.insert(k, value)[q] by {
                        let j = self.keys().index_of(q);
                        self.lemma_index_of(j);
                        old(self).lemma_index_of(j);
                    }
                    assert(self@ =~= old(self)@.insert(k, value));
                }
            },
            None => {
                entries.push((key, value));
                proof {
                    let ok = old(self).keys();
                    let nk = entries@.map_values(|e: (String, V)| e.0@);
                    assert(nk =~= ok.push(k));
                    assert forall|a: int, b: int| 0 <= a < nk.len() && 0 <= b < nk.len() && a != b
                        implies nk[a] != nk[b] by {
                        if a == ok.len() as int {
                            assert(ok[b] != k);
                        } else if b == ok.len() as int {
                            assert(ok[a] != k);
                        }
                    }
                }
                self.entries = entries;
                proof {
                    assert(self.keys() =~= old(self).keys().push(k));
                    assert(self.values() =~= old(self).values().push(value));
                    assert forall|q: Seq<char>| #[trigger] self@.contains_key(q) == old(self)@.insert(k, value).contains_key(q) by {
                        if q == k {
                            assert(self.keys()[old(self).keys().len() as int] == k);
                        } else if old(self).keys().contains(q) {
                            let j = old(self).keys().index_of(q);
                            assert(self.keys()[j] == q);
                        }
                    }
                    assert forall|q: Seq<char>| self@.contains_key(q) implies #[trigger] self@[q] == old(self)@.insert(k, value)[q] by {
                        let j = self.keys().index_of(q);
                        self.lemma_index_of(j);
                        if j < old(self).keys().len() {
                            old(self).lemma_index_of(j);
                        }
                    }
                    assert(self@ =~= old(self)@.insert(k, value));
                }
            },
        }
    }

    /// Removes the entry of `key`, if any, keeping the order of the others
    /// (`HashMap::remove`).
    pub fn remove(&mut self, key: &str) -> (r: Option<V>)
        ensures
            final(self)@ == old(self)@.remove(key@),
            match r {
                Some(v) => old(self)@.contains_key(key@) && v == old(self)@[key@],
                None => !old(self)@.contains_key(key@),
            },
    {
        proof {
            use_type_invariant(&*self);
        }
        match self.position(key) {
            Some(i) => {
                proof {
                    old(self).lemma_index_of(i as int);
                }
                let mut entries: Vec<(String, V)> = Vec::new();
                std::mem::swap(&mut entries, &mut self.entries);
                let e = entries.remove(i);
                proof {
                    let ok = old(self).keys();
                    let nk = entries@.map_values(|e: (String, V)| e.0@);
                    assert(nk =~= ok.remove(i as int));
                    assert forall|a: int, b: int| 0 <= a < nk.len() && 0 <= b < nk.len() && a != b
                        implies nk[a] != nk[b] by {
                        let a2 = if a < i { a } else { a + 1 };
                        let b2 = if b < i { b } else { b + 1 };
                        assert(nk[a] == ok[a2]);
                        assert(nk[b] == ok[b2]);
                    }
                }
                self.entries = entries;
                proof {
                    let ok = old(self).keys();
                    assert(self.keys() =~= ok.remove(i as int));
                    assert(self.values() =~= old(self).values().remove(i as int));
                    assert forall|q: Seq<char>| #[trigger] self@.contains_key(q) == old(self)@.remove(key@).contains_key(q) by {
                        if old(self).keys().contains(q) && q != key@ {
                            let j = ok.index_of(q);
                            let j2 = if j < i { j } else { j - 1 };
                            assert(self.keys()[j2] == q);
                        }
                        if self.keys().contains(q) {
                            let j = self.keys().index_of(q);
                            let j2 = if j < i { j } else { j + 1 };
                            assert(ok[j2] == q);
                        }
                    }
                    assert forall|q: Seq<char>| self@.contains_key(q) implies #[trigger] self@[q] == old(self)@.remove(key@)[q] by {
                        let j = self.keys().index_of(q);
                        self.lemma_index_of(j);
                        let j2 = if j < i { j } else { j + 1 };
                        old(self).lemma_index_of(j2);
                    }
                    assert(self@ =~= old(self)@.remove(key@));
                }
                Some(e.1)
            },
            None => {
                proof {
                    assert(old(self)@.remove(key@) =~= old(self)@);
                }
                None
            },
        }
    }
}

impl<V: Clone> Clone for KeyedList<V> {
    /// A copy with the same keys in the same order; each value is cloned.
    fn clone(&self) -> (r: Self)
        ensures
            r.keys() == self.keys(),
    {
        proof {
            use_type_invariant(self);
        }
        let mut entries: Vec<(String, V)> = Vec::new();
        for i in 0..self.entries.len()
            invariant
                entries@.len() == i,
                forall|j: int| 0 <= j < i ==> #[trigger] entries@[j].0@ == self.entries@[j].0@,
        {
            let e = &self.entries[i];
            entries.push((e.0.clone(), e.1.clone()));
        }
        proof {
            assert(entries@.map_values(|e: (String, V)| e.0@) =~= self.keys());
        }
        KeyedList { entries }
    }
}

/// A read gives back what the last write of that key wrote, and a write
/// leaves the other keys as they were; a removed key reads as absent.
pub proof fn law_read_after_write<V>(before: Map<Seq<char>, V>, k: Seq<char>, v: V, other: Seq<char>)
    requires
        other != k,
    ensures
        before.insert(k, v).contains_key(k),
        before.insert(k, v)[k] == v,
        before.insert(k, v).contains_key(other) == before.contains_key(other),
        before.contains_key(other) ==> before.insert(k, v)[other] == before[other],
        !before.remove(k).contains_key(k),
        before.remove(k).contains_key(other) == before.contains_key(other),
{
}

} // verus!
