//! A map from texts to values, kept as a list of entries in the order the
//! keys were first inserted, with no key twice.

use crate::text::str_eq;
use vstd::prelude::*;

verus! {

/// No two entries share a key.
pub open spec fn keys_unique<V>(s: Seq<(String, V)>) -> bool {
    forall|i: int, j: int| 0 <= i < j < s.len() ==> s[i].0@ != s[j].0@
}

/// Some entry has the key.
pub open spec fn has_key<V>(s: Seq<(String, V)>, k: Seq<char>) -> bool {
    exists|i: int| 0 <= i < s.len() && s[i].0@ == k
}

/// The position of the entry with the key, when there is one.
pub open spec fn key_index<V>(s: Seq<(String, V)>, k: Seq<char>) -> int {
    choose|i: int| 0 <= i < s.len() && s[i].0@ == k
}

/// The map that a list of entries with distinct keys stands for.
pub open spec fn entries_map<V>(s: Seq<(String, V)>) -> Map<Seq<char>, V> {
    Map::new(|k: Seq<char>| has_key(s, k), |k: Seq<char>| s[key_index(s, k)].1)
}

/// The keys of the entries, in order.
pub open spec fn entry_keys<V>(s: Seq<(String, V)>) -> Seq<Seq<char>> {
    s.map_values(|e: (String, V)| e.0@)
}

/// With distinct keys, the entry found for a key is the one at any position
/// holding it.
pub proof fn lemma_key_index<V>(s: Seq<(String, V)>, i: int)
    requires
        keys_unique(s),
        0 <= i < s.len(),
    ensures
        has_key(s, s[i].0@),
        key_index(s, s[i].0@) == i,
{
    let k = s[i].0@;
    assert(has_key(s, k));
    let j = key_index(s, k);
    if j != i {
        if j < i {
            assert(s[j].0@ != s[i].0@);
        } else {
            assert(s[i].0@ != s[j].0@);
        }
    }
}

/// A map from texts to values that remembers the order of first insertion.
#[derive(Debug)]
pub struct AssocList<V> {
    entries: Vec<(String, V)>,
}

impl<V> AssocList<V> {
    #[verifier::type_invariant]
    spec fn distinct_keys(self) -> bool {
        keys_unique(self.entries@)
    }

    /// The entries, in order of first insertion.
    pub closed spec fn spec_entries(&self) -> Seq<(String, V)> {
        self.entries@
    }

    /// The map the list stands for.
    pub open spec fn map(&self) -> Map<Seq<char>, V> {
        entries_map(self.spec_entries())
    }

    /// An empty map.
    pub fn new() -> (r: Self)
        ensures
            r.spec_entries().len() == 0,
            r.map() == Map::<Seq<char>, V>::empty(),
    {
        let r = AssocList { entries: Vec::new() };
        assert(r.map() =~= Map::<Seq<char>, V>::empty());
        r
    }

    /// The position of the entry with the key.
    fn find(&self, key: &str) -> (r: Option<usize>)
        ensures
            match r {
                Some(i) => i < self.spec_entries().len() && self.spec_entries()[i as int].0@ == key@
                    && key_index(self.spec_entries(), key@) == i,
                None => !has_key(self.spec_entries(), key@),
            },
    {
        proof {
            use_type_invariant(self);
        }
        let mut i: usize = 0;
        while i < self.entries.len()
            invariant
                i <= self.entries@.len(),
                keys_unique(self.entries@),
                forall|j: int| 0 <= j < i ==> self.entries@[j].0@ != key@,
            decreases self.entries@.len() - i,
        {
            if str_eq(self.entries[i].0.as_str(), key) {
                proof {
                    lemma_key_index(self.entries@, i as int);
                }
                return Some(i);
            }
            i = i + 1;
        }
        None
    }

    /// Whether the key is present.
    pub fn contains_key(&self, key: &str) -> (r: bool)
        ensures
            r == self.map().contains_key(key@),
    {
        self.find(key).is_some()
    }

    /// The value under the key.
    pub fn get(&self, key: &str) -> (r: Option<&V>)
        ensures
            match r {
                Some(v) => self.map().contains_key(key@) && *v == self.map()[key@],
                None => !self.map().contains_key(key@),
            },
    {
        match self.find(key) {
            Some(i) => Some(&self.entries[i].1),
            None => None,
        }
    }

    /// The number of keys.
    pub fn len(&self) -> (r: usize)
        ensures
            r == self.spec_entries().len(),
            r == self.map().len(),
    {
        proof {
            use_type_invariant(self);
            self.lemma_len();
        }
        self.entries.len()
    }

    /// Whether there is no key.
    pub fn is_empty(&self) -> (r: bool)
        ensures
            r == (self.map().len() == 0),
    {
        self.len() == 0
    }

    proof fn lemma_len(&self)
        requires
            keys_unique(self.spec_entries()),
        ensures
            self.map().len() == self.spec_entries().len(),
    {
        let s = self.spec_entries();
        let keys = entry_keys(s);
        assert(self.map().dom() =~= keys.to_set()) by {
            assert forall|k: Seq<char>| self.map().dom().contains(k) implies keys.to_set().contains(k) by {
                let i = key_index(s, k);
                assert(keys[i] == k);
            }
            assert forall|k: Seq<char>| keys.to_set().contains(k) implies self.map().dom().contains(k) by {
                let i = choose|i: int| 0 <= i < keys.len() && keys[i] == k;
                assert(s[i].0@ == k);
            }
        }
        assert(keys.no_duplicates()) by {
            assert forall|i: int, j: int| 0 <= i < keys.len() && 0 <= j < keys.len() && i != j implies keys[i] != keys[j] by {
                if i < j {
                    assert(s[i].0@ != s[j].0@);
                } else {
                    assert(s[j].0@ != s[i].0@);
                }
            }
        }
        keys.unique_seq_to_set();
    }

    /// Set the value under a key: an entry with the key keeps its place,
    /// a new key goes last. Returns the value it replaced.
    pub fn insert(&mut self, key: String, value: V) -> (r: Option<V>)
        ensures
            final(self).map() == old(self).map().insert(key@, value),
            match r {
                Some(v) => old(self).map().contains_key(key@) && v == old(self).map()[key@],
                None => !old(self).map().contains_key(key@),
            },
            has_key(old(self).spec_entries(), key@) ==> final(self).spec_entries().len() == old(self).spec_entries().len(),
            !has_key(old(self).spec_entries(), key@) ==> final(self).spec_entries() == old(self).spec_entries().push((key, value)),
    {
        proof {
            use_type_invariant(&*self);
        }
        let ghost old_entries = self.entries@;
        let ghost k = key@;
        match self.find(key.as_str()) {
            Some(i) => {
                let mut entries: Vec<(String, V)> = Vec::new();
                std::mem::swap(&mut entries, &mut self.entries);
                let (_, previous) = entries.remove(i);
                entries.insert(i, (key, value));
                let ghost s = entries@;
                assert(s =~= old_entries.update(i as int, (s[i as int].0, value)));
                assert(keys_unique(s)) by {
                    assert forall|a: int, b: int| 0 <= a < b < s.len() implies s[a].0@ != s[b].0@ by {
                        if a != i && b != i {
                            assert(s[a] == old_entries[a] && s[b] == old_entries[b]);
                        } else if a == i {
                            assert(old_entries[a].0@ == k);
                        } else {
                            assert(old_entries[b].0@ == k);
                        }
                    }
                }
                proof {
                    lemma_update_map(old_entries, i as int, s[i as int].0, value);
                }
                self.entries = entries;
                Some(previous)
            },
            None => {
                let mut entries: Vec<(String, V)> = Vec::new();
                std::mem::swap(&mut entries, &mut self.entries);
                entries.push((key, value));
                let ghost s = entries@;
                assert(keys_unique(s)) by {
                    assert forall|a: int, b: int| 0 <= a < b < s.len() implies s[a].0@ != s[b].0@ by {
                        if b == s.len() - 1 {
                            assert(s[a] == old_entries[a]);
                        } else {
                            assert(s[a] == old_entries[a] && s[b] == old_entries[b]);
                        }
                    }
                }
                proof {
                    lemma_push_map(old_entries, (s.last().0, value));
                }
                self.entries = entries;
                None
            },
        }
    }

    /// Remove the entry under a key, keeping the order of the others.
    pub fn remove(&mut self, key: &str) -> (r: Option<V>)
        ensures
            final(self).map() == old(self).map().remove(key@),
            match r {
                Some(v) => old(self).map().contains_key(key@) && v == old(self).map()[key@],
                None => !old(self).map().contains_key(key@),
            },
    {
        proof {
            use_type_invariant(&*self);
        }
        let ghost old_entries = self.entries@;
        match self.find(key) {
            Some(i) => {
                let mut entries: Vec<(String, V)> = Vec::new();
                std::mem::swap(&mut entries, &mut self.entries);
                let (_, previous) = entries.remove(i);
                let ghost s = entries@;
                assert(s =~= old_entries.remove(i as int));
                assert(keys_unique(s)) by {
                    assert forall|a: int, b: int| 0 <= a < b < s.len() implies s[a].0@ != s[b].0@ by {
                        if b < i {
                            assert(s[a] == old_entries[a] && s[b] == old_entries[b]);
                        } else if a < i {
                            assert(s[a] == old_entries[a] && s[b] == old_entries[b + 1]);
                        } else {
                            assert(s[a] == old_entries[a + 1] && s[b] == old_entries[b + 1]);
                        }
                    }
                }
                proof {
                    lemma_remove_map(old_entries, i as int);
                }
                self.entries = entries;
                Some(previous)
            },
            None => {
                assert(entries_map(old_entries).remove(key@) =~= entries_map(old_entries));
                None
            },
        }
    }

    /// The keys, in order of first insertion.
    pub fn keys(&self) -> (r: Vec<String>)
        ensures
            r@.len() == self.spec_entries().len(),
            forall|i: int| 0 <= i < r@.len() ==> #[trigger] r@[i]@ == self.spec_entries()[i].0@,
    {
        let mut out: Vec<String> = Vec::new();
        let mut i: usize = 0;
        while i < self.entries.len()
            invariant
                i <= self.entries@.len(),
                out@.len() == i,
                forall|j: int| 0 <= j < i ==> #[trigger] out@[j]@ == self.entries@[j].0@,
            decreases self.entries@.len() - i,
        {
            out.push(self.entries[i].0.clone());
            i = i + 1;
        }
        out
    }

    /// The entries, in order of first insertion.
    pub fn entries(&self) -> (r: &Vec<(String, V)>)
        ensures
            r@ == self.spec_entries(),
            forall|i: int|
                0 <= i < r@.len() ==> self.map().contains_key(#[trigger] r@[i].0@) && self.map()[r@[i].0@] == r@[i].1,
    {
        proof {
            use_type_invariant(self);
            assert forall|i: int| 0 <= i < self.entries@.len() implies self.map().contains_key(
                #[trigger] self.entries@[i].0@,
            ) && self.map()[self.entries@[i].0@] == self.entries@[i].1 by {
                lemma_key_index(self.entries@, i);
            }
        }
        &self.entries
    }

    /// A copy: the same keys in the same order, each value a clone.
    pub fn duplicate(&self) -> (r: Self)
        where
            V: Clone,
        ensures
            r.spec_entries().len() == self.spec_entries().len(),
            forall|i: int|
                0 <= i < r.spec_entries().len() ==> (#[trigger] r.spec_entries()[i]).0@ == self.spec_entries()[i].0@
                    && cloned(self.spec_entries()[i].1, r.spec_entries()[i].1),
    {
        proof {
            use_type_invariant(self);
        }
        let mut out: Vec<(String, V)> = Vec::new();
        let mut i: usize = 0;
        while i < self.entries.len()
            invariant
                i <= self.entries@.len(),
                keys_unique(self.entries@),
                out@.len() == i,
                forall|j: int|
                    0 <= j < i ==> (#[trigger] out@[j]).0@ == self.entries@[j].0@ && cloned(
                        self.entries@[j].1,
                        out@[j].1,
                    ),
            decreases self.entries@.len() - i,
        {
            let key = self.entries[i].0.clone();
            let value = self.entries[i].1.clone();
            out.push((key, value));
            i = i + 1;
        }
        assert(keys_unique(out@)) by {
            assert forall|a: int, b: int| 0 <= a < b < out@.len() implies out@[a].0@ != out@[b].0@ by {
                assert(out@[a].0@ == self.entries@[a].0@);
                assert(out@[b].0@ == self.entries@[b].0@);
            }
        }
        AssocList { entries: out }
    }

    /// Remove every entry.
    pub fn clear(&mut self)
        ensures
            final(self).spec_entries().len() == 0,
            final(self).map() == Map::<Seq<char>, V>::empty(),
    {
        self.entries = Vec::new();
        assert(self.map() =~= Map::<Seq<char>, V>::empty());
    }
}

proof fn lemma_update_map<V>(s: Seq<(String, V)>, i: int, key: String, v: V)
    requires
        keys_unique(s),
        0 <= i < s.len(),
        s[i].0@ == key@,
        keys_unique(s.update(i, (key, v))),
    ensures
        entries_map(s.update(i, (key, v))) == entries_map(s).insert(key@, v),
{
    let t = s.update(i, (key, v));
    lemma_key_index(t, i);
    assert forall|k: Seq<char>| #[trigger] has_key(t, k) == has_key(s, k) by {
        if has_key(s, k) {
            let j = key_index(s, k);
            assert(t[j].0@ == k);
        }
        if has_key(t, k) {
            let j = key_index(t, k);
            assert(s[j].0@ == k);
        }
    }
    assert forall|k: Seq<char>| has_key(s, k) && k != key@ implies #[trigger] t[key_index(t, k)].1 == s[key_index(s, k)].1 by {
        let j = key_index(s, k);
        lemma_key_index(s, j);
        assert(t[j].0@ == k);
        lemma_key_index(t, j);
    }
    assert(entries_map(t) =~= entries_map(s).insert(key@, v));
}

proof fn lemma_push_map<V>(s: Seq<(String, V)>, e: (String, V))
    requires
        keys_unique(s),
        !has_key(s, e.0@),
        keys_unique(s.push(e)),
    ensures
        entries_map(s.push(e)) == entries_map(s).insert(e.0@, e.1),
{
    let t = s.push(e);
    lemma_key_index(t, s.len() as int);
    assert forall|k: Seq<char>| #[trigger] has_key(t, k) == (has_key(s, k) || k == e.0@) by {
        if has_key(s, k) {
            let j = key_index(s, k);
            assert(t[j].0@ == k);
        }
        if has_key(t, k) && k != e.0@ {
            let j = key_index(t, k);
            assert(s[j].0@ == k);
        }
    }
    assert forall|k: Seq<char>| has_key(s, k) implies #[trigger] t[key_index(t, k)].1 == s[key_index(s, k)].1 by {
        let j = key_index(s, k);
        lemma_key_index(s, j);
        assert(t[j] == s[j]);
        lemma_key_index(t, j);
    }
    assert(entries_map(t) =~= entries_map(s).insert(e.0@, e.1));
}

proof fn lemma_remove_map<V>(s: Seq<(String, V)>, i: int)
    requires
        keys_unique(s),
        0 <= i < s.len(),
        keys_unique(s.remove(i)),
    ensures
        entries_map(s.remove(i)) == entries_map(s).remove(s[i].0@),
{
    let t = s.remove(i);
    let key = s[i].0@;
    assert forall|k: Seq<char>| #[trigger] has_key(t, k) == (has_key(s, k) && k != key) by {
        if has_key(s, k) && k != key {
            let j = key_index(s, k);
            if j < i {
                assert(t[j] == s[j]);
            } else {
                assert(j != i);
                assert(t[j - 1] == s[j]);
            }
        }
        if has_key(t, k) {
            let j = key_index(t, k);
            if j < i {
                assert(t[j] == s[j]);
            } else {
                assert(t[j] == s[j + 1]);
                assert(s[i].0@ != s[j + 1].0@);
            }
        }
    }
    assert forall|k: Seq<char>| has_key(t, k) implies #[trigger] t[key_index(t, k)].1 == s[key_index(s, k)].1 by {
        let j = key_index(t, k);
        lemma_key_index(t, j);
        if j < i {
            assert(t[j] == s[j]);
            lemma_key_index(s, j);
        } else {
            assert(t[j] == s[j + 1]);
            lemma_key_index(s, j + 1);
        }
    }
    assert(entries_map(t) =~= entries_map(s).remove(key));
}

/// What is read back under a key is what was last written there, and
/// writing one key leaves the others as they were.
pub proof fn law_read_after_write<V>(m: Map<Seq<char>, V>, k: Seq<char>, other: Seq<char>, v: V)
    requires
        other != k,
    ensures
        m.insert(k, v).contains_key(k),
        m.insert(k, v)[k] == v,
        m.insert(k, v).contains_key(other) == m.contains_key(other),
        m.contains_key(other) ==> m.insert(k, v)[other] == m[other],
        !m.remove(k).contains_key(k),
{
}

} // verus!
