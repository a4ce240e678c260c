use vstd::prelude::*;

use crate::text::str_eq;

verus! {

/// Whether entry `i` of `e` carries the key `k`.
pub open spec fn key_at<V>(e: Seq<(String, V)>, i: int, k: Seq<char>) -> bool {
    0 <= i < e.len() && e[i].0@ == k
}

/// No key occurs twice among the entries.
pub open spec fn distinct_keys<V>(e: Seq<(String, V)>) -> bool {
    forall|i: int, j: int|
        0 <= i < e.len() && 0 <= j < e.len() && i != j ==> #[trigger] e[i].0@ != #[trigger] e[j].0@
}

/// The map that a sequence of entries with distinct keys denotes.
pub open spec fn entries_map<V>(e: Seq<(String, V)>) -> Map<Seq<char>, V> {
    Map::new(
        |k: Seq<char>| exists|i: int| key_at(e, i, k),
        |k: Seq<char>| e[choose|i: int| key_at(e, i, k)].1,
    )
}

/// A map from strings to values, in which each key occurs once.
///
/// Its view is the finite map from the keys' characters to the values.
pub struct StrMap<V> {
    entries: Vec<(String, V)>,
}

impl<V> View for StrMap<V> {
    type V = Map<Seq<char>, V>;

    closed spec fn view(&self) -> Map<Seq<char>, V> {
        entries_map(self.entries@)
    }
}

impl<V> StrMap<V> {
    #[verifier::type_invariant]
    spec fn inv(self) -> bool {
        distinct_keys(self.entries@)
    }

    /// The entries in storage order.
    pub closed spec fn entry_seq(&self) -> Seq<(String, V)> {
        self.entries@
    }

    /// An empty map.
    pub fn new() -> (m: Self)
        ensures
            m@ == Map::<Seq<char>, V>::empty(),
    {
        let m = StrMap { entries: Vec::new() };
        assert(m@ =~= Map::<Seq<char>, V>::empty());
        m
    }

    /// Position of the entry with key `k`, if any.
    fn find(&self, k: &str) -> (r: Option<usize>)
        ensures
            match r {
                Some(i) => key_at(self.entries@, i as int, k@),
                None => forall|i: int| !key_at(self.entries@, i, k@),
            },
    {
        let mut i: usize = 0;
        while i < self.entries.len()
            invariant
                i <= self.entries.len(),
                forall|j: int| 0 <= j < i ==> !key_at(self.entries@, j, k@),
            decreases self.entries.len() - i,
        {
            if str_eq(self.entries[i].0.as_str(), k) {
                return Some(i);
            }
            i = i + 1;
        }
        None
    }

    /// Whether `k` is a key of the map.
    pub fn contains_key(&self, k: &str) -> (r: bool)
        ensures
            r == self@.contains_key(k@),
    {
        match self.find(k) {
            Some(i) => true,
            None => false,
        }
    }

    /// The value stored under `k`, if any.
    pub fn get(&self, k: &str) -> (r: Option<&V>)
        ensures
            match r {
                Some(v) => self@.contains_key(k@) && *v == self@[k@],
                None => !self@.contains_key(k@),
            },
    {
        proof {
            use_type_invariant(self);
        }
        match self.find(k) {
            Some(i) => {
                let ghost j = choose|j: int| key_at(self.entries@, j, k@);
                assert(j == i as int);
                Some(&self.entries[i].1)
            },
            None => None,
        }
    }

    /// Stores `v` under `k`, replacing any value that was there.
    pub fn insert(&mut self, k: String, v: V)
        ensures
            final(self)@ == old(self)@.insert(k@, v),
    {
        proof {
            use_type_invariant(&*self);
        }
        let ghost old_e = self.entries@;
        match self.find(k.as_str()) {
            Some(i) => {
                let ghost kk = k@;
                let mut entries = Vec::new();
                std::mem::swap(&mut entries, &mut self.entries);
                entries.set(i, (k, v));
                let ghost new_e = entries@;
                assert(new_e == old_e.update(i as int, (new_e[i as int].0, v)));
                assert(distinct_keys(new_e));
                self.entries = entries;
                assert forall|key: Seq<char>| #![auto]
                    entries_map(new_e).contains_key(key) == entries_map(old_e).insert(kk, v).contains_key(key)
                by {
                    if key != kk {
                        if exists|j: int| key_at(old_e, j, key) {
                            let j = choose|j: int| key_at(old_e, j, key);
                            assert(key_at(new_e, j, key));
                        }
                        if exists|j: int| key_at(new_e, j, key) {
                            let j = choose|j: int| key_at(new_e, j, key);
                            assert(key_at(old_e, j, key));
                        }
                    } else {
                        assert(key_at(new_e, i as int, key));
                    }
                }
                assert forall|key: Seq<char>| #[trigger] entries_map(new_e).contains_key(key)
                    implies entries_map(new_e)[key] == entries_map(old_e).insert(kk, v)[key]
                by {
                    let j = choose|j: int| key_at(new_e, j, key);
                    if key == kk {
                        assert(key_at(new_e, i as int, key));
                    } else {
                        assert(key_at(old_e, j, key));
                        let j2 = choose|j2: int| key_at(old_e, j2, key);
                        assert(key_at(new_e, j2, key));
                    }
                }
                assert(entries_map(new_e) =~= entries_map(old_e).insert(kk, v));
            },
            None => {
                let ghost kk = k@;
                let mut entries = Vec::new();
                std::mem::swap(&mut entries, &mut self.entries);
                entries.push((k, v));
                let ghost new_e = entries@;
                assert(new_e == old_e.push((new_e[old_e.len() as int].0, v)));
                assert forall|a: int, b: int|
                    0 <= a < new_e.len() && 0 <= b < new_e.len() && a != b implies #[trigger] new_e[a].0@ != #[trigger] new_e[b].0@
                by {
                    if a < old_e.len() && b < old_e.len() {
                        assert(old_e[a].0@ != old_e[b].0@);
                    } else if a < old_e.len() {
                        assert(!key_at(old_e, a, kk));
                    } else {
                        assert(!key_at(old_e, b, kk));
                    }
                }
                self.entries = entries;
                let ghost n = old_e.len() as int;
                assert(key_at(new_e, n, kk));
                assert forall|key: Seq<char>| #![auto]
                    entries_map(new_e).contains_key(key) == entries_map(old_e).insert(kk, v).contains_key(key)
                by {
                    if key != kk {
                        if exists|j: int| key_at(old_e, j, key) {
                            let j = choose|j: int| key_at(old_e, j, key);
                            assert(key_at(new_e, j, key));
                        }
                        if exists|j: int| key_at(new_e, j, key) {
                            let j = choose|j: int| key_at(new_e, j, key);
                            assert(key_at(old_e, j, key));
                        }
                    }
                }
                assert forall|key: Seq<char>| #[trigger] entries_map(new_e).contains_key(key)
                    implies entries_map(new_e)[key] == entries_map(old_e).insert(kk, v)[key]
                by {
                    let j = choose|j: int| key_at(new_e, j, key);
                    if key == kk {
                        assert(j == n);
                    } else {
                        assert(key_at(old_e, j, key));
                        let j2 = choose|j2: int| key_at(old_e, j2, key);
                        assert(key_at(new_e, j2, key));
                    }
                }
                assert(entries_map(new_e) =~= entries_map(old_e).insert(kk, v));
            },
        }
    }

    /// Removes the entry with key `k` and returns its value, if there was one.
    pub fn remove(&mut self, k: &str) -> (r: Option<V>)
        ensures
            match r {
                Some(v) => old(self)@.contains_key(k@) && v == old(self)@[k@],
                None => !old(self)@.contains_key(k@),
            },
            final(self)@ == old(self)@.remove(k@),
    {
        proof {
            use_type_invariant(&*self);
        }
        let ghost old_e = self.entries@;
        match self.find(k) {
            Some(i) => {
                let ghost kk = k@;
                proof {
                    let j = choose|j: int| key_at(old_e, j, kk);
                    assert(j == i as int);
                }
                let mut entries = Vec::new();
                std::mem::swap(&mut entries, &mut self.entries);
                let (_key, v) = entries.remove(i);
                let ghost new_e = entries@;
                assert(new_e =~= old_e.remove(i as int));
                assert forall|a: int, b: int|
                    0 <= a < new_e.len() && 0 <= b < new_e.len() && a != b implies #[trigger] new_e[a].0@ != #[trigger] new_e[b].0@
                by {
                    let a2 = if a < i { a } else { a + 1 };
                    let b2 = if b < i { b } else { b + 1 };
                    assert(old_e[a2].0@ != old_e[b2].0@);
                }
                self.entries = entries;
                assert forall|key: Seq<char>| #![auto]
                    entries_map(new_e).contains_key(key) == entries_map(old_e).remove(kk).contains_key(key)
                by {
                    if exists|j: int| key_at(new_e, j, key) {
                        let j = choose|j: int| key_at(new_e, j, key);
                        let j2 = if j < i { j } else { j + 1 };
                        assert(key_at(old_e, j2, key));
                        assert(j2 != i);
                    }
                    if key != kk && exists|j: int| key_at(old_e, j, key) {
                        let j = choose|j: int| key_at(old_e, j, key);
                        assert(j != i);
                        let j2 = if j < i { j } else { j - 1 };
                        assert(key_at(new_e, j2, key));
                    }
                }
                assert forall|key: Seq<char>| #[trigger] entries_map(new_e).contains_key(key)
                    implies entries_map(new_e)[key] == entries_map(old_e).remove(kk)[key]
                by {
                    let j = choose|j: int| key_at(new_e, j, key);
                    let j2 = if j < i { j } else { j + 1 };
                    assert(key_at(old_e, j2, key));
                    let j3 = choose|j3: int| key_at(old_e, j3, key);
                    assert(j3 == j2);
                }
                assert(entries_map(new_e) =~= entries_map(old_e).remove(kk));
                Some(v)
            },
            None => {
                assert(self@ =~= old(self)@.remove(k@));
                None
            },
        }
    }

    /// Whether the map has no entry.
    pub fn is_empty(&self) -> (r: bool)
        ensures
            r == (self@ == Map::<Seq<char>, V>::empty()),
    {
        if self.entries.len() == 0 {
            assert(self@ =~= Map::<Seq<char>, V>::empty());
            true
        } else {
            assert(key_at(self.entries@, 0, self.entries@[0].0@));
            assert(self@.contains_key(self.entries@[0].0@));
            false
        }
    }

    /// The number of entries.
    pub fn len(&self) -> (r: usize)
        ensures
            r == self.entry_seq().len(),
    {
        self.entries.len()
    }

    /// The keys of the map, each once, in storage order.
    pub fn keys(&self) -> (ks: Vec<String>)
        ensures
            ks.len() == self.entry_seq().len(),
            forall|i: int| 0 <= i < ks.len() ==> self@.contains_key(#[trigger] ks@[i]@),
            forall|k: Seq<char>| #[trigger] self@.contains_key(k) ==> exists|i: int| 0 <= i < ks.len() && ks@[i]@ == k,
            forall|i: int, j: int| 0 <= i < ks.len() && 0 <= j < ks.len() && i != j ==> #[trigger] ks@[i]@ != #[trigger] ks@[j]@,
    {
        proof {
            use_type_invariant(self);
        }
        let mut ks: Vec<String> = Vec::new();
        let mut i: usize = 0;
        while i < self.entries.len()
            invariant
                i <= self.entries.len(),
                ks.len() == i,
                distinct_keys(self.entries@),
                forall|j: int| 0 <= j < i ==> #[trigger] ks@[j]@ == self.entries@[j].0@,
            decreases self.entries.len() - i,
        {
            ks.push(self.entries[i].0.clone());
            i = i + 1;
        }
        assert forall|j: int| 0 <= j < ks.len() implies self@.contains_key(#[trigger] ks@[j]@) by {
            assert(key_at(self.entries@, j, ks@[j]@));
        }
        assert forall|k: Seq<char>| #[trigger] self@.contains_key(k) implies exists|i: int| 0 <= i < ks.len() && ks@[i]@ == k by {
            let j = choose|j: int| key_at(self.entries@, j, k);
            assert(ks@[j]@ == k);
        }
        assert forall|a: int, b: int| 0 <= a < ks.len() && 0 <= b < ks.len() && a != b implies #[trigger] ks@[a]@ != #[trigger] ks@[b]@ by {
            assert(self.entries@[a].0@ != self.entries@[b].0@);
        }
        ks
    }
}

} // verus!
