//! A map from string keys to values, kept as a list of entries in the order
//! they were first inserted, with no key occurring twice.

use vstd::prelude::*;

use crate::text::same_text;

verus! {

/// String-keyed map. No two entries share a key.
pub struct KeyedVec<V> {
    entries: Vec<(String, V)>,
}

/// The keys of `e`, by their characters.
pub open spec fn entry_keys<V>(e: Seq<(String, V)>) -> Seq<Seq<char>> {
    e.map_values(|p: (String, V)| p.0@)
}

/// No two entries of `e` share a key.
pub open spec fn keys_unique<V>(e: Seq<(String, V)>) -> bool {
    forall|i: int, j: int|
        0 <= i < e.len() && 0 <= j < e.len() && i != j ==> #[trigger] e[i].0@ != #[trigger] e[j].0@
}

/// The map that the entries `e` describe.
pub open spec fn entries_map<V>(e: Seq<(String, V)>) -> Map<Seq<char>, V> {
    Map::new(
        |k: Seq<char>| exists|i: int| 0 <= i < e.len() && e[i].0@ == k,
        |k: Seq<char>| e[choose|i: int| 0 <= i < e.len() && e[i].0@ == k].1,
    )
}

impl<V> View for KeyedVec<V> {
    type V = Map<Seq<char>, V>;

    closed spec fn view(&self) -> Map<Seq<char>, V> {
        entries_map(self.entries@)
    }
}

/// The entry at index `i` is the one that holds key `e[i].0`.
pub proof fn lemma_entries_map_at<V>(e: Seq<(String, V)>, i: int)
    requires
        keys_unique(e),
        0 <= i < e.len(),
    ensures
        entries_map(e).contains_key(e[i].0@),
        entries_map(e)[e[i].0@] == e[i].1,
{
    let k = e[i].0@;
    assert(exists|j: int| 0 <= j < e.len() && e[j].0@ == k);
    let j = choose|j: int| 0 <= j < e.len() && e[j].0@ == k;
    assert(j == i);
}

/// The keys of distinct entries are distinct, and they are the map's domain.
pub proof fn lemma_entries_map_dom<V>(e: Seq<(String, V)>)
    requires
        keys_unique(e),
    ensures
        entry_keys(e).no_duplicates(),
        entries_map(e).dom() == entry_keys(e).to_set(),
        entries_map(e).dom().finite(),
        entries_map(e).dom().len() == e.len(),
{
    let ks = entry_keys(e);
    assert forall|i: int, j: int| 0 <= i < ks.len() && 0 <= j < ks.len() && i != j implies ks[i]
        != ks[j] by {
        assert(ks[i] == e[i].0@ && ks[j] == e[j].0@);
    }
    assert(ks.no_duplicates());
    ks.unique_seq_to_set();
    assert(entries_map(e).dom() =~= ks.to_set()) by {
        assert forall|k: Seq<char>| entries_map(e).dom().contains(k) implies ks.to_set().contains(
            k,
        ) by {
            let i = choose|i: int| 0 <= i < e.len() && e[i].0@ == k;
            assert(ks[i] == k);
        }
        assert forall|k: Seq<char>| ks.to_set().contains(k) implies entries_map(
            e,
        ).dom().contains(k) by {
            let i = choose|i: int| 0 <= i < ks.len() && ks[i] == k;
            assert(e[i].0@ == k);
        }
    }
}

impl<V> KeyedVec<V> {
    #[verifier::type_invariant]
    closed spec fn unique(self) -> bool {
        keys_unique(self.entries@)
    }

    /// The entries, in the order their keys were first inserted.
    pub closed spec fn entry_seq(&self) -> Seq<(String, V)> {
        self.entries@
    }

    /// An empty map.
    pub fn new() -> (r: Self)
        ensures
            r@ == Map::<Seq<char>, V>::empty(),
            r.entry_seq().len() == 0,
    {
        let r = KeyedVec { entries: Vec::new() };
        assert(r@ =~= Map::<Seq<char>, V>::empty());
        r
    }

    /// The number of entries.
    pub fn len(&self) -> (n: usize)
        ensures
            n == self.entry_seq().len(),
            n == self@.dom().len(),
    {
        proof {
            use_type_invariant(self);
            lemma_entries_map_dom(self.entries@);
        }
        self.entries.len()
    }

    /// The index of the entry whose key is `key`, if there is one.
    pub fn find(&self, key: &str) -> (r: Option<usize>)
        ensures
            match r {
                Some(i) => i < self.entry_seq().len() && self.entry_seq()[i as int].0@ == key@,
                None => !self@.contains_key(key@),
            },
            r is Some <==> self@.contains_key(key@),
    {
        proof {
            use_type_invariant(self);
        }
        let mut i: usize = 0;
        while i < self.entries.len()
            invariant
                i <= self.entries@.len(),
                keys_unique(self.entries@),
                forall|j: int| 0 <= j < i ==> self.entries@[j].0@ != key@,
            decreases self.entries@.len() - i,
        {
            if same_text(self.entries[i].0.as_str(), key) {
                proof {
                    lemma_entries_map_at(self.entries@, i as int);
                }
                return Some(i);
            }
            i = i + 1;
        }
        None
    }

    /// The value that `key` maps to, if any.
    pub fn get(&self, key: &str) -> (r: Option<&V>)
        ensures
            match r {
                Some(v) => self@.contains_key(key@) && *v == self@[key@],
                None => !self@.contains_key(key@),
            },
    {
        proof {
            use_type_invariant(self);
        }
        match self.find(key) {
            Some(i) => {
                proof {
                    lemma_entries_map_at(self.entries@, i as int);
                }
                Some(&self.entries[i].1)
            },
            None => None,
        }
    }

    /// Maps `key` to `value`, replacing any value it had. A new key goes last.
    pub fn insert(&mut self, key: String, value: V)
        ensures
            final(self)@ == old(self)@.insert(key@, value),
            old(self)@.contains_key(key@) ==> final(self).entry_seq().len() == old(
                self,
            ).entry_seq().len(),
            !old(self)@.contains_key(key@) ==> final(self).entry_seq() == old(
                self,
            ).entry_seq().push((key, value)),
    {
        proof {
            use_type_invariant(&*self);
        }
        let ghost old_e = self.entries@;
        match self.find(key.as_str()) {
            Some(i) => {
                let ghost k = key@;
                let ghost v = value;
                let mut entries: Vec<(String, V)> = Vec::new();
                std::mem::swap(&mut entries, &mut self.entries);
                entries.set(i, (key, value));
                let ghost new_e = entries@;
                proof {
                    assert forall|a: int, b: int|
                        0 <= a < new_e.len() && 0 <= b < new_e.len() && a != b implies #[trigger] new_e[a].0@
                        != #[trigger] new_e[b].0@ by {
                        if a != i && b != i {
                            assert(new_e[a] == old_e[a] && new_e[b] == old_e[b]);
                        } else if a == i {
                            assert(new_e[b] == old_e[b]);
                            assert(old_e[i as int].0@ == k);
                        } else {
                            assert(new_e[a] == old_e[a]);
                            assert(old_e[i as int].0@ == k);
                        }
                    }
                    assert(entries_map(new_e) =~= entries_map(old_e).insert(k, v)) by {
                        assert forall|q: Seq<char>|
                            #![auto]
                            entries_map(new_e).contains_key(q) == entries_map(
                                old_e,
                            ).insert(k, v).contains_key(q) by {
                            if entries_map(old_e).contains_key(q) && q != k {
                                let j = choose|j: int| 0 <= j < old_e.len() && old_e[j].0@ == q;
                                assert(new_e[j] == old_e[j]);
                            }
                            if entries_map(new_e).contains_key(q) && q != k {
                                let j = choose|j: int| 0 <= j < new_e.len() && new_e[j].0@ == q;
                                assert(new_e[j] == old_e[j]);
                            }
                            assert(new_e[i as int].0@ == k);
                        }
                        assert forall|q: Seq<char>| #[trigger]
                            entries_map(new_e).contains_key(q) implies entries_map(new_e)[q]
                            == entries_map(old_e).insert(k, v)[q] by {
                            let j = choose|j: int| 0 <= j < new_e.len() && new_e[j].0@ == q;
                            lemma_entries_map_at(new_e, j);
                            if q != k {
                                assert(new_e[j] == old_e[j]);
                                lemma_entries_map_at(old_e, j);
                            }
                        }
                    }
                }
                self.entries = entries;
            },
            None => {
                let ghost k = key@;
                let ghost v = value;
                let mut entries: Vec<(String, V)> = Vec::new();
                std::mem::swap(&mut entries, &mut self.entries);
                entries.push((key, value));
                let ghost new_e = entries@;
                proof {
                    assert forall|a: int, b: int|
                        0 <= a < new_e.len() && 0 <= b < new_e.len() && a != b implies #[trigger] new_e[a].0@
                        != #[trigger] new_e[b].0@ by {
                        if a < old_e.len() && b < old_e.len() {
                            assert(new_e[a] == old_e[a] && new_e[b] == old_e[b]);
                        } else if a < old_e.len() {
                            assert(new_e[a] == old_e[a]);
                            assert(!entries_map(old_e).contains_key(k));
                        } else {
                            assert(new_e[b] == old_e[b]);
                            assert(!entries_map(old_e).contains_key(k));
                        }
                    }
                    assert(entries_map(new_e) =~= entries_map(old_e).insert(k, v)) by {
                        assert forall|q: Seq<char>|
                            #![auto]
                            entries_map(new_e).contains_key(q) == entries_map(
                                old_e,
                            ).insert(k, v).contains_key(q) by {
                            if entries_map(old_e).contains_key(q) {
                                let j = choose|j: int| 0 <= j < old_e.len() && old_e[j].0@ == q;
                                assert(new_e[j] == old_e[j]);
                            }
                            if entries_map(new_e).contains_key(q) && q != k {
                                let j = choose|j: int| 0 <= j < new_e.len() && new_e[j].0@ == q;
                                assert(new_e[j] == old_e[j]);
                            }
                            assert(new_e[old_e.len() as int].0@ == k);
                        }
                        assert forall|q: Seq<char>| #[trigger]
                            entries_map(new_e).contains_key(q) implies entries_map(new_e)[q]
                            == entries_map(old_e).insert(k, v)[q] by {
                            let j = choose|j: int| 0 <= j < new_e.len() && new_e[j].0@ == q;
                            lemma_entries_map_at(new_e, j);
                            if q != k {
                                assert(new_e[j] == old_e[j]);
                                lemma_entries_map_at(old_e, j);
                            }
                        }
                    }
                }
                self.entries = entries;
            },
        }
    }

    /// Removes the entry of `key`, if any; the other entries keep their order.
    pub fn remove(&mut self, key: &str) -> (r: Option<V>)
        ensures
            final(self)@ == old(self)@.remove(key@),
            match r {
                Some(v) => old(self)@.contains_key(key@) && v == old(self)@[key@],
                None => !old(self)@.contains_key(key@),
            },
    {
        proof {
            use_type_invariant(&*self);
        }
        let ghost old_e = self.entries@;
        match self.find(key) {
            None => {
                assert(self@ =~= old(self)@.remove(key@));
                None
            },
            Some(i) => {
                proof {
                    lemma_entries_map_at(old_e, i as int);
                }
                let mut entries: Vec<(String, V)> = Vec::new();
                std::mem::swap(&mut entries, &mut self.entries);
                let (_, v) = entries.remove(i);
                let ghost new_e = entries@;
                let ghost k = key@;
                proof {
                    assert forall|j: int| 0 <= j < new_e.len() implies #[trigger] new_e[j] == (
                        if j < i {
                            old_e[j]
                        } else {
                            old_e[j + 1]
                        }) by {}
                    assert forall|a: int, b: int|
                        0 <= a < new_e.len() && 0 <= b < new_e.len() && a != b implies #[trigger] new_e[a].0@
                        != #[trigger] new_e[b].0@ by {
                        let a0 = if a < i {
                            a
                        } else {
                            a + 1
                        };
                        let b0 = if b < i {
                            b
                        } else {
                            b + 1
                        };
                        assert(new_e[a] == old_e[a0] && new_e[b] == old_e[b0]);
                    }
                    assert(entries_map(new_e) =~= entries_map(old_e).remove(k)) by {
                        assert forall|q: Seq<char>|
                            #![auto]
                            entries_map(new_e).contains_key(q) == entries_map(
                                old_e,
                            ).remove(k).contains_key(q) by {
                            if entries_map(old_e).contains_key(q) && q != k {
                                let j = choose|j: int| 0 <= j < old_e.len() && old_e[j].0@ == q;
                                if j < i {
                                    assert(new_e[j] == old_e[j]);
                                } else {
                                    assert(j != i);
                                    assert(new_e[j - 1] == old_e[j]);
                                }
                            }
                            if entries_map(new_e).contains_key(q) {
                                let j = choose|j: int| 0 <= j < new_e.len() && new_e[j].0@ == q;
                                let j0 = if j < i {
                                    j
                                } else {
                                    j + 1
                                };
                                assert(new_e[j] == old_e[j0]);
                                assert(j0 != i);
                            }
                        }
                        assert forall|q: Seq<char>| #[trigger]
                            entries_map(new_e).contains_key(q) implies entries_map(new_e)[q]
                            == entries_map(old_e).remove(k)[q] by {
                            let j = choose|j: int| 0 <= j < new_e.len() && new_e[j].0@ == q;
                            let j0 = if j < i {
                                j
                            } else {
                                j + 1
                            };
                            assert(new_e[j] == old_e[j0]);
                            lemma_entries_map_at(new_e, j);
                            lemma_entries_map_at(old_e, j0);
                        }
                    }
                }
                self.entries = entries;
                Some(v)
            },
        }
    }

    /// The entries, in the order their keys were first inserted.
    pub fn entries(&self) -> (r: &Vec<(String, V)>)
        ensures
            r@ == self.entry_seq(),
            keys_unique(r@),
            self@ == entries_map(r@),
    {
        proof {
            use_type_invariant(self);
        }
        &self.entries
    }
}

} // verus!
