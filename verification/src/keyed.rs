//! A map from names to values, kept as a list of entries in insertion order
//! with no name twice. The SDK keys its registries (tools, commands, section
//! overrides, transform callbacks) by name.
use vstd::prelude::*;
use vstd::string::*;

verus! {

/// A map from names to values in insertion order.
#[derive(Debug)]
pub struct NamedMap<V> {
    entries: Vec<(String, V)>,
}

/// The names of `entries`, in order.
pub open spec fn names_of<V>(entries: Seq<(String, V)>) -> Seq<Seq<char>> {
    entries.map_values(|e: (String, V)| e.0@)
}

/// The map that `entries` stand for.
pub open spec fn map_of<V>(entries: Seq<(String, V)>) -> Map<Seq<char>, V>
    decreases entries.len(),
{
    if entries.len() == 0 {
        Map::empty()
    } else {
        map_of(entries.drop_last()).insert(entries.last().0@, entries.last().1)
    }
}

proof fn lemma_map_of<V>(entries: Seq<(String, V)>)
    requires
        names_of(entries).no_duplicates(),
    ensures
        forall|i: int|
            0 <= i < entries.len() ==> #[trigger] map_of(entries).contains_key(entries[i].0@)
                && map_of(entries)[entries[i].0@] == entries[i].1,
        forall|k: Seq<char>|
            #[trigger] map_of(entries).contains_key(k) ==> names_of(entries).contains(k),
        map_of(entries).dom().finite(),
        map_of(entries).dom().len() == entries.len(),
    decreases entries.len(),
{
    if entries.len() > 0 {
        let init = entries.drop_last();
        assert(names_of(init) =~= names_of(entries).drop_last());
        lemma_map_of(init);
        let last = entries.last();
        assert(names_of(entries)[entries.len() - 1] == last.0@);
        assert(!map_of(init).contains_key(last.0@)) by {
            if map_of(init).contains_key(last.0@) {
                let j = choose|j: int| 0 <= j < names_of(init).len() && names_of(init)[j] == last.0@;
                assert(names_of(entries)[j] == last.0@);
            }
        }
        assert forall|i: int| 0 <= i < entries.len() implies #[trigger] map_of(entries).contains_key(
            entries[i].0@,
        ) && map_of(entries)[entries[i].0@] == entries[i].1 by {
            if i < entries.len() - 1 {
                assert(init[i] == entries[i]);
                assert(names_of(entries)[i] == entries[i].0@);
                assert(entries[i].0@ != last.0@);
            }
        }
        assert forall|k: Seq<char>| #[trigger] map_of(entries).contains_key(k) implies names_of(
            entries,
        ).contains(k) by {
            if k != last.0@ {
                let j = choose|j: int| 0 <= j < names_of(init).len() && names_of(init)[j] == k;
                assert(names_of(entries)[j] == k);
            } else {
                assert(names_of(entries)[entries.len() - 1] == k);
            }
        }
    } else {
        assert(map_of(entries).dom() =~= Set::empty());
    }
}

impl<V> NamedMap<V> {
    #[verifier::type_invariant]
    spec fn inv(self) -> bool {
        names_of(self.entries@).no_duplicates()
    }

    /// The map from names to values.
    pub closed spec fn view(&self) -> Map<Seq<char>, V> {
        map_of(self.entries@)
    }

    /// The names, in insertion order.
    pub closed spec fn names(&self) -> Seq<Seq<char>> {
        names_of(self.entries@)
    }

    /// An empty map.
    pub fn new() -> (r: Self)
        ensures
            r.view() == Map::<Seq<char>, V>::empty(),
            r.names() == Seq::<Seq<char>>::empty(),
    {
        let r = NamedMap { entries: Vec::new() };
        proof {
            assert(names_of(r.entries@) =~= Seq::<Seq<char>>::empty());
        }
        r
    }

    /// The number of entries.
    pub fn len(&self) -> (r: usize)
        ensures
            r == self.view().dom().len(),
            r == self.names().len(),
    {
        proof {
            use_type_invariant(self);
            lemma_map_of(self.entries@);
        }
        self.entries.len()
    }

    fn find(&self, name: &str) -> (r: Option<usize>)
        ensures
            match r {
                Some(i) => i < self.entries@.len() && self.entries@[i as int].0@ == name@,
                None => forall|j: int| 0 <= j < self.entries@.len() ==> self.entries@[j].0@ != name@,
            },
    {
        let mut i: usize = 0;
        while i < self.entries.len()
            invariant
                i <= self.entries@.len(),
                forall|j: int| 0 <= j < i ==> self.entries@[j].0@ != name@,
            decreases self.entries.len() - i,
        {
            if crate::json::str_eq(self.entries[i].0.as_str(), name) {
                return Some(i);
            }
            i = i + 1;
        }
        None
    }

    /// The value stored under `name`.
    pub fn get(&self, name: &str) -> (r: Option<&V>)
        ensures
            r is Some <==> self.view().contains_key(name@),
            r matches Some(v) ==> *v == self.view()[name@],
    {
        proof {
            use_type_invariant(self);
            lemma_map_of(self.entries@);
        }
        match self.find(name) {
            Some(i) => {
                proof {
                    assert(map_of(self.entries@).contains_key(self.entries@[i as int].0@));
                }
                Some(&self.entries[i].1)
            },
            None => {
                proof {
                    if self.view().contains_key(name@) {
                        let j = choose|j: int|
                            0 <= j < names_of(self.entries@).len() && names_of(self.entries@)[j]
                                == name@;
                        assert(self.entries@[j].0@ == name@);
                    }
                }
                None
            },
        }
    }

    /// Whether a value is stored under `name`.
    pub fn contains_key(&self, name: &str) -> (r: bool)
        ensures
            r == self.view().contains_key(name@),
    {
        self.get(name).is_some()
    }

    /// Stores `value` under `name`, replacing the value stored there; a new
    /// name goes last in the order.
    pub fn insert(&mut self, name: String, value: V)
        ensures
            final(self).view() == old(self).view().insert(name@, value),
            old(self).view().contains_key(name@) ==> final(self).names() == old(self).names(),
            !old(self).view().contains_key(name@) ==> final(self).names() == old(self).names().push(
                name@,
            ),
    {
        proof {
            use_type_invariant(&*self);
            lemma_map_of(self.entries@);
        }
        let ghost old_entries = self.entries@;
        match self.find(name.as_str()) {
            Some(i) => {
                let ghost k = name@;
                let mut entries = Vec::new();
                std::mem::swap(&mut entries, &mut self.entries);
                entries.set(i, (name, value));
                proof {
                    assert(names_of(entries@) =~= names_of(old_entries));
                    lemma_map_of(entries@);
                    lemma_map_of(old_entries);
                    assert(map_of(entries@) =~= map_of(old_entries).insert(k, value)) by {
                        assert forall|key: Seq<char>| #[trigger] map_of(entries@).contains_key(key)
                            <==> map_of(old_entries).insert(k, value).contains_key(key) by {
                            if map_of(entries@).contains_key(key) {
                                assert(names_of(entries@).contains(key));
                                let j = choose|j: int|
                                    0 <= j < names_of(entries@).len() && names_of(entries@)[j] == key;
                                assert(names_of(old_entries)[j] == key);
                                assert(old_entries[j].0@ == key);
                            }
                            if map_of(old_entries).contains_key(key) {
                                let j = choose|j: int|
                                    0 <= j < names_of(old_entries).len() && names_of(old_entries)[j] == key;
                                assert(names_of(entries@)[j] == key);
                                assert(entries@[j].0@ == key);
                            }
                        }
                        assert forall|key: Seq<char>| #[trigger] map_of(entries@).contains_key(key)
                            implies map_of(entries@)[key] == map_of(old_entries).insert(k, value)[key] by {
                            let j = choose|j: int|
                                0 <= j < names_of(entries@).len() && names_of(entries@)[j] == key;
                            assert(entries@[j].0@ == key);
                            assert(map_of(entries@).contains_key(entries@[j].0@));
                            if j != i {
                                assert(entries@[j] == old_entries[j]);
                                assert(map_of(old_entries).contains_key(old_entries[j].0@));
                                assert(names_of(old_entries)[j] == key);
                                assert(names_of(old_entries)[i as int] == k);
                            }
                        }
                    }
                }
                self.entries = entries;
            },
            None => {
                let ghost k = name@;
                let mut entries = Vec::new();
                std::mem::swap(&mut entries, &mut self.entries);
                entries.push((name, value));
                proof {
                    assert(names_of(entries@) =~= names_of(old_entries).push(k));
                    assert forall|j: int| 0 <= j < names_of(old_entries).len() implies names_of(
                        old_entries,
                    )[j] != k by {
                        assert(old_entries[j].0@ != k);
                    }
                    assert(entries@.drop_last() =~= old_entries);
                }
                self.entries = entries;
            },
        }
    }

    /// Removes the value stored under `name`, handing it back.
    pub fn remove(&mut self, name: &str) -> (r: Option<V>)
        ensures
            final(self).view() == old(self).view().remove(name@),
            r is Some <==> old(self).view().contains_key(name@),
            r matches Some(v) ==> v == old(self).view()[name@],
    {
        proof {
            use_type_invariant(&*self);
            lemma_map_of(self.entries@);
        }
        let ghost old_entries = self.entries@;
        match self.find(name) {
            Some(i) => {
                let mut entries = Vec::new();
                std::mem::swap(&mut entries, &mut self.entries);
                let (_, v) = entries.remove(i);
                proof {
                    assert(entries@ =~= old_entries.remove(i as int));
                    assert(names_of(entries@) =~= names_of(old_entries).remove(i as int));
                    lemma_map_of(entries@);
                    assert(map_of(entries@) =~= map_of(old_entries).remove(name@)) by {
                        assert forall|key: Seq<char>| #[trigger] map_of(entries@).contains_key(key)
                            <==> map_of(old_entries).remove(name@).contains_key(key) by {
                            if map_of(entries@).contains_key(key) {
                                let j = choose|j: int|
                                    0 <= j < names_of(entries@).len() && names_of(entries@)[j] == key;
                                let oj = if j < i { j } else { j + 1 };
                                assert(old_entries[oj] == entries@[j]);
                                assert(names_of(old_entries)[oj] == key);
                                assert(names_of(old_entries)[i as int] == name@);
                            }
                            if map_of(old_entries).remove(name@).contains_key(key) {
                                let j = choose|j: int|
                                    0 <= j < names_of(old_entries).len() && names_of(old_entries)[j] == key;
                                assert(old_entries[j].0@ == key);
                                assert(j != i);
                                let nj = if j < i { j } else { j - 1 };
                                assert(entries@[nj] == old_entries[j]);
                            }
                        }
                        assert forall|key: Seq<char>| #[trigger] map_of(entries@).contains_key(key)
                            implies map_of(entries@)[key] == map_of(old_entries).remove(name@)[key] by {
                            let j = choose|j: int|
                                0 <= j < names_of(entries@).len() && names_of(entries@)[j] == key;
                            let oj = if j < i { j } else { j + 1 };
                            assert(old_entries[oj] == entries@[j]);
                        }
                    }
                }
                self.entries = entries;
                Some(v)
            },
            None => {
                proof {
                    if map_of(old_entries).contains_key(name@) {
                        let j = choose|j: int|
                            0 <= j < names_of(old_entries).len() && names_of(old_entries)[j] == name@;
                        assert(old_entries[j].0@ == name@);
                    }
                    assert(map_of(old_entries).remove(name@) =~= map_of(old_entries));
                }
                None
            },
        }
    }

    /// The names, in insertion order.
    pub fn keys(&self) -> (r: Vec<String>)
        ensures
            r@.map_values(|s: String| s@) == self.names(),
            self.names().no_duplicates(),
            forall|i: int| 0 <= i < self.names().len() ==> #[trigger] self.view().contains_key(self.names()[i]),
            forall|k: Seq<char>| #[trigger] self.view().contains_key(k) ==> self.names().contains(k),
    {
        proof {
            use_type_invariant(self);
            lemma_map_of(self.entries@);
            assert forall|i: int| 0 <= i < self.names().len() implies #[trigger] self.view().contains_key(
                self.names()[i],
            ) by {
                assert(self.names()[i] == self.entries@[i].0@);
            }
        }
        let mut out: Vec<String> = Vec::new();
        let mut i: usize = 0;
        while i < self.entries.len()
            invariant
                i <= self.entries@.len(),
                out@.map_values(|s: String| s@) == names_of(self.entries@).take(i as int),
            decreases self.entries.len() - i,
        {
            let ghost before = out@;
            out.push(self.entries[i].0.clone());
            proof {
                assert(names_of(self.entries@)[i as int] == self.entries@[i as int].0@);
                assert(out@.map_values(|s: String| s@) =~= before.map_values(|s: String| s@).push(
                    self.entries@[i as int].0@,
                ));
                assert(out@.map_values(|s: String| s@) =~= names_of(self.entries@).take(i + 1));
            }
            i = i + 1;
        }
        proof {
            assert(names_of(self.entries@).take(i as int) =~= names_of(self.entries@));
        }
        out
    }

    /// The entry at position `i` in insertion order.
    pub fn entry_at(&self, i: usize) -> (r: (&String, &V))
        requires
            i < self.names().len(),
        ensures
            r.0@ == self.names()[i as int],
            self.view().contains_key(r.0@),
            *r.1 == self.view()[r.0@],
    {
        proof {
            use_type_invariant(self);
            lemma_map_of(self.entries@);
        }
        (&self.entries[i].0, &self.entries[i].1)
    }
}

/// Law: reading a name back after storing a value under it gives that
/// value, and storing under one name leaves every other name unchanged.
pub proof fn law_insert_then_get<V>(m: Map<Seq<char>, V>, name: Seq<char>, value: V, other: Seq<char>)
    ensures
        m.insert(name, value)[name] == value,
        other != name ==> m.insert(name, value).contains_key(other) == m.contains_key(other),
        other != name && m.contains_key(other) ==> m.insert(name, value)[other] == m[other],
{
}

} // verus!
