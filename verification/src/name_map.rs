//! A map from names to values, for the few names that one entity or one run
//! holds.
//!
//! The entries are kept in a list in which no name occurs twice. The view of
//! the map is a mathematical map from the name's characters to the value.

use vstd::prelude::*;

verus! {

struct Entry<V> {
    name: String,
    value: V,
}

/// A map from names to values.
pub struct NameMap<V> {
    entries: Vec<Entry<V>>,
}

/// In a sequence without duplicates, an element is found where it stands.
pub proof fn lemma_index_of_unique<A>(s: Seq<A>, i: int)
    requires
        s.no_duplicates(),
        0 <= i < s.len(),
    ensures
        s.index_of(s[i]) == i,
{
    let j = s.index_of(s[i]);
    assert(0 <= j < s.len() && s[j] == s[i]);
}

impl<V> View for NameMap<V> {
    type V = Map<Seq<char>, V>;

    open spec fn view(&self) -> Map<Seq<char>, V> {
        Map::new(
            |name: Seq<char>| self.names().contains(name),
            |name: Seq<char>| self.values()[self.names().index_of(name)],
        )
    }
}

impl<V> NameMap<V> {
    /// The names, in the order of the entries.
    pub closed spec fn names(&self) -> Seq<Seq<char>> {
        Seq::new(self.entries.len() as nat, |i: int| self.entries[i].name@)
    }

    /// The values, each at the index of its name.
    pub closed spec fn values(&self) -> Seq<V> {
        Seq::new(self.entries.len() as nat, |i: int| self.entries[i].value)
    }

    #[verifier::type_invariant]
    spec fn inv(&self) -> bool {
        self.names().no_duplicates()
    }

    /// The map without entries.
    pub fn new() -> (map: Self)
        ensures
            map@ == Map::<Seq<char>, V>::empty(),
            map.names() == Seq::<Seq<char>>::empty(),
    {
        let map = NameMap { entries: Vec::new() };
        assert(map.names() =~= Seq::<Seq<char>>::empty());
        assert(map@ =~= Map::<Seq<char>, V>::empty());
        map
    }

    /// Number of entries.
    pub fn len(&self) -> (n: usize)
        ensures
            n == self.names().len(),
            n == self.values().len(),
            self.names().no_duplicates(),
    {
        proof {
            use_type_invariant(self);
        }
        self.entries.len()
    }

    /// The name of entry `i`.
    pub fn name_at(&self, i: usize) -> (name: &String)
        requires
            i < self.names().len(),
        ensures
            name@ == self.names()[i as int],
            self@.contains_key(name@),
    {
        assert(self.names()[i as int] == self.entries[i as int].name@);
        &self.entries[i].name
    }

    /// The value of entry `i`.
    pub fn value_at(&self, i: usize) -> (value: &V)
        requires
            i < self.names().len(),
        ensures
            *value == self.values()[i as int],
            self@.contains_key(self.names()[i as int]),
            self@[self.names()[i as int]] == *value,
    {
        proof {
            use_type_invariant(self);
            lemma_index_of_unique(self.names(), i as int);
        }
        &self.entries[i].value
    }

    /// Where `name` stands, if the map holds it.
    pub fn find(&self, name: &String) -> (found: Option<usize>)
        ensures
            match found {
                Some(i) => i < self.names().len() && self.names()[i as int] == name@
                    && self@.contains_key(name@) && self@[name@] == self.values()[i as int],
                None => !self@.contains_key(name@),
            },
    {
        proof {
            use_type_invariant(self);
        }
        let mut i: usize = 0;
        while i < self.entries.len()
            invariant
                i <= self.entries.len(),
                self.names().no_duplicates(),
                forall|k: int| 0 <= k < i ==> self.names()[k] != name@,
            decreases self.entries.len() - i,
        {
            if self.entries[i].name == *name {
                proof {
                    assert(self.names()[i as int] == name@);
                    lemma_index_of_unique(self.names(), i as int);
                }
                return Some(i);
            }
            assert(self.names()[i as int] == self.entries[i as int].name@);
            i = i + 1;
        }
        None
    }

    /// Whether the map holds `name`.
    pub fn contains(&self, name: &String) -> (held: bool)
        ensures
            held == self@.contains_key(name@),
    {
        self.find(name).is_some()
    }

    /// The value of `name`, if the map holds it.
    pub fn get(&self, name: &String) -> (value: Option<&V>)
        ensures
            match value {
                Some(v) => self@.contains_key(name@) && self@[name@] == *v,
                None => !self@.contains_key(name@),
            },
    {
        match self.find(name) {
            Some(i) => Some(&self.entries[i].value),
            None => None,
        }
    }

    /// Gives `name` the value `value`, in place of the value that it had, if
    /// it had one.
    pub fn insert(&mut self, name: String, value: V)
        ensures
            final(self)@ == old(self)@.insert(name@, value),
            final(self).names() == if old(self)@.contains_key(name@) {
                old(self).names()
            } else {
                old(self).names().push(name@)
            },
    {
        proof {
            use_type_invariant(&*self);
        }
        let found = self.find(&name);
        let ghost names = self.names();
        let ghost values = self.values();
        let ghost before = self@;
        let ghost key = name@;
        let mut entries: Vec<Entry<V>> = Vec::new();
        std::mem::swap(&mut self.entries, &mut entries);
        match found {
            Some(i) => {
                entries.set(i, Entry { name, value });
                let ghost after = NameMap { entries };
                proof {
                    assert(after.names() =~= names);
                    assert(after.values() =~= values.update(i as int, value));
                    assert forall|n: Seq<char>| names.contains(n) implies #[trigger] after@[n]
                        == before.insert(key, value)[n] by {
                        let j = names.index_of(n);
                        lemma_index_of_unique(names, i as int);
                    }
                    assert(after@ =~= before.insert(key, value));
                }
            },
            None => {
                entries.push(Entry { name, value });
                let ghost after = NameMap { entries };
                proof {
                    assert(after.names() =~= names.push(key));
                    assert(after.values() =~= values.push(value));
                    assert(!names.contains(key));
                    assert(after.names().no_duplicates());
                    assert forall|n: Seq<char>| after.names().contains(n) implies #[trigger] after@[n]
                        == before.insert(key, value)[n] by {
                        let j = after.names().index_of(n);
                        if n == key {
                            lemma_index_of_unique(after.names(), names.len() as int);
                        } else {
                            assert(j < names.len());
                            assert(names[j] == n);
                            lemma_index_of_unique(names, j);
                        }
                    }
                    assert forall|n: Seq<char>| after.names().contains(n) <==> names.contains(n)
                        || n == key by {
                        if names.contains(n) {
                            let j = names.index_of(n);
                            assert(after.names()[j] == n);
                        }
                        if n == key {
                            assert(after.names()[names.len() as int] == n);
                        }
                    }
                    assert(after@ =~= before.insert(key, value));
                }
            },
        }
        self.entries = entries;
    }

    /// Takes `name` and its value out of the map, if the map holds it.
    pub fn remove(&mut self, name: &String) -> (value: Option<V>)
        ensures
            final(self)@ == old(self)@.remove(name@),
            match value {
                Some(v) => old(self)@.contains_key(name@) && old(self)@[name@] == v,
                None => !old(self)@.contains_key(name@),
            },
    {
        proof {
            use_type_invariant(&*self);
        }
        let found = self.find(name);
        let ghost names = self.names();
        let ghost values = self.values();
        let ghost before = self@;
        let ghost key = name@;
        match found {
            Some(i) => {
                let mut entries: Vec<Entry<V>> = Vec::new();
                std::mem::swap(&mut self.entries, &mut entries);
                let entry = entries.remove(i);
                let ghost after = NameMap { entries };
                proof {
                    assert(after.names() =~= names.remove(i as int));
                    assert(after.values() =~= values.remove(i as int));
                    assert forall|a: int, b: int|
                        0 <= a < after.names().len() && 0 <= b < after.names().len() && a
                            != b implies after.names()[a] != after.names()[b] by {
                        let a0 = if a < i { a } else { a + 1 };
                        let b0 = if b < i { b } else { b + 1 };
                        assert(after.names()[a] == names[a0]);
                        assert(after.names()[b] == names[b0]);
                    }
                    assert forall|n: Seq<char>| after.names().contains(n) <==> names.contains(n)
                        && n != key by {
                        if after.names().contains(n) {
                            let a = after.names().index_of(n);
                            let a0 = if a < i { a } else { a + 1 };
                            assert(names[a0] == n);
                        }
                        if names.contains(n) && n != key {
                            let j = names.index_of(n);
                            let a = if j < i { j } else { j - 1 };
                            assert(after.names()[a] == n);
                        }
                    }
                    assert forall|n: Seq<char>| after.names().contains(n) implies #[trigger] after@[n]
                        == before[n] by {
                        let a = after.names().index_of(n);
                        let a0 = if a < i { a } else { a + 1 };
                        assert(names[a0] == n);
                        lemma_index_of_unique(names, a0);
                    }
                    assert(after@ =~= before.remove(key));
                }
                self.entries = entries;
                Some(entry.value)
            },
            None => {
                assert(before.remove(key) =~= before);
                None
            },
        }
    }
}

} // verus!
