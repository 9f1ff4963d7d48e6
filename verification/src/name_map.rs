//! A map from names to values that keeps each name once.
use vstd::prelude::*;

verus! {

/// Values under distinct names.
pub struct NameMap<V> {
    entries: Vec<(String, V)>,
}

impl<V> View for NameMap<V> {
    type V = Map<Seq<char>, V>;

    closed spec fn view(&self) -> Map<Seq<char>, V> {
        Map::new(
            |name: Seq<char>| self.holds(name),
            |name: Seq<char>| self.entries[self.index_of(name)].1,
        )
    }
}

impl<V> NameMap<V> {
    #[verifier::type_invariant]
    spec fn distinct(&self) -> bool {
        forall|i: int, j: int|
            0 <= i < j < self.entries.len() ==> self.entries[i].0@ != self.entries[j].0@
    }

    spec fn holds(&self, name: Seq<char>) -> bool {
        exists|i: int| 0 <= i < self.entries.len() && self.entries[i].0@ == name
    }

    spec fn index_of(&self, name: Seq<char>) -> int {
        choose|i: int| 0 <= i < self.entries.len() && self.entries[i].0@ == name
    }

    /// A map that holds nothing.
    pub fn new() -> (map: NameMap<V>)
        ensures
            map@ == Map::<Seq<char>, V>::empty(),
    {
        let map = NameMap { entries: Vec::new() };
        assert(map@ =~= Map::<Seq<char>, V>::empty());
        map
    }

    /// The place of the entry called `name`, if there is one.
    fn position(&self, name: &String) -> (found: Option<usize>)
        ensures
            match found {
                Some(i) => i < self.entries.len() && self.entries[i as int].0@ == name@,
                None => !self.holds(name@),
            },
    {
        let mut i: usize = 0;
        while i < self.entries.len()
            invariant
                i <= self.entries.len(),
                forall|j: int| 0 <= j < i ==> self.entries[j].0@ != name@,
            decreases self.entries.len() - i,
        {
            if self.entries[i].0 == *name {
                return Some(i);
            }
            i += 1;
        }
        None
    }

    /// The value under `name`, if the map holds one.
    pub fn get(&self, name: &str) -> (found: Option<&V>)
        ensures
            match found {
                Some(value) => self@.contains_key(name@) && *value == self@[name@],
                None => !self@.contains_key(name@),
            },
    {
        proof {
            use_type_invariant(self);
        }
        let key = name.to_owned();
        match self.position(&key) {
            Some(i) => {
                assert(self.holds(name@));
                Some(&self.entries[i].1)
            },
            None => None,
        }
    }

    /// Whether the map holds a value under `name`.
    pub fn contains_key(&self, name: &str) -> (held: bool)
        ensures
            held == self@.contains_key(name@),
    {
        self.get(name).is_some()
    }

    /// This map with `value` under `name`, in place of what stood there.
    pub fn with(self, name: String, value: V) -> (map: NameMap<V>)
        ensures
            map@ == self@.insert(name@, value),
    {
        proof {
            use_type_invariant(&self);
        }
        let ghost key = name@;
        let found = self.position(&name);
        let mut entries = self.entries;
        match found {
            Some(i) => {
                entries.set(i, (name, value));
            },
            None => {
                entries.push((name, value));
            },
        }
        let map = NameMap { entries };
        assert forall|k: Seq<char>| map.holds(k) <==> self.holds(k) || k == key by {
            if self.holds(k) {
                let j = self.index_of(k);
                assert(map.entries[j].0@ == k);
            }
            if k == key {
                match found {
                    Some(i) => {
                        assert(map.entries[i as int].0@ == k);
                    },
                    None => {
                        assert(map.entries[self.entries.len() as int].0@ == k);
                    },
                }
            }
            if map.holds(k) && k != key {
                let j = map.index_of(k);
                assert(self.entries[j].0@ == k);
            }
        }
        assert forall|k: Seq<char>| map.holds(k) implies #[trigger] map@[k] == self@.insert(
            key,
            value,
        )[k] by {
            let j = map.index_of(k);
            if k != key {
                assert(self.entries[j].0@ == k);
                let h = self.index_of(k);
                assert(h == j);
            }
        }
        assert(map@ =~= self@.insert(key, value));
        map
    }

    /// Puts `value` under `name`, in place of what stood there.
    pub fn insert(&mut self, name: String, value: V)
        ensures
            final(self)@ == old(self)@.insert(name@, value),
    {
        let mut held = NameMap::new();
        core::mem::swap(self, &mut held);
        *self = held.with(name, value);
    }

    /// The names held, each once, in no promised order.
    pub fn names(&self) -> (names: Vec<&String>)
        ensures
            forall|name: Seq<char>|
                self@.contains_key(name) <==> exists|i: int|
                    0 <= i < names.len() && names[i]@ == name,
            forall|i: int, j: int| 0 <= i < j < names.len() ==> names[i]@ != names[j]@,
    {
        proof {
            use_type_invariant(self);
        }
        let mut names: Vec<&String> = Vec::new();
        let mut i: usize = 0;
        while i < self.entries.len()
            invariant
                i <= self.entries.len(),
                names.len() == i,
                forall|j: int| 0 <= j < i ==> names[j]@ == self.entries[j].0@,
            decreases self.entries.len() - i,
        {
            names.push(&self.entries[i].0);
            i += 1;
        }
        assert forall|name: Seq<char>| self@.contains_key(name) implies exists|i: int|
            0 <= i < names.len() && names[i]@ == name by {
            let j = self.index_of(name);
            assert(names[j]@ == name);
        }
        names
    }
}

} // verus!
