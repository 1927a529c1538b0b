//! A map keyed by strings.

use vstd::prelude::*;

verus! {

/// A map from strings to values of type `V`, seen as a map from character sequences.
///
/// The entries stand in the order in which their keys first came, and no key occurs twice.
pub struct StringMap<V> {
    entries: Vec<(String, V)>,
}

/// Whether no two entries have the same key.
spec fn keys_distinct<V>(entries: Seq<(String, V)>) -> bool {
    forall|i: int, j: int|
        0 <= i < j < entries.len() ==> (#[trigger] entries[i]).0@ != (#[trigger] entries[j]).0@
}

/// Whether some entry has the key `key`.
spec fn has_key<V>(entries: Seq<(String, V)>, key: Seq<char>) -> bool {
    exists|i: int| 0 <= i < entries.len() && (#[trigger] entries[i]).0@ == key
}

/// Where the entry with the key `key` stands, if there is one.
spec fn position<V>(entries: Seq<(String, V)>, key: Seq<char>) -> int {
    choose|i: int| 0 <= i < entries.len() && (#[trigger] entries[i]).0@ == key
}

/// The map that a list of entries stands for.
spec fn map_of<V>(entries: Seq<(String, V)>) -> Map<Seq<char>, V> {
    Map::new(
        |key: Seq<char>| has_key(entries, key),
        |key: Seq<char>| entries[position(entries, key)].1,
    )
}

/// With distinct keys, an entry's key leads to that entry.
proof fn lemma_entry<V>(entries: Seq<(String, V)>, i: int)
    requires
        keys_distinct(entries),
        0 <= i < entries.len(),
    ensures
        map_of(entries).contains_key(entries[i].0@),
        map_of(entries)[entries[i].0@] == entries[i].1,
{
    let j = position(entries, entries[i].0@);
    assert(has_key(entries, entries[i].0@));
    assert(0 <= j < entries.len() && entries[j].0@ == entries[i].0@);
    assert(i == j);
}

/// Entries with distinct keys stand for the map that holds exactly them.
proof fn lemma_map_of<V>(entries: Seq<(String, V)>, map: Map<Seq<char>, V>)
    requires
        keys_distinct(entries),
        forall|i: int|
            0 <= i < entries.len() ==> map.contains_key((#[trigger] entries[i]).0@)
                && map[entries[i].0@] == entries[i].1,
        forall|key: Seq<char>| #[trigger] map.contains_key(key) ==> has_key(entries, key),
    ensures
        map_of(entries) == map,
{
    let made = map_of(entries);
    assert forall|key: Seq<char>| #[trigger] made.contains_key(key) implies map.contains_key(key)
        && made[key] == map[key] by {
        let i = position(entries, key);
        assert(0 <= i < entries.len() && entries[i].0@ == key);
    }
    assert(made =~= map);
}

impl<V> View for StringMap<V> {
    type V = Map<Seq<char>, V>;

    closed spec fn view(&self) -> Map<Seq<char>, V> {
        map_of(self.entries@)
    }
}

impl<V> StringMap<V> {
    #[verifier::type_invariant]
    spec fn wf(&self) -> bool {
        keys_distinct(self.entries@)
    }

    /// The empty map.
    pub fn new() -> (map: Self)
        ensures
            map@ == Map::<Seq<char>, V>::empty(),
    {
        let map = StringMap { entries: Vec::new() };
        assert(map@ =~= Map::<Seq<char>, V>::empty());
        map
    }

    /// Where the entry of `key` stands.
    fn find(&self, key: &str) -> (found: Option<usize>)
        ensures
            match found {
                Some(i) => i < self.entries@.len() && self.entries@[i as int].0@ == key@,
                None => !has_key(self.entries@, key@),
            },
    {
        let wanted: String = key.to_owned();
        for i in 0..self.entries.len()
            invariant
                wanted@ == key@,
                forall|j: int| 0 <= j < i ==> (#[trigger] self.entries@[j]).0@ != key@,
        {
            if self.entries[i].0 == wanted {
                return Some(i);
            }
        }
        None
    }

    /// The value of `key`, if there is one.
    pub fn get(&self, key: &str) -> (value: Option<&V>)
        ensures
            match value {
                Some(v) => self@.contains_key(key@) && *v == self@[key@],
                None => !self@.contains_key(key@),
            },
    {
        proof {
            use_type_invariant(self);
        }
        match self.find(key) {
            Some(i) => {
                proof {
                    lemma_entry(self.entries@, i as int);
                }
                Some(&self.entries[i].1)
            },
            None => None,
        }
    }

    /// Whether `key` has a value.
    pub fn contains_key(&self, key: &str) -> (r: bool)
        ensures
            r == self@.contains_key(key@),
    {
        self.get(key).is_some()
    }

    /// Gives `key` the value `value`, in place of the value that it had, if any.
    pub fn insert(&mut self, key: String, value: V)
        ensures
            final(self)@ == old(self)@.insert(key@, value),
    {
        proof {
            use_type_invariant(&*self);
        }
        let found = self.find(key.as_str());
        let ghost before = self.entries@;
        let mut entries: Vec<(String, V)> = Vec::new();
        std::mem::swap(&mut entries, &mut self.entries);
        let ghost key_text = key@;
        match found {
            Some(i) => {
                entries.set(i, (key, value));
                assert(keys_distinct(entries@)) by {
                    assert forall|a: int, b: int| 0 <= a < b < entries@.len() implies (
                    #[trigger] entries@[a]).0@ != (#[trigger] entries@[b]).0@ by {
                        assert(entries@[a].0@ == before[a].0@);
                        assert(entries@[b].0@ == before[b].0@);
                    }
                }
            },
            None => {
                entries.push((key, value));
                assert forall|a: int, b: int| 0 <= a < b < entries@.len() implies (
                #[trigger] entries@[a]).0@ != (#[trigger] entries@[b]).0@ by {
                    if b == before.len() {
                        assert(entries@[a] == before[a]);
                    }
                }
            },
        }
        proof {
            let expected = map_of(before).insert(key_text, value);
            assert forall|a: int| 0 <= a < entries@.len() implies expected.contains_key(
                (#[trigger] entries@[a]).0@,
            ) && expected[entries@[a].0@] == entries@[a].1 by {
                if entries@[a].0@ != key_text {
                    assert(entries@[a] == before[a]);
                    lemma_entry(before, a);
                }
            }
            assert forall|k: Seq<char>| #[trigger] expected.contains_key(k) implies has_key(
                entries@,
                k,
            ) by {
                if k == key_text {
                    let a = match found {
                        Some(i) => i as int,
                        None => before.len() as int,
                    };
                    assert(entries@[a].0@ == k);
                } else {
                    let a = position(before, k);
                    assert(entries@[a] == before[a]);
                }
            }
            lemma_map_of(entries@, expected);
        }
        self.entries = entries;
    }

    /// Takes `key` and its value out, if it is there.
    pub fn remove(&mut self, key: &str)
        ensures
            final(self)@ == old(self)@.remove(key@),
    {
        proof {
            use_type_invariant(&*self);
        }
        let found = self.find(key);
        let ghost before = self.entries@;
        let mut entries: Vec<(String, V)> = Vec::new();
        std::mem::swap(&mut entries, &mut self.entries);
        if let Some(i) = found {
            entries.remove(i);
        }
        proof {
            let expected = map_of(before).remove(key@);
            let gap = match found {
                Some(i) => i as int,
                None => before.len() as int,
            };
            assert forall|a: int| 0 <= a < entries@.len() implies #[trigger] entries@[a]
                == before[if a < gap { a } else { a + 1 }] by {}
            assert forall|a: int| 0 <= a < entries@.len() implies expected.contains_key(
                (#[trigger] entries@[a]).0@,
            ) && expected[entries@[a].0@] == entries@[a].1 by {
                lemma_entry(before, if a < gap { a } else { a + 1 });
            }
            assert forall|k: Seq<char>| #[trigger] expected.contains_key(k) implies has_key(
                entries@,
                k,
            ) by {
                let a = position(before, k);
                assert(has_key(before, k));
                assert(entries@[if a < gap { a } else { a - 1 }] == before[a]);
            }
            lemma_map_of(entries@, expected);
        }
        self.entries = entries;
    }

    /// Takes out every entry.
    pub fn clear(&mut self)
        ensures
            final(self)@ == Map::<Seq<char>, V>::empty(),
    {
        self.entries = Vec::new();
        assert(self@ =~= Map::<Seq<char>, V>::empty());
    }

    /// Keeps the entries for whose value `keep` answers `true`, and takes out the others.
    pub fn retain<F: Fn(&V) -> bool>(&mut self, keep: F)
        requires
            forall|v: &V| #[trigger] call_requires(keep, (v,)),
        ensures
            forall|k: Seq<char>| #[trigger]
                final(self)@.contains_key(k) ==> old(self)@.contains_key(k) && final(self)@[k]
                    == old(self)@[k] && call_ensures(keep, (&old(self)@[k],), true),
            forall|k: Seq<char>| #[trigger]
                old(self)@.contains_key(k) && !final(self)@.contains_key(k) ==> call_ensures(
                    keep,
                    (&old(self)@[k],),
                    false,
                ),
    {
        proof {
            use_type_invariant(&*self);
        }
        let ghost before = self.entries@;
        let mut entries: Vec<(String, V)> = Vec::new();
        std::mem::swap(&mut entries, &mut self.entries);
        let mut i: usize = 0;
        proof {
            assert forall|a: int| 0 <= a < before.len() implies map_of(before).contains_key(
                (#[trigger] before[a]).0@,
            ) && map_of(before)[before[a].0@] == before[a].1 by {
                lemma_entry(before, a);
            }
        }
        while i < entries.len()
            invariant
                i <= entries@.len(),
                keys_distinct(before),
                keys_distinct(entries@),
                forall|v: &V| #[trigger] call_requires(keep, (v,)),
                forall|a: int|
                    0 <= a < entries@.len() ==> map_of(before).contains_key(
                        (#[trigger] entries@[a]).0@,
                    ) && map_of(before)[entries@[a].0@] == entries@[a].1,
                forall|a: int|
                    0 <= a < i ==> call_ensures(keep, (&(#[trigger] entries@[a]).1,), true),
                forall|k: Seq<char>| #[trigger]
                    has_key(before, k) ==> has_key(entries@, k) || call_ensures(
                        keep,
                        (&map_of(before)[k],),
                        false,
                    ),
            decreases entries@.len() - i,
        {
            let ghost current = entries@;
            if keep(&entries[i].1) {
                i = i + 1;
            } else {
                entries.remove(i);
                assert forall|a: int| 0 <= a < entries@.len() implies #[trigger] entries@[a]
                    == current[if a < i { a } else { a + 1 }] by {}
                assert forall|k: Seq<char>| #[trigger] has_key(before, k) implies has_key(
                    entries@,
                    k,
                ) || call_ensures(keep, (&map_of(before)[k],), false) by {
                    if has_key(current, k) {
                        let a = position(current, k);
                        if a != i {
                            assert(entries@[if a < i { a } else { a - 1 }] == current[a]);
                        }
                    }
                }
            }
        }
        proof {
            assert forall|k: Seq<char>| #[trigger] map_of(entries@).contains_key(k) implies map_of(
                before,
            ).contains_key(k) && map_of(entries@)[k] == map_of(before)[k] && call_ensures(
                keep,
                (&map_of(before)[k],),
                true,
            ) by {
                let a = position(entries@, k);
                assert(has_key(entries@, k));
                assert(entries@[a].0@ == k);
            }
        }
        self.entries = entries;
    }
}

} // verus!
