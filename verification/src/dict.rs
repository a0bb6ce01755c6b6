//! Small keyed stores with text keys: tags, and payloads of JSON values.
//!
//! A store holds no key twice and is read as a map from a key's text to what
//! is kept under that key.

use serde_json::Value;
use vstd::prelude::*;

verus! {

/// Some entry has the key `key`.
spec fn has_key<V>(entries: Seq<(String, V)>, key: Seq<char>) -> bool {
    exists|i: int| 0 <= i < entries.len() && (#[trigger] entries[i]).0@ == key
}

/// The place of an entry with the key `key`, where there is one.
spec fn slot_of<V>(entries: Seq<(String, V)>, key: Seq<char>) -> int {
    choose|i: int| 0 <= i < entries.len() && (#[trigger] entries[i]).0@ == key
}

/// What the entries keep under `key`.
spec fn lookup<V>(entries: Seq<(String, V)>, key: Seq<char>) -> Option<V> {
    if has_key(entries, key) {
        Some(entries[slot_of(entries, key)].1)
    } else {
        None
    }
}

/// No two entries have the same key.
spec fn distinct_keys<V>(entries: Seq<(String, V)>) -> bool {
    forall|i: int, j: int|
        0 <= i < j < entries.len() ==> (#[trigger] entries[i]).0@ != (#[trigger] entries[j]).0@
}

/// Under distinct keys, an entry is the one found under its own key.
proof fn lemma_lookup_entry<V>(entries: Seq<(String, V)>, i: int)
    requires
        distinct_keys(entries),
        0 <= i < entries.len(),
    ensures
        lookup(entries, entries[i].0@) == Some(entries[i].1),
{
    let key = entries[i].0@;
    let j = slot_of(entries, key);
    assert(0 <= j < entries.len() && entries[j].0@ == key);
    if j < i {
        assert(entries[j].0@ != entries[i].0@);
    }
    if i < j {
        assert(entries[i].0@ != entries[j].0@);
    }
}

/// The place of the entry with the key `key`, or `None` where no entry has it.
fn find<V>(entries: &Vec<(String, V)>, key: &String) -> (r: Option<usize>)
    ensures
        r matches Some(i) ==> i < entries.len() && entries[i as int].0@ == key@,
        r is None ==> !has_key(entries@, key@),
{
    let mut i: usize = 0;
    while i < entries.len()
        invariant
            i <= entries.len(),
            forall|j: int| 0 <= j < i ==> (#[trigger] entries[j]).0@ != key@,
        decreases entries.len() - i,
    {
        if entries[i].0 == *key {
            return Some(i);
        }
        i += 1;
    }
    None
}

/// Puts `value` under `key`: in the place of the entry that has the key, or
/// in a new entry where none has it.
fn put<V>(entries: &mut Vec<(String, V)>, key: String, value: V)
    requires
        distinct_keys(old(entries)@),
    ensures
        distinct_keys(final(entries)@),
        forall|other: Seq<char>|
            #[trigger] lookup(final(entries)@, other) == if other == key@ {
                Some(value)
            } else {
                lookup(old(entries)@, other)
            },
{
    let ghost before = entries@;
    let ghost k = key@;
    let ghost n = entries@.len() as int;
    let found = find(entries, &key);
    let ghost at = match found {
        Some(i) => i as int,
        None => n,
    };
    match found {
        Some(i) => {
            entries.set(i, (key, value));
        },
        None => {
            entries.push((key, value));
        },
    }
    proof {
        let after = entries@;
        assert(after[at].0@ == k && after[at].1 == value);
        assert forall|j: int| 0 <= j < after.len() && j != at implies j < n && after[j] == before[j] by {}
        assert forall|a: int, b: int| 0 <= a < b < after.len() implies (#[trigger] after[a]).0@ != (
        #[trigger] after[b]).0@ by {
            if a != at && b != at {
                assert(before[a].0@ != before[b].0@);
            } else if a == at {
                assert(before[b].0@ != k);
            } else {
                assert(before[a].0@ != k);
            }
        }
        assert forall|other: Seq<char>|
            #[trigger] lookup(after, other) == if other == k {
                Some(value)
            } else {
                lookup(before, other)
            } by {
            if other == k {
                lemma_lookup_entry(after, at);
            } else if has_key(before, other) {
                let j = slot_of(before, other);
                lemma_lookup_entry(before, j);
                assert(after[j] == before[j]);
                lemma_lookup_entry(after, j);
            } else if has_key(after, other) {
                let j = slot_of(after, other);
                assert(before[j].0@ == other);
            }
        }
    }
}

/// The keys of the entries, in their order.
fn key_list<V>(entries: &Vec<(String, V)>) -> (r: Vec<String>)
    ensures
        r.len() == entries.len(),
        forall|i: int| 0 <= i < r.len() ==> (#[trigger] r[i])@ == entries[i].0@,
{
    let mut r: Vec<String> = Vec::new();
    let mut i: usize = 0;
    while i < entries.len()
        invariant
            i <= entries.len(),
            r.len() == i,
            forall|j: int| 0 <= j < i ==> (#[trigger] r[j])@ == entries[j].0@,
        decreases entries.len() - i,
    {
        r.push(entries[i].0.clone());
        i += 1;
    }
    r
}

/// The keys in `keys` are those of `map`, each once.
pub open spec fn lists_keys<V>(keys: Seq<String>, map: Map<Seq<char>, V>) -> bool {
    &&& forall|key: Seq<char>|
        map.contains_key(key) <==> exists|i: int| 0 <= i < keys.len() && (#[trigger] keys[i])@ == key
    &&& forall|i: int, j: int| 0 <= i < j < keys.len() ==> (#[trigger] keys[i])@ != (#[trigger] keys[j])@
}

/// A payload: JSON values under text keys.
#[derive(Debug)]
pub struct Payload {
    entries: Vec<(String, Value)>,
}

impl View for Payload {
    type V = Map<Seq<char>, Value>;

    closed spec fn view(&self) -> Map<Seq<char>, Value> {
        Map::new(
            |key: Seq<char>| lookup(self.entries@, key) is Some,
            |key: Seq<char>| lookup(self.entries@, key)->0,
        )
    }
}

impl Payload {
    #[verifier::type_invariant]
    spec fn inv(self) -> bool {
        distinct_keys(self.entries@)
    }

    /// The empty payload.
    pub fn new() -> (r: Self)
        ensures
            r@ == Map::<Seq<char>, Value>::empty(),
    {
        let r = Payload { entries: Vec::new() };
        assert(r@ =~= Map::<Seq<char>, Value>::empty());
        r
    }

    /// Puts `value` under `key`, in place of what was kept there.
    pub fn insert(&mut self, key: String, value: Value)
        ensures
            final(self)@ == old(self)@.insert(key@, value),
    {
        proof {
            use_type_invariant(&*self);
        }
        let mut entries: Vec<(String, Value)> = Vec::new();
        core::mem::swap(&mut entries, &mut self.entries);
        put(&mut entries, key, value);
        self.entries = entries;
        assert(self@ =~= old(self)@.insert(key@, value));
    }

    /// What is kept under `key`.
    pub fn get(&self, key: &str) -> (r: Option<&Value>)
        ensures
            r matches Some(value) ==> self@.contains_key(key@) && self@[key@] == *value,
            r is None ==> !self@.contains_key(key@),
    {
        proof {
            use_type_invariant(self);
        }
        let key = key.to_owned();
        match find(&self.entries, &key) {
            Some(i) => {
                proof {
                    lemma_lookup_entry(self.entries@, i as int);
                }
                Some(&self.entries[i].1)
            },
            None => None,
        }
    }

    /// The keys, each once.
    pub fn keys(&self) -> (r: Vec<String>)
        ensures
            lists_keys(r@, self@),
    {
        proof {
            use_type_invariant(self);
        }
        let r = key_list(&self.entries);
        proof {
            assert forall|key: Seq<char>| self@.contains_key(key) implies exists|i: int|
                0 <= i < r.len() && (#[trigger] r[i])@ == key by {
                assert(r[slot_of(self.entries@, key)]@ == key);
            }
            assert forall|key: Seq<char>|
                (exists|i: int| 0 <= i < r.len() && (#[trigger] r[i])@ == key) implies self@.contains_key(
                key,
            ) by {
                let j = choose|i: int| 0 <= i < r.len() && (#[trigger] r[i])@ == key;
                assert(self.entries@[j].0@ == key);
            }
            assert forall|i: int, j: int| 0 <= i < j < r.len() implies (#[trigger] r[i])@ != (
            #[trigger] r[j])@ by {
                assert(self.entries@[i].0@ != self.entries@[j].0@);
            }
        }
        r
    }
}

impl Clone for Payload {
    fn clone(&self) -> (r: Self)
        ensures
            r@ == self@,
    {
        proof {
            use_type_invariant(self);
        }
        let mut entries: Vec<(String, Value)> = Vec::new();
        let mut i: usize = 0;
        while i < self.entries.len()
            invariant
                i <= self.entries.len(),
                entries@ == self.entries@.take(i as int),
            decreases self.entries.len() - i,
        {
            let key = self.entries[i].0.clone();
            let value = self.entries[i].1.clone();
            entries.push((key, value));
            assert(entries@ =~= self.entries@.take(i + 1));
            i += 1;
        }
        assert(entries@ =~= self.entries@);
        Payload { entries }
    }
}

/// Tags: a text under each text key.
#[derive(Debug)]
pub struct Tags {
    entries: Vec<(String, String)>,
}

impl View for Tags {
    type V = Map<Seq<char>, Seq<char>>;

    closed spec fn view(&self) -> Map<Seq<char>, Seq<char>> {
        Map::new(
            |key: Seq<char>| lookup(self.entries@, key) is Some,
            |key: Seq<char>| lookup(self.entries@, key)->0@,
        )
    }
}

impl Tags {
    #[verifier::type_invariant]
    spec fn inv(self) -> bool {
        distinct_keys(self.entries@)
    }

    /// No tags.
    pub fn new() -> (r: Self)
        ensures
            r@ == Map::<Seq<char>, Seq<char>>::empty(),
    {
        let r = Tags { entries: Vec::new() };
        assert(r@ =~= Map::<Seq<char>, Seq<char>>::empty());
        r
    }

    /// Puts `value` under `key`, in place of what was kept there.
    pub fn insert(&mut self, key: String, value: String)
        ensures
            final(self)@ == old(self)@.insert(key@, value@),
    {
        proof {
            use_type_invariant(&*self);
        }
        let mut entries: Vec<(String, String)> = Vec::new();
        core::mem::swap(&mut entries, &mut self.entries);
        put(&mut entries, key, value);
        self.entries = entries;
        assert(self@ =~= old(self)@.insert(key@, value@));
    }

    /// What is kept under `key`.
    pub fn get(&self, key: &str) -> (r: Option<&String>)
        ensures
            r matches Some(value) ==> self@.contains_key(key@) && self@[key@] == value@,
            r is None ==> !self@.contains_key(key@),
    {
        proof {
            use_type_invariant(self);
        }
        let key = key.to_owned();
        match find(&self.entries, &key) {
            Some(i) => {
                proof {
                    lemma_lookup_entry(self.entries@, i as int);
                }
                Some(&self.entries[i].1)
            },
            None => None,
        }
    }

    /// The keys, each once.
    pub fn keys(&self) -> (r: Vec<String>)
        ensures
            lists_keys(r@, self@),
    {
        proof {
            use_type_invariant(self);
        }
        let r = key_list(&self.entries);
        proof {
            assert forall|key: Seq<char>| self@.contains_key(key) implies exists|i: int|
                0 <= i < r.len() && (#[trigger] r[i])@ == key by {
                assert(r[slot_of(self.entries@, key)]@ == key);
            }
            assert forall|key: Seq<char>|
                (exists|i: int| 0 <= i < r.len() && (#[trigger] r[i])@ == key) implies self@.contains_key(
                key,
            ) by {
                let j = choose|i: int| 0 <= i < r.len() && (#[trigger] r[i])@ == key;
                assert(self.entries@[j].0@ == key);
            }
            assert forall|i: int, j: int| 0 <= i < j < r.len() implies (#[trigger] r[i])@ != (
            #[trigger] r[j])@ by {
                assert(self.entries@[i].0@ != self.entries@[j].0@);
            }
        }
        r
    }
}

impl Clone for Tags {
    fn clone(&self) -> (r: Self)
        ensures
            r@ == self@,
    {
        proof {
            use_type_invariant(self);
        }
        let mut entries: Vec<(String, String)> = Vec::new();
        let mut i: usize = 0;
        while i < self.entries.len()
            invariant
                i <= self.entries.len(),
                entries@ == self.entries@.take(i as int),
            decreases self.entries.len() - i,
        {
            let key = self.entries[i].0.clone();
            let value = self.entries[i].1.clone();
            entries.push((key, value));
            assert(entries@ =~= self.entries@.take(i + 1));
            i += 1;
        }
        assert(entries@ =~= self.entries@);
        Tags { entries }
    }
}

} // verus!
