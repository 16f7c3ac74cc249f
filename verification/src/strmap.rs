//! A small ordered map keyed by strings.
//!
//! The model of a map is the sequence of its entries, each a key and a
//! value, in the order in which the keys were first inserted.

use vstd::prelude::*;
use crate::text::str_eq;

verus! {

/// The keys of a sequence of entries.
pub open spec fn keys_of<T>(entries: Seq<(Seq<char>, T)>) -> Seq<Seq<char>> {
    Seq::new(entries.len(), |i: int| entries[i].0)
}

/// The first position at which `key` stands in `keys`, if it stands there.
pub open spec fn position_of(keys: Seq<Seq<char>>, key: Seq<char>) -> Option<int>
    decreases keys.len(),
{
    if keys.len() == 0 {
        None
    } else if keys[0] == key {
        Some(0)
    } else {
        match position_of(keys.drop_first(), key) {
            Some(i) => Some(i + 1),
            None => None,
        }
    }
}

/// Whether `keys` holds `key`.
pub open spec fn has_key(keys: Seq<Seq<char>>, key: Seq<char>) -> bool {
    position_of(keys, key) is Some
}

/// The value that the entries give to `key`.
pub open spec fn assoc_get<T>(entries: Seq<(Seq<char>, T)>, key: Seq<char>) -> Option<T> {
    match position_of(keys_of(entries), key) {
        Some(i) => Some(entries[i].1),
        None => None,
    }
}

/// The entries with `key` set to `value`: in place where the key is there,
/// else as a new last entry.
pub open spec fn assoc_insert<T>(entries: Seq<(Seq<char>, T)>, key: Seq<char>, value: T) -> Seq<
    (Seq<char>, T),
> {
    match position_of(keys_of(entries), key) {
        Some(i) => entries.update(i, (key, value)),
        None => entries.push((key, value)),
    }
}

/// The entries without that of `key`.
pub open spec fn assoc_remove<T>(entries: Seq<(Seq<char>, T)>, key: Seq<char>) -> Seq<
    (Seq<char>, T),
> {
    match position_of(keys_of(entries), key) {
        Some(i) => entries.remove(i),
        None => entries,
    }
}

/// What `position_of` finds: the least index that holds the key, or nothing
/// where no index holds it.
pub proof fn lemma_position_of(keys: Seq<Seq<char>>, key: Seq<char>)
    ensures
        match position_of(keys, key) {
            Some(i) => 0 <= i < keys.len() && keys[i] == key && forall|j: int|
                0 <= j < i ==> keys[j] != key,
            None => forall|j: int| 0 <= j < keys.len() ==> keys[j] != key,
        },
    decreases keys.len(),
{
    if keys.len() > 0 && keys[0] != key {
        lemma_position_of(keys.drop_first(), key);
        match position_of(keys.drop_first(), key) {
            Some(i) => {
                assert forall|j: int| 0 <= j < i + 1 implies keys[j] != key by {
                    if j > 0 {
                        assert(keys.drop_first()[j - 1] == keys[j]);
                    }
                }
            },
            None => {
                assert forall|j: int| 0 <= j < keys.len() implies keys[j] != key by {
                    if j > 0 {
                        assert(keys.drop_first()[j - 1] == keys[j]);
                    }
                }
            },
        }
    }
}

/// A key that stands at `i`, and at no earlier index, is found at `i`.
pub proof fn lemma_position_is(keys: Seq<Seq<char>>, key: Seq<char>, i: int)
    requires
        0 <= i < keys.len(),
        keys[i] == key,
        forall|j: int| 0 <= j < i ==> keys[j] != key,
    ensures
        position_of(keys, key) == Some(i),
{
    lemma_position_of(keys, key);
}

/// A key that stands at no index is not found.
pub proof fn lemma_position_none(keys: Seq<Seq<char>>, key: Seq<char>)
    requires
        forall|j: int| 0 <= j < keys.len() ==> keys[j] != key,
    ensures
        position_of(keys, key) is None,
{
    lemma_position_of(keys, key);
}

/// Setting a key keeps the keys apart, and the key then has the value.
pub proof fn lemma_assoc_insert<T>(entries: Seq<(Seq<char>, T)>, key: Seq<char>, value: T)
    requires
        keys_of(entries).no_duplicates(),
    ensures
        keys_of(assoc_insert(entries, key, value)).no_duplicates(),
        assoc_get(assoc_insert(entries, key, value), key) == Some(value),
        forall|other: Seq<char>|
            other != key ==> assoc_get(assoc_insert(entries, key, value), other) == assoc_get(
                entries,
                other,
            ),
{
    let keys = keys_of(entries);
    let after = assoc_insert(entries, key, value);
    lemma_position_of(keys, key);
    match position_of(keys, key) {
        Some(i) => {
            assert(keys_of(after) =~= keys);
        },
        None => {
            assert(keys_of(after) =~= keys.push(key));
            lemma_position_is(keys_of(after), key, keys.len() as int);
        },
    }
    assert forall|other: Seq<char>| other != key implies assoc_get(after, other) == assoc_get(
        entries,
        other,
    ) by {
        lemma_position_of(keys, other);
        match position_of(keys, other) {
            Some(j) => {
                lemma_position_is(keys_of(after), other, j);
            },
            None => {
                lemma_position_none(keys_of(after), other);
            },
        }
    }
}

/// Removing a key keeps the keys apart, the key is then gone and the other
/// keys keep their values.
pub proof fn lemma_assoc_remove<T>(entries: Seq<(Seq<char>, T)>, key: Seq<char>)
    requires
        keys_of(entries).no_duplicates(),
    ensures
        keys_of(assoc_remove(entries, key)).no_duplicates(),
        assoc_get(assoc_remove(entries, key), key) is None,
        forall|other: Seq<char>|
            other != key ==> assoc_get(assoc_remove(entries, key), other) == assoc_get(
                entries,
                other,
            ),
{
    let keys = keys_of(entries);
    let after = assoc_remove(entries, key);
    lemma_position_of(keys, key);
    match position_of(keys, key) {
        Some(i) => {
            assert(keys_of(after) =~= keys.remove(i));
            lemma_position_none(keys_of(after), key);
            assert forall|other: Seq<char>| other != key implies assoc_get(after, other)
                == assoc_get(entries, other) by {
                lemma_position_of(keys, other);
                match position_of(keys, other) {
                    Some(j) => {
                        if j < i {
                            lemma_position_is(keys_of(after), other, j);
                        } else {
                            lemma_position_is(keys_of(after), other, j - 1);
                        }
                    },
                    None => {
                        lemma_position_none(keys_of(after), other);
                    },
                }
            }
        },
        None => {},
    }
}

/// The model of stored entries: each key by its characters, each value by
/// its view.
pub open spec fn model_of<V: DeepView>(entries: Seq<(String, V)>) -> Seq<(Seq<char>, V::V)> {
    Seq::new(entries.len(), |i: int| (entries[i].0@, entries[i].1.deep_view()))
}

/// A map from strings to values that keeps its entries in the order in which
/// their keys were first inserted. No key occurs twice.
pub struct StrMap<V: DeepView> {
    entries: Vec<(String, V)>,
}

impl<V: DeepView> DeepView for StrMap<V> {
    type V = Seq<(Seq<char>, V::V)>;

    open spec fn deep_view(&self) -> Seq<(Seq<char>, V::V)> {
        model_of(self.entries())
    }
}

impl<V: DeepView> StrMap<V> {
    #[verifier::type_invariant]
    spec fn unique(self) -> bool {
        self.keys().no_duplicates()
    }

    /// The entries in order.
    pub closed spec fn entries(&self) -> Seq<(String, V)> {
        self.entries@
    }

    /// The keys in order.
    pub open spec fn keys(&self) -> Seq<Seq<char>> {
        keys_of(self.deep_view())
    }

    /// An empty map.
    pub fn new() -> (r: Self)
        ensures
            r.deep_view() == Seq::<(Seq<char>, V::V)>::empty(),
    {
        let r = StrMap { entries: Vec::new() };
        assert(r.deep_view() =~= Seq::<(Seq<char>, V::V)>::empty());
        r
    }

    /// The number of entries.
    pub fn len(&self) -> (n: usize)
        ensures
            n == self.deep_view().len(),
            self.keys().no_duplicates(),
    {
        proof {
            use_type_invariant(self);
        }
        self.entries.len()
    }

    /// Whether the map holds no entry.
    pub fn is_empty(&self) -> (r: bool)
        ensures
            r == (self.deep_view().len() == 0),
    {
        self.entries.len() == 0
    }

    /// The position of `key`.
    pub fn position(&self, key: &str) -> (r: Option<usize>)
        ensures
            match r {
                Some(i) => position_of(self.keys(), key@) == Some(i as int) && i
                    < self.deep_view().len(),
                None => position_of(self.keys(), key@) is None,
            },
            self.keys().no_duplicates(),
    {
        proof {
            use_type_invariant(self);
        }
        let mut i: usize = 0;
        while i < self.entries.len()
            invariant
                i <= self.entries.len(),
                self.keys().no_duplicates(),
                forall|j: int| 0 <= j < i ==> self.keys()[j] != key@,
            decreases self.entries.len() - i,
        {
            if str_eq(self.entries[i].0.as_str(), key) {
                proof {
                    assert(self.keys()[i as int] == key@);
                    lemma_position_of(self.keys(), key@);
                }
                return Some(i);
            }
            i += 1;
        }
        proof {
            lemma_position_of(self.keys(), key@);
        }
        None
    }

    /// The key at a position.
    pub fn key_at(&self, i: usize) -> (r: &String)
        requires
            i < self.deep_view().len(),
        ensures
            r@ == self.deep_view()[i as int].0,
    {
        &self.entries[i].0
    }

    /// The value at a position.
    pub fn value_at(&self, i: usize) -> (r: &V)
        requires
            i < self.deep_view().len(),
        ensures
            r.deep_view() == self.deep_view()[i as int].1,
    {
        &self.entries[i].1
    }

    /// The value of a key.
    pub fn get(&self, key: &str) -> (r: Option<&V>)
        ensures
            r.deep_view() == assoc_get(self.deep_view(), key@),
    {
        match self.position(key) {
            Some(i) => Some(&self.entries[i].1),
            None => None,
        }
    }

    /// Whether the map holds a key.
    pub fn contains_key(&self, key: &str) -> (r: bool)
        ensures
            r == has_key(self.keys(), key@),
    {
        self.position(key).is_some()
    }

    /// Sets the value of `key`: in place where the map holds the key, else as
    /// a new last entry. Returns the value that was replaced.
    pub fn insert(&mut self, key: String, value: V) -> (r: Option<V>)
        ensures
            final(self).deep_view() == assoc_insert(
                old(self).deep_view(),
                key@,
                value.deep_view(),
            ),
            r.deep_view() == assoc_get(old(self).deep_view(), key@),
            final(self).keys().no_duplicates(),
    {
        proof {
            use_type_invariant(&*self);
        }
        let ghost before = self.deep_view();
        let found = self.position(key.as_str());
        let mut entries: Vec<(String, V)> = Vec::new();
        core::mem::swap(&mut self.entries, &mut entries);
        let ghost expected = assoc_insert(before, key@, value.deep_view());
        proof {
            lemma_assoc_insert(before, key@, value.deep_view());
            lemma_position_of(keys_of(before), key@);
        }
        let ghost stored = entries@;
        let r = match found {
            Some(i) => {
                let (k, v) = entries.remove(i);
                assert(k@ == keys_of(before)[i as int]);
                entries.insert(i, (k, value));
                assert(entries@ =~= stored.update(i as int, (k, value)));
                assert(model_of(entries@) =~= expected);
                Some(v)
            },
            None => {
                entries.push((key, value));
                assert(model_of(entries@) =~= expected);
                None
            },
        };
        self.entries = entries;
        r
    }

    /// Takes the entry of `key` out, keeping the others in their order.
    pub fn remove(&mut self, key: &str) -> (r: Option<V>)
        ensures
            final(self).deep_view() == assoc_remove(old(self).deep_view(), key@),
            r.deep_view() == assoc_get(old(self).deep_view(), key@),
            final(self).keys().no_duplicates(),
    {
        proof {
            use_type_invariant(&*self);
        }
        let ghost before = self.deep_view();
        let found = self.position(key);
        proof {
            lemma_assoc_remove(before, key@);
        }
        match found {
            Some(i) => {
                let mut entries: Vec<(String, V)> = Vec::new();
                core::mem::swap(&mut self.entries, &mut entries);
                let (_k, v) = entries.remove(i);
                assert(model_of(entries@) =~= before.remove(i as int));
                self.entries = entries;
                Some(v)
            },
            None => None,
        }
    }
}

} // verus!
