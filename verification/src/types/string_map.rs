//! Maps keyed by strings, kept as lists of entries whose keys are pairwise distinct.

use vstd::prelude::*;
use vstd::string::*;
use crate::text::{starts_with, str_eq};

verus! {

/// The map that a list of entries stands for: a later entry wins over an earlier one.
pub open spec fn map_of<V>(entries: Seq<(Seq<char>, V)>) -> Map<Seq<char>, V>
    decreases entries.len(),
{
    if entries.len() == 0 {
        Map::empty()
    } else {
        map_of(entries.drop_last()).insert(entries.last().0, entries.last().1)
    }
}

/// No two entries share a key.
pub open spec fn distinct_keys<V>(entries: Seq<(Seq<char>, V)>) -> bool {
    forall|i: int, j: int|
        0 <= i < entries.len() && 0 <= j < entries.len() && i != j ==> entries[i].0 != entries[j].0
}

/// A key is in the map exactly when some entry carries it.
pub proof fn lemma_map_of_dom<V>(entries: Seq<(Seq<char>, V)>, key: Seq<char>)
    ensures
        map_of(entries).contains_key(key) <==> exists|i: int|
            0 <= i < entries.len() && #[trigger] entries[i].0 == key,
        map_of(entries).dom().finite(),
    decreases entries.len(),
{
    if entries.len() > 0 {
        let rest = entries.drop_last();
        lemma_map_of_dom(rest, key);
        if map_of(entries).contains_key(key) {
            if entries.last().0 == key {
                assert(entries[entries.len() - 1].0 == key);
            } else {
                let i = choose|i: int| 0 <= i < rest.len() && #[trigger] rest[i].0 == key;
                assert(entries[i].0 == key);
            }
        }
        if exists|i: int| 0 <= i < entries.len() && #[trigger] entries[i].0 == key {
            let i = choose|i: int| 0 <= i < entries.len() && #[trigger] entries[i].0 == key;
            if i < rest.len() {
                assert(rest[i].0 == key);
            }
        }
    }
}

/// With distinct keys, each entry's key maps to that entry's value.
pub proof fn lemma_map_of_entry<V>(entries: Seq<(Seq<char>, V)>, at: int)
    requires
        distinct_keys(entries),
        0 <= at < entries.len(),
    ensures
        map_of(entries).contains_key(entries[at].0),
        map_of(entries)[entries[at].0] == entries[at].1,
    decreases entries.len(),
{
    let rest = entries.drop_last();
    if at < rest.len() {
        assert(distinct_keys(rest)) by {
            assert forall|i: int, j: int|
                0 <= i < rest.len() && 0 <= j < rest.len() && i != j implies rest[i].0
                != rest[j].0 by {
                assert(rest[i] == entries[i] && rest[j] == entries[j]);
            }
        }
        lemma_map_of_entry(rest, at);
        assert(rest[at] == entries[at]);
        assert(entries[entries.len() - 1].0 != entries[at].0);
    }
}

/// Appending an entry inserts it into the map.
pub proof fn lemma_map_of_push<V>(entries: Seq<(Seq<char>, V)>, key: Seq<char>, value: V)
    ensures
        map_of(entries.push((key, value))) == map_of(entries).insert(key, value),
{
    assert(entries.push((key, value)).drop_last() =~= entries);
}

/// With distinct keys, replacing the value of an entry inserts the new value under its key.
pub proof fn lemma_map_of_update<V>(entries: Seq<(Seq<char>, V)>, at: int, value: V)
    requires
        distinct_keys(entries),
        0 <= at < entries.len(),
    ensures
        distinct_keys(entries.update(at, (entries[at].0, value))),
        map_of(entries.update(at, (entries[at].0, value))) == map_of(entries).insert(
            entries[at].0,
            value,
        ),
{
    let key = entries[at].0;
    let updated = entries.update(at, (key, value));
    assert(distinct_keys(updated)) by {
        assert forall|i: int, j: int|
            0 <= i < updated.len() && 0 <= j < updated.len() && i != j implies updated[i].0
            != updated[j].0 by {
            assert(updated[i].0 == entries[i].0 && updated[j].0 == entries[j].0);
        }
    }
    assert forall|k: Seq<char>|
        map_of(updated).contains_key(k) <==> map_of(entries).insert(key, value).contains_key(
            k,
        ) by {
        lemma_map_of_dom(updated, k);
        lemma_map_of_dom(entries, k);
        if exists|i: int| 0 <= i < updated.len() && #[trigger] updated[i].0 == k {
            let i = choose|i: int| 0 <= i < updated.len() && #[trigger] updated[i].0 == k;
            assert(entries[i].0 == k);
        }
        if exists|i: int| 0 <= i < entries.len() && #[trigger] entries[i].0 == k {
            let i = choose|i: int| 0 <= i < entries.len() && #[trigger] entries[i].0 == k;
            assert(updated[i].0 == k);
        }
        assert(updated[at].0 == key);
    }
    assert forall|k: Seq<char>| map_of(updated).contains_key(k) implies map_of(updated)[k]
        == map_of(entries).insert(key, value)[k] by {
        lemma_map_of_dom(updated, k);
        let i = choose|i: int| 0 <= i < updated.len() && #[trigger] updated[i].0 == k;
        lemma_map_of_entry(updated, i);
        if i != at {
            lemma_map_of_entry(entries, i);
        }
    }
    assert(map_of(updated) =~= map_of(entries).insert(key, value));
}

/// With distinct keys, the map holds as many keys as the list holds entries.
pub proof fn lemma_map_of_len<V>(entries: Seq<(Seq<char>, V)>)
    requires
        distinct_keys(entries),
    ensures
        map_of(entries).dom().finite(),
        map_of(entries).len() == entries.len(),
    decreases entries.len(),
{
    lemma_map_of_dom(entries, Seq::empty());
    if entries.len() > 0 {
        let rest = entries.drop_last();
        assert(distinct_keys(rest)) by {
            assert forall|i: int, j: int|
                0 <= i < rest.len() && 0 <= j < rest.len() && i != j implies rest[i].0
                != rest[j].0 by {
                assert(rest[i] == entries[i] && rest[j] == entries[j]);
            }
        }
        lemma_map_of_len(rest);
        lemma_map_of_dom(rest, entries.last().0);
        if map_of(rest).contains_key(entries.last().0) {
            let i = choose|i: int| 0 <= i < rest.len() && #[trigger] rest[i].0 == entries.last().0;
            assert(rest[i] == entries[i]);
            assert(entries[entries.len() - 1].0 == entries[i].0);
        }
    }
}

/// With distinct keys, taking an entry out of the list removes its key from the map.
pub proof fn lemma_map_of_remove<V>(entries: Seq<(Seq<char>, V)>, at: int)
    requires
        distinct_keys(entries),
        0 <= at < entries.len(),
    ensures
        distinct_keys(entries.remove(at)),
        map_of(entries.remove(at)) == map_of(entries).remove(entries[at].0),
{
    let key = entries[at].0;
    let shorter = entries.remove(at);
    assert(distinct_keys(shorter)) by {
        assert forall|i: int, j: int|
            0 <= i < shorter.len() && 0 <= j < shorter.len() && i != j implies shorter[i].0
            != shorter[j].0 by {
            let oi = if i < at { i } else { i + 1 };
            let oj = if j < at { j } else { j + 1 };
            assert(shorter[i] == entries[oi] && shorter[j] == entries[oj]);
        }
    }
    assert forall|k: Seq<char>| #[trigger]
        map_of(shorter).dom().contains(k) <==> map_of(entries).remove(key).dom().contains(k) by {
        lemma_map_of_dom(shorter, k);
        lemma_map_of_dom(entries, k);
        if exists|i: int| 0 <= i < shorter.len() && #[trigger] shorter[i].0 == k {
            let i = choose|i: int| 0 <= i < shorter.len() && #[trigger] shorter[i].0 == k;
            let oi = if i < at { i } else { i + 1 };
            assert(entries[oi].0 == k);
        }
        if k != key && exists|i: int| 0 <= i < entries.len() && #[trigger] entries[i].0 == k {
            let i = choose|i: int| 0 <= i < entries.len() && #[trigger] entries[i].0 == k;
            let si = if i < at { i } else { i - 1 };
            assert(shorter[si].0 == k);
        }
    }
    assert forall|k: Seq<char>| #[trigger] map_of(shorter).dom().contains(k) implies map_of(
        shorter,
    )[k] == map_of(entries).remove(key)[k] by {
        lemma_map_of_dom(shorter, k);
        let i = choose|i: int| 0 <= i < shorter.len() && #[trigger] shorter[i].0 == k;
        let oi = if i < at { i } else { i + 1 };
        lemma_map_of_entry(shorter, i);
        lemma_map_of_entry(entries, oi);
    }
    assert(map_of(shorter) =~= map_of(entries).remove(key));
}

/// The value of the first entry whose key is a prefix of `text`, if there is one.
pub open spec fn first_prefix_match<V>(entries: Seq<(Seq<char>, V)>, text: Seq<char>) -> Option<V>
    decreases entries.len(),
{
    if entries.len() == 0 {
        None
    } else if entries.first().0.is_prefix_of(text) {
        Some(entries.first().1)
    } else {
        first_prefix_match(entries.drop_first(), text)
    }
}

/// The entries with `value` put under `key`: in the place of the entry that
/// carries the key, where there is one, and else behind the last.
pub open spec fn put<V>(entries: Seq<(Seq<char>, V)>, key: Seq<char>, value: V) -> Seq<
    (Seq<char>, V),
> {
    if exists|i: int| 0 <= i < entries.len() && #[trigger] entries[i].0 == key {
        Seq::new(
            entries.len(),
            |j: int|
                if entries[j].0 == key {
                    (key, value)
                } else {
                    entries[j]
                },
        )
    } else {
        entries.push((key, value))
    }
}


/// A finite map from strings to values of type `V`.
#[derive(Debug)]
pub struct StringMap<V: DeepView> {
    entries: Vec<(String, V)>,
}

impl<V: DeepView> View for StringMap<V> {
    type V = Map<Seq<char>, V::V>;

    open spec fn view(&self) -> Map<Seq<char>, V::V> {
        map_of(self.entries())
    }
}

impl<V: DeepView> DeepView for StringMap<V> {
    type V = Map<Seq<char>, V::V>;

    open spec fn deep_view(&self) -> Map<Seq<char>, V::V> {
        self@
    }
}

impl<V: DeepView> StringMap<V> {
    /// The entries in the order in which they are kept.
    pub closed spec fn entries(&self) -> Seq<(Seq<char>, V::V)> {
        self.entries.deep_view()
    }

    #[verifier::type_invariant]
    spec fn keys_are_distinct(self) -> bool {
        distinct_keys(self.entries.deep_view())
    }

    /// The empty map.
    pub fn new() -> (map: Self)
        ensures
            map@ == Map::<Seq<char>, V::V>::empty(),
            map.entries().len() == 0,
    {
        let map = StringMap { entries: Vec::new() };
        assert(map.entries.deep_view() =~= Seq::empty());
        map
    }

    /// The number of keys.
    pub fn len(&self) -> (count: usize)
        ensures
            self@.dom().finite(),
            count == self@.len(),
            count == self.entries().len(),
    {
        proof {
            use_type_invariant(self);
            lemma_map_of_len(self.entries());
        }
        self.entries.len()
    }

    /// The position of `key` among the entries, if it is there.
    fn position(&self, key: &str) -> (found: Option<usize>)
        ensures
            match found {
                Some(at) => at < self.entries().len() && self.entries()[at as int].0 == key@,
                None => !self@.contains_key(key@),
            },
    {
        let mut i: usize = 0;
        while i < self.entries.len()
            invariant
                i <= self.entries.len(),
                forall|j: int| 0 <= j < i ==> (#[trigger] self.entries.deep_view()[j]).0 != key@,
            decreases self.entries.len() - i,
        {
            if str_eq(self.entries[i].0.as_str(), key) {
                return Some(i);
            }
            i += 1;
        }
        proof {
            lemma_map_of_dom(self.entries(), key@);
        }
        None
    }

    /// Whether `key` is in the map.
    pub fn contains_key(&self, key: &str) -> (found: bool)
        ensures
            found == self@.contains_key(key@),
    {
        match self.position(key) {
            Some(at) => {
                proof {
                    use_type_invariant(self);
                    lemma_map_of_entry(self.entries(), at as int);
                }
                true
            },
            None => false,
        }
    }

    /// The value kept under `key`, if there is one.
    pub fn get(&self, key: &str) -> (value: Option<&V>)
        ensures
            match value {
                Some(v) => self@.contains_key(key@) && self@[key@] == v.deep_view(),
                None => !self@.contains_key(key@),
            },
    {
        match self.position(key) {
            Some(at) => {
                proof {
                    use_type_invariant(self);
                    lemma_map_of_entry(self.entries(), at as int);
                }
                Some(&self.entries[at].1)
            },
            None => None,
        }
    }

    /// Puts `value` under `key`, in place of what was kept there.
    pub fn insert(&mut self, key: String, value: V)
        ensures
            final(self)@ == old(self)@.insert(key@, value.deep_view()),
            final(self).entries() == put(old(self).entries(), key@, value.deep_view()),
    {
        proof {
            use_type_invariant(&*self);
        }
        let found = self.position(key.as_str());
        let ghost before = self.entries();
        let mut entries: Vec<(String, V)> = Vec::new();
        assert(entries.deep_view() =~= Seq::empty());
        core::mem::swap(&mut self.entries, &mut entries);
        proof {
            lemma_map_of_dom(before, key@);
        }
        match found {
            Some(at) => {
                proof {
                    lemma_map_of_update(before, at as int, value.deep_view());
                }
                entries.set(at, (key, value));
                assert(entries.deep_view() =~= before.update(
                    at as int,
                    (before[at as int].0, value.deep_view()),
                ));
                assert(before[at as int].0 == key@);
                assert(entries.deep_view() =~= put(before, key@, value.deep_view()));
            },
            None => {
                proof {
                    lemma_map_of_push(before, key@, value.deep_view());
                }
                entries.push((key, value));
                assert(entries.deep_view() =~= before.push((key@, value.deep_view())));
            },
        }
        self.entries = entries;
    }

    /// Takes `key` and its value out of the map; a key that is not there changes nothing.
    pub fn remove(&mut self, key: &str)
        ensures
            final(self)@ == old(self)@.remove(key@),
    {
        proof {
            use_type_invariant(&*self);
        }
        let found = self.position(key);
        let ghost before = self.entries();
        match found {
            Some(at) => {
                proof {
                    lemma_map_of_remove(before, at as int);
                }
                let mut entries: Vec<(String, V)> = Vec::new();
                assert(entries.deep_view() =~= Seq::empty());
                core::mem::swap(&mut self.entries, &mut entries);
                let _ = entries.remove(at);
                assert(entries.deep_view() =~= before.remove(at as int));
                self.entries = entries;
            },
            None => {
                assert(self@.remove(key@) =~= self@);
            },
        }
    }

    /// The value of the first entry, in the order in which the entries are kept,
    /// whose key is a prefix of `text`.
    pub fn first_with_prefix_of(&self, text: &str) -> (value: Option<&V>)
        ensures
            value.deep_view() == first_prefix_match(self.entries(), text@),
    {
        let mut i: usize = 0;
        assert(self.entries().skip(0) =~= self.entries());
        while i < self.entries.len()
            invariant
                i <= self.entries.len(),
                first_prefix_match(self.entries(), text@) == first_prefix_match(
                    self.entries().skip(i as int),
                    text@,
                ),
            decreases self.entries.len() - i,
        {
            proof {
                let rest = self.entries().skip(i as int);
                assert(rest.first() == self.entries()[i as int]);
                assert(rest.drop_first() =~= self.entries().skip(i + 1));
            }
            if starts_with(text, self.entries[i].0.as_str()) {
                return Some(&self.entries[i].1);
            }
            i += 1;
        }
        None
    }

    /// The keys, in the order in which the entries are kept.
    pub fn keys(&self) -> (keys: Vec<String>)
        ensures
            keys.len() == self.entries().len(),
            forall|i: int| 0 <= i < keys.len() ==> (#[trigger] keys[i])@ == self.entries()[i].0,
            forall|i: int| 0 <= i < keys.len() ==> self@.contains_key((#[trigger] keys[i])@),
            forall|key: Seq<char>|
                self@.contains_key(key) ==> exists|i: int|
                    0 <= i < keys.len() && (#[trigger] keys[i])@ == key,
    {
        let mut keys: Vec<String> = Vec::new();
        let mut i: usize = 0;
        while i < self.entries.len()
            invariant
                i <= self.entries.len(),
                keys.len() == i,
                forall|j: int| 0 <= j < i ==> (#[trigger] keys[j])@ == self.entries.deep_view()[j].0,
            decreases self.entries.len() - i,
        {
            keys.push(self.entries[i].0.clone());
            i += 1;
        }
        proof {
            use_type_invariant(self);
            assert forall|j: int| 0 <= j < keys.len() implies self@.contains_key(
                (#[trigger] keys[j])@,
            ) by {
                lemma_map_of_entry(self.entries(), j);
            }
            assert forall|key: Seq<char>| self@.contains_key(key) implies exists|j: int|
                0 <= j < keys.len() && (#[trigger] keys[j])@ == key by {
                lemma_map_of_dom(self.entries(), key);
                let j = choose|j: int|
                    0 <= j < self.entries().len() && #[trigger] self.entries()[j].0 == key;
                assert(keys[j]@ == key);
            }
        }
        keys
    }
}

impl StringMap<String> {
    /// The entries whose key does not begin with `prefix`.
    pub fn without_prefix(&self, prefix: &str) -> (kept: Self)
        ensures
            kept@ == self@.remove_keys(Set::new(|key: Seq<char>| prefix@.is_prefix_of(key))),
    {
        let ghost dropped = Set::new(|key: Seq<char>| prefix@.is_prefix_of(key));
        let mut kept: StringMap<String> = StringMap::new();
        let mut i: usize = 0;
        assert(self.entries().take(0) =~= Seq::empty());
        assert(kept@ =~= map_of(self.entries().take(0)).remove_keys(dropped));
        while i < self.entries.len()
            invariant
                i <= self.entries.len(),
                dropped == Set::new(|key: Seq<char>| prefix@.is_prefix_of(key)),
                kept@ == map_of(self.entries().take(i as int)).remove_keys(dropped),
            decreases self.entries.len() - i,
        {
            let ghost before = map_of(self.entries().take(i as int));
            let ghost entry = self.entries()[i as int];
            proof {
                assert(self.entries().take(i + 1).drop_last() =~= self.entries().take(i as int));
                assert(map_of(self.entries().take(i + 1)) == before.insert(entry.0, entry.1));
            }
            if starts_with(self.entries[i].0.as_str(), prefix) {
                assert(before.insert(entry.0, entry.1).remove_keys(dropped) =~= before.remove_keys(
                    dropped,
                ));
            } else {
                kept.insert(self.entries[i].0.clone(), self.entries[i].1.clone());
                assert(before.insert(entry.0, entry.1).remove_keys(dropped) =~= before.remove_keys(
                    dropped,
                ).insert(entry.0, entry.1));
            }
            i += 1;
        }
        assert(self.entries().take(i as int) =~= self.entries());
        kept
    }

    /// Whether both maps hold the same keys with the same values.
    pub fn same_as(&self, other: &Self) -> (same: bool)
        ensures
            same == (self@ == other@),
    {
        proof {
            use_type_invariant(self);
            use_type_invariant(other);
            lemma_map_of_len(self.entries());
            lemma_map_of_len(other.entries());
        }
        if self.entries.len() != other.entries.len() {
            return false;
        }
        let mut i: usize = 0;
        while i < self.entries.len()
            invariant
                i <= self.entries.len(),
                distinct_keys(self.entries()),
                forall|j: int|
                    0 <= j < i ==> other@.contains_key((#[trigger] self.entries()[j]).0)
                        && other@[self.entries()[j].0] == self.entries()[j].1,
            decreases self.entries.len() - i,
        {
            proof {
                lemma_map_of_entry(self.entries(), i as int);
            }
            match other.get(self.entries[i].0.as_str()) {
                Some(value) => {
                    if !str_eq(value.as_str(), self.entries[i].1.as_str()) {
                        return false;
                    }
                },
                None => {
                    return false;
                },
            }
            i += 1;
        }
        proof {
            lemma_same_maps(self.entries(), other@);
        }
        true
    }
}

impl Clone for StringMap<String> {
    fn clone(&self) -> (copy: Self)
        ensures
            copy@ == self@,
    {
        let mut copy: StringMap<String> = StringMap::new();
        let mut i: usize = 0;
        assert(self.entries().take(0) =~= Seq::empty());
        while i < self.entries.len()
            invariant
                i <= self.entries.len(),
                copy@ == map_of(self.entries().take(i as int)),
            decreases self.entries.len() - i,
        {
            proof {
                assert(self.entries().take(i + 1).drop_last() =~= self.entries().take(i as int));
            }
            copy.insert(self.entries[i].0.clone(), self.entries[i].1.clone());
            i += 1;
        }
        assert(self.entries().take(i as int) =~= self.entries());
        copy
    }
}

impl StringMap<Vec<u8>> {
    /// Whether both maps hold the same keys with the same bytes.
    pub fn same_as(&self, other: &Self) -> (same: bool)
        ensures
            same == (self@ == other@),
    {
        proof {
            use_type_invariant(self);
            use_type_invariant(other);
            lemma_map_of_len(self.entries());
            lemma_map_of_len(other.entries());
        }
        if self.entries.len() != other.entries.len() {
            return false;
        }
        let mut i: usize = 0;
        while i < self.entries.len()
            invariant
                i <= self.entries.len(),
                distinct_keys(self.entries()),
                forall|j: int|
                    0 <= j < i ==> other@.contains_key((#[trigger] self.entries()[j]).0)
                        && other@[self.entries()[j].0] == self.entries()[j].1,
            decreases self.entries.len() - i,
        {
            proof {
                lemma_map_of_entry(self.entries(), i as int);
            }
            match other.get(self.entries[i].0.as_str()) {
                Some(value) => {
                    if !same_bytes(value, &self.entries[i].1) {
                        return false;
                    }
                },
                None => {
                    return false;
                },
            }
            i += 1;
        }
        proof {
            lemma_same_maps(self.entries(), other@);
        }
        true
    }
}

impl Clone for StringMap<Vec<u8>> {
    fn clone(&self) -> (copy: Self)
        ensures
            copy@ == self@,
    {
        let mut copy: StringMap<Vec<u8>> = StringMap::new();
        let mut i: usize = 0;
        assert(self.entries().take(0) =~= Seq::empty());
        while i < self.entries.len()
            invariant
                i <= self.entries.len(),
                copy@ == map_of(self.entries().take(i as int)),
            decreases self.entries.len() - i,
        {
            proof {
                assert(self.entries().take(i + 1).drop_last() =~= self.entries().take(i as int));
            }
            let bytes = self.entries[i].1.clone();
            assert(bytes.deep_view() =~= self.entries[i as int].1.deep_view());
            copy.insert(self.entries[i].0.clone(), bytes);
            i += 1;
        }
        assert(self.entries().take(i as int) =~= self.entries());
        copy
    }
}

/// Whether two byte strings are equal.
pub fn same_bytes(a: &Vec<u8>, b: &Vec<u8>) -> (same: bool)
    ensures
        same == (a.deep_view() == b.deep_view()),
        same == (a@ == b@),
{
    assert(a.deep_view() =~= a@);
    assert(b.deep_view() =~= b@);
    if a.len() != b.len() {
        return false;
    }
    let mut i: usize = 0;
    while i < a.len()
        invariant
            i <= a.len(),
            a.len() == b.len(),
            a.deep_view() == a@,
            b.deep_view() == b@,
            forall|j: int| 0 <= j < i ==> a@[j] == b@[j],
        decreases a.len() - i,
    {
        if a[i] != b[i] {
            return false;
        }
        i += 1;
    }
    assert(a@ =~= b@);
    true
}

/// A list with distinct keys whose every entry is in `other`, and which is as long
/// as `other` is large, stands for `other`.
pub proof fn lemma_same_maps<V>(entries: Seq<(Seq<char>, V)>, other: Map<Seq<char>, V>)
    requires
        distinct_keys(entries),
        other.dom().finite(),
        other.len() == entries.len(),
        forall|j: int|
            0 <= j < entries.len() ==> other.contains_key((#[trigger] entries[j]).0)
                && other[entries[j].0] == entries[j].1,
    ensures
        map_of(entries) == other,
{
    let mine = map_of(entries);
    lemma_map_of_len(entries);
    assert forall|key: Seq<char>| #[trigger] mine.dom().contains(key) implies other.dom().contains(
        key,
    ) && mine[key] == other[key] by {
        lemma_map_of_dom(entries, key);
        let j = choose|j: int| 0 <= j < entries.len() && #[trigger] entries[j].0 == key;
        lemma_map_of_entry(entries, j);
    }
    assert(mine.dom().subset_of(other.dom()));
    vstd::set_lib::lemma_subset_equality(mine.dom(), other.dom());
    assert(mine =~= other);
}


impl PartialEq for StringMap<String> {
    fn eq(&self, other: &Self) -> (same: bool) {
        self.same_as(other)
    }
}

impl vstd::std_specs::cmp::PartialEqSpecImpl for StringMap<String> {
    open spec fn obeys_eq_spec() -> bool {
        true
    }

    open spec fn eq_spec(&self, other: &Self) -> bool {
        self@ == other@
    }
}

impl PartialEq for StringMap<Vec<u8>> {
    fn eq(&self, other: &Self) -> (same: bool) {
        self.same_as(other)
    }
}

impl vstd::std_specs::cmp::PartialEqSpecImpl for StringMap<Vec<u8>> {
    open spec fn obeys_eq_spec() -> bool {
        true
    }

    open spec fn eq_spec(&self, other: &Self) -> bool {
        self@ == other@
    }
}

} // verus!
