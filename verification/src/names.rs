//! A small map keyed by name, standing for the Python dictionaries a project defines.
use vstd::prelude::*;
use crate::text::str_eq;

verus! {

/// One entry of a `NameMap`.
pub struct NameEntry<V> {
    pub key: String,
    pub value: V,
}

/// A map from names to values. Entries are kept in insertion order; inserting a name
/// that is present replaces its value in place.
pub struct NameMap<V> {
    pub entries: Vec<NameEntry<V>>,
}

/// The value of the first entry named `key`.
pub open spec fn find<V>(entries: Seq<NameEntry<V>>, key: Seq<char>) -> Option<V>
    decreases entries.len(),
{
    if entries.len() == 0 {
        None
    } else if entries[0].key@ == key {
        Some(entries[0].value)
    } else {
        find(entries.drop_first(), key)
    }
}

/// The position of the first entry named `key`, if any.
pub open spec fn position<V>(entries: Seq<NameEntry<V>>, key: Seq<char>) -> Option<int>
    decreases entries.len(),
{
    if entries.len() == 0 {
        None
    } else if entries[0].key@ == key {
        Some(0)
    } else {
        match position(entries.drop_first(), key) {
            Some(i) => Some(i + 1),
            None => None,
        }
    }
}

proof fn lemma_position<V>(entries: Seq<NameEntry<V>>, key: Seq<char>)
    ensures
        match position(entries, key) {
            Some(i) => 0 <= i < entries.len() && entries[i].key@ == key && find(entries, key)
                == Some(entries[i].value) && forall|j: int|
                0 <= j < i ==> entries[j].key@ != key,
            None => find(entries, key) is None && forall|j: int|
                0 <= j < entries.len() ==> entries[j].key@ != key,
        },
    decreases entries.len(),
{
    if entries.len() > 0 && entries[0].key@ != key {
        lemma_position(entries.drop_first(), key);
        assert forall|j: int| 0 < j < entries.len() implies entries[j] == entries.drop_first()[j
            - 1] by {}
    }
}

proof fn lemma_find_update<V>(entries: Seq<NameEntry<V>>, i: int, e: NameEntry<V>, key: Seq<char>)
    requires
        0 <= i < entries.len(),
        entries[i].key@ == e.key@,
        forall|j: int| 0 <= j < i ==> entries[j].key@ != e.key@,
    ensures
        find(entries.update(i, e), key) == if key == e.key@ {
            Some(e.value)
        } else {
            find(entries, key)
        },
    decreases entries.len(),
{
    if i > 0 {
        assert(entries.update(i, e).drop_first() =~= entries.drop_first().update(i - 1, e));
        lemma_find_update(entries.drop_first(), i - 1, e, key);
    } else {
        assert(entries.update(i, e).drop_first() =~= entries.drop_first());
    }
}

proof fn lemma_find_push<V>(entries: Seq<NameEntry<V>>, e: NameEntry<V>, key: Seq<char>)
    requires
        forall|j: int| 0 <= j < entries.len() ==> entries[j].key@ != e.key@,
    ensures
        find(entries.push(e), key) == if key == e.key@ {
            Some(e.value)
        } else {
            find(entries, key)
        },
    decreases entries.len(),
{
    assert(entries.push(e)[0] == if entries.len() > 0 { entries[0] } else { e });
    if entries.len() > 0 {
        assert(entries.push(e).drop_first() =~= entries.drop_first().push(e));
        lemma_find_push(entries.drop_first(), e, key);
    } else {
        assert(entries.push(e).drop_first() =~= Seq::<NameEntry<V>>::empty());
        assert(find(Seq::<NameEntry<V>>::empty(), key) is None);
    }
}

impl<V> NameMap<V> {
    /// The value stored under `key`.
    pub open spec fn get_spec(&self, key: Seq<char>) -> Option<V> {
        find(self.entries@, key)
    }

    /// An empty map.
    pub fn new() -> (m: Self)
        ensures
            forall|k: Seq<char>| m.get_spec(k) is None,
    {
        NameMap { entries: Vec::new() }
    }

    /// The position of the entry named `key`.
    fn index_of(&self, key: &str) -> (r: Option<usize>)
        ensures
            match r {
                Some(i) => position(self.entries@, key@) == Some(i as int),
                None => position(self.entries@, key@) is None,
            },
    {
        proof {
            lemma_position(self.entries@, key@);
        }
        let n = self.entries.len();
        let mut i: usize = 0;
        while i < n
            invariant
                n == self.entries@.len(),
                i <= n,
                forall|j: int| 0 <= j < i ==> self.entries@[j].key@ != key@,
                match position(self.entries@, key@) {
                    Some(p) => 0 <= p < n && self.entries@[p].key@ == key@ && forall|j: int|
                        0 <= j < p ==> self.entries@[j].key@ != key@,
                    None => forall|j: int| 0 <= j < n ==> self.entries@[j].key@ != key@,
                },
            decreases n - i,
        {
            if str_eq(self.entries[i].key.as_str(), key) {
                return Some(i);
            }
            i = i + 1;
        }
        None
    }

    /// The value stored under `key`, if any.
    pub fn get(&self, key: &str) -> (r: Option<&V>)
        ensures
            match r {
                Some(v) => self.get_spec(key@) == Some(*v),
                None => self.get_spec(key@) is None,
            },
    {
        proof {
            lemma_position(self.entries@, key@);
        }
        match self.index_of(key) {
            Some(i) => {
                assert(position(self.entries@, key@) == Some(i as int));
                Some(&self.entries[i].value)
            },
            None => None,
        }
    }

    /// Stores `value` under `key`, replacing what was stored there.
    pub fn insert(&mut self, key: String, value: V)
        ensures
            final(self).get_spec(key@) == Some(value),
            forall|k: Seq<char>| k != key@ ==> final(self).get_spec(k) == old(self).get_spec(k),
    {
        proof {
            lemma_position(self.entries@, key@);
        }
        let ghost k0 = key@;
        match self.index_of(key.as_str()) {
            Some(i) => {
                let ghost before = self.entries@;
                assert(position(before, k0) == Some(i as int));
                let e = NameEntry { key, value };
                assert(e.key@ == k0);
                proof {
                    assert forall|k: Seq<char>| #![auto]
                        find(before.update(i as int, e), k) == if k == e.key@ {
                            Some(e.value)
                        } else {
                            find(before, k)
                        } by {
                        lemma_find_update(before, i as int, e, k);
                    }
                }
                self.entries.set(i, e);
            },
            None => {
                let ghost before = self.entries@;
                let e = NameEntry { key, value };
                assert(e.key@ == k0);
                proof {
                    assert forall|k: Seq<char>| #![auto]
                        find(before.push(e), k) == if k == e.key@ {
                            Some(e.value)
                        } else {
                            find(before, k)
                        } by {
                        lemma_find_push(before, e, k);
                    }
                }
                self.entries.push(e);
            },
        }
    }
}

} // verus!
