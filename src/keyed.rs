use vstd::prelude::*;

verus! {

/// Index of the first entry with the given key, if any.
pub open spec fn key_index<V>(m: Seq<(Seq<char>, V)>, key: Seq<char>) -> Option<nat>
    decreases m.len(),
{
    if m.len() == 0 {
        None
    } else {
        match key_index(m.drop_last(), key) {
            Some(i) => Some(i),
            None => if m.last().0 == key {
                Some((m.len() - 1) as nat)
            } else {
                None
            },
        }
    }
}

/// The entries after setting `key` to `value`: the entry with that key takes
/// the new value in place, or a new entry is added at the end.
pub open spec fn with_entry<V>(m: Seq<(Seq<char>, V)>, key: Seq<char>, value: V) -> Seq<
    (Seq<char>, V),
> {
    match key_index(m, key) {
        Some(i) => m.update(i as int, (key, value)),
        None => m.push((key, value)),
    }
}

/// The entries without the one with `key`, the others keeping their order.
pub open spec fn without_entry<V>(m: Seq<(Seq<char>, V)>, key: Seq<char>) -> Seq<(Seq<char>, V)> {
    match key_index(m, key) {
        Some(i) => m.remove(i as int),
        None => m,
    }
}

/// The value stored under `key`, if any.
pub open spec fn value_of<V>(m: Seq<(Seq<char>, V)>, key: Seq<char>) -> Option<V> {
    match key_index(m, key) {
        Some(i) => Some(m[i as int].1),
        None => None,
    }
}

/// The values of keyed entries, in order.
pub open spec fn values_of<T>(m: Seq<(Seq<char>, T)>) -> Seq<T> {
    m.map_values(|e: (Seq<char>, T)| e.1)
}

/// A key absent from the first `i` entries and present at `i` is first found
/// at `i`.
pub proof fn lemma_key_index_at<V>(m: Seq<(Seq<char>, V)>, key: Seq<char>, i: int)
    requires
        0 <= i < m.len(),
        key_index(m.subrange(0, i), key) is None,
        m[i].0 == key,
    ensures
        key_index(m, key) == Some(i as nat),
    decreases m.len(),
{
    if i < m.len() - 1 {
        assert(m.drop_last().subrange(0, i) =~= m.subrange(0, i));
        lemma_key_index_at(m.drop_last(), key, i);
    } else {
        assert(m.drop_last() =~= m.subrange(0, i));
    }
}

/// A key found in no entry has no index.
pub proof fn lemma_key_index_none<V>(m: Seq<(Seq<char>, V)>, key: Seq<char>, i: int)
    requires
        0 <= i < m.len(),
        key_index(m.subrange(0, i), key) is None,
        m[i].0 != key,
    ensures
        key_index(m.subrange(0, i + 1), key) is None,
{
    assert(m.subrange(0, i + 1).drop_last() =~= m.subrange(0, i));
}

/// No key appears in two entries.
pub open spec fn unique_keys<V>(m: Seq<(Seq<char>, V)>) -> bool {
    forall|i: int, j: int| 0 <= i < j < m.len() ==> #[trigger] m[i].0 != #[trigger] m[j].0
}

/// `key_index` finds the first entry with the key, and only an absent key has
/// no index.
pub proof fn lemma_key_index_spec<V>(m: Seq<(Seq<char>, V)>, key: Seq<char>)
    ensures
        match key_index(m, key) {
            Some(i) => i < m.len() && m[i as int].0 == key && forall|j: int|
                0 <= j < i ==> (#[trigger] m[j]).0 != key,
            None => forall|j: int| 0 <= j < m.len() ==> (#[trigger] m[j]).0 != key,
        },
    decreases m.len(),
{
    if m.len() > 0 {
        let d = m.drop_last();
        lemma_key_index_spec(d, key);
        assert forall|j: int| 0 <= j < d.len() implies #[trigger] d[j] == m[j] by {}
        match key_index(d, key) {
            Some(i) => {
                assert(d[i as int] == m[i as int]);
                assert forall|j: int| 0 <= j < i implies (#[trigger] m[j]).0 != key by {
                    assert(d[j] == m[j]);
                }
            },
            None => {
                assert forall|j: int| 0 <= j < m.len() - 1 implies (#[trigger] m[j]).0 != key by {
                    assert(d[j] == m[j]);
                }
            },
        }
    }
}

/// In entries with unique keys, the entry found for a key is the only one
/// with that key.
proof fn lemma_only_entry<V>(m: Seq<(Seq<char>, V)>, key: Seq<char>, i: int)
    requires
        unique_keys(m),
        0 <= i < m.len(),
        m[i].0 == key,
    ensures
        key_index(m, key) == Some(i as nat),
{
    lemma_key_index_spec(m, key);
    match key_index(m, key) {
        Some(k) => {
            if (k as int) != i {
                if (k as int) < i {
                    assert(m[k as int].0 != m[i].0);
                } else {
                    assert(m[i].0 != m[k as int].0);
                }
            }
        },
        None => {
            assert(m[i].0 != key);
        },
    }
}

/// Setting a key keeps the keys unique, and the key then holds the new value.
pub proof fn lemma_with_entry<V>(m: Seq<(Seq<char>, V)>, key: Seq<char>, value: V)
    requires
        unique_keys(m),
    ensures
        unique_keys(with_entry(m, key, value)),
        value_of(with_entry(m, key, value), key) == Some(value),
        with_entry(m, key, value).len() == m.len() + (if key_index(m, key) is Some {
            0int
        } else {
            1int
        }),
{
    lemma_key_index_spec(m, key);
    let r = with_entry(m, key, value);
    match key_index(m, key) {
        Some(i) => {
            assert forall|a: int, b: int| 0 <= a < b < r.len() implies #[trigger] r[a].0
                != #[trigger] r[b].0 by {
                if a != i && b != i {
                    assert(m[a].0 != m[b].0);
                } else if a == i {
                    assert(m[a].0 != m[b].0);
                } else {
                    assert(m[a].0 != m[b].0);
                }
            }
            lemma_only_entry(r, key, i as int);
        },
        None => {
            assert forall|a: int, b: int| 0 <= a < b < r.len() implies #[trigger] r[a].0
                != #[trigger] r[b].0 by {
                if b < m.len() {
                    assert(m[a].0 != m[b].0);
                } else {
                    assert(m[a].0 != key);
                }
            }
            lemma_only_entry(r, key, m.len() as int);
        },
    }
}

/// Removing a key keeps the keys unique, and the key is then absent.
pub proof fn lemma_without_entry<V>(m: Seq<(Seq<char>, V)>, key: Seq<char>)
    requires
        unique_keys(m),
    ensures
        unique_keys(without_entry(m, key)),
        value_of(without_entry(m, key), key) is None,
        forall|k: Seq<char>| k != key ==> value_of(#[trigger] without_entry(m, key), k) == value_of(m, k),
{
    lemma_key_index_spec(m, key);
    let r = without_entry(m, key);
    match key_index(m, key) {
        Some(i) => {
            assert forall|a: int, b: int| 0 <= a < b < r.len() implies #[trigger] r[a].0
                != #[trigger] r[b].0 by {
                let a2 = if a < i { a } else { a + 1 };
                let b2 = if b < i { b } else { b + 1 };
                assert(r[a] == m[a2]);
                assert(r[b] == m[b2]);
                assert(m[a2].0 != m[b2].0);
            }
            lemma_key_index_spec(r, key);
            if key_index(r, key) is Some {
                let k = key_index(r, key)->0 as int;
                let k2 = if k < i { k } else { k + 1 };
                assert(r[k] == m[k2]);
                if k2 < i {
                    assert(m[k2].0 != m[i as int].0);
                } else {
                    assert(m[i as int].0 != m[k2].0);
                }
            }
            assert forall|k: Seq<char>| k != key implies value_of(
                #[trigger] without_entry(m, key),
                k,
            ) == value_of(m, k) by {
                lemma_key_index_spec(m, k);
                lemma_key_index_spec(r, k);
                match key_index(m, k) {
                    Some(p) => {
                        let p2 = if (p as int) < i { p as int } else { p - 1 };
                        assert(p as int != i);
                        assert(r[p2] == m[p as int]);
                        lemma_only_entry(r, k, p2);
                    },
                    None => {
                        if key_index(r, k) is Some {
                            let q = key_index(r, k)->0 as int;
                            let q2 = if q < i { q } else { q + 1 };
                            assert(r[q] == m[q2]);
                        }
                    },
                }
            }
        },
        None => {},
    }
}

/// Values kept under text keys, in the order in which their keys were first
/// added; each key appears once.
pub struct Registry<T> {
    entries: Vec<(String, T)>,
}

impl<T> Registry<T> {
    /// Each key appears once.
    #[verifier::type_invariant]
    closed spec fn keys_unique(self) -> bool {
        unique_keys(self.view())
    }

    /// The entries, keys as text.
    pub closed spec fn view(&self) -> Seq<(Seq<char>, T)> {
        self.entries@.map_values(|e: (String, T)| (e.0@, e.1))
    }

    /// An empty registry.
    pub fn new() -> (r: Registry<T>)
        ensures
            r.view() == Seq::<(Seq<char>, T)>::empty(),
    {
        let entries: Vec<(String, T)> = Vec::new();
        assert(entries@.map_values(|e: (String, T)| (e.0@, e.1)) =~= Seq::<
            (Seq<char>, T),
        >::empty());
        Registry { entries }
    }

    /// Number of entries.
    pub fn len(&self) -> (r: usize)
        ensures
            r == self.view().len(),
    {
        self.entries.len()
    }

    /// Where the entry with `key` stands.
    fn find(&self, key: &str) -> (r: Option<usize>)
        ensures
            r matches Some(i) ==> i < self.view().len() && key_index(self.view(), key@) == Some(
                i as nat,
            ),
            r is None ==> key_index(self.view(), key@) is None,
    {
        let ghost v = self.view();
        let wanted = String::from_str(key);
        let mut i: usize = 0;
        while i < self.entries.len()
            invariant
                i <= self.entries@.len(),
                v == self.view(),
                wanted@ == key@,
                key_index(v.subrange(0, i as int), key@) is None,
            decreases self.entries@.len() - i,
        {
            assert(v[i as int] == (self.entries@[i as int].0@, self.entries@[i as int].1));
            if self.entries[i].0 == wanted {
                proof {
                    lemma_key_index_at(v, key@, i as int);
                }
                return Some(i);
            }
            proof {
                lemma_key_index_none(v, key@, i as int);
            }
            i = i + 1;
        }
        assert(v.subrange(0, v.len() as int) =~= v);
        None
    }

    /// Sets `key` to `value`.
    pub fn insert(&mut self, key: String, value: T)
        ensures
            final(self).view() == with_entry(old(self).view(), key@, value),
            value_of(final(self).view(), key@) == Some(value),
            unique_keys(final(self).view()),
    {
        proof {
            use_type_invariant(&*self);
            lemma_with_entry(self.view(), key@, value);
        }
        let ghost before = self.view();
        let ghost k = key@;
        let found = self.find(key.as_str());
        let mut entries: Vec<(String, T)> = Vec::new();
        assert(entries@.map_values(|e: (String, T)| (e.0@, e.1)) =~= Seq::<
            (Seq<char>, T),
        >::empty());
        core::mem::swap(&mut self.entries, &mut entries);
        match found {
            Some(i) => {
                entries.set(i, (key, value));
                assert(entries@.map_values(|e: (String, T)| (e.0@, e.1)) =~= before.update(
                    i as int,
                    (k, value),
                ));
            },
            None => {
                entries.push((key, value));
                assert(entries@.map_values(|e: (String, T)| (e.0@, e.1)) =~= before.push(
                    (k, value),
                ));
            },
        }
        core::mem::swap(&mut self.entries, &mut entries);
    }

    /// Removes the entry with `key`, if there is one; the others stay.
    pub fn remove(&mut self, key: &str)
        ensures
            final(self).view() == without_entry(old(self).view(), key@),
            value_of(final(self).view(), key@) is None,
            forall|k: Seq<char>|
                k != key@ ==> value_of(final(self).view(), k) == value_of(old(self).view(), k),
            unique_keys(final(self).view()),
    {
        proof {
            use_type_invariant(&*self);
            lemma_without_entry(self.view(), key@);
        }
        let ghost before = self.view();
        match self.find(key) {
            Some(i) => {
                let mut entries: Vec<(String, T)> = Vec::new();
                assert(entries@.map_values(|e: (String, T)| (e.0@, e.1)) =~= Seq::<
                    (Seq<char>, T),
                >::empty());
                core::mem::swap(&mut self.entries, &mut entries);
                entries.remove(i);
                assert(entries@.map_values(|e: (String, T)| (e.0@, e.1)) =~= before.remove(
                    i as int,
                ));
                core::mem::swap(&mut self.entries, &mut entries);
            },
            None => {},
        }
    }

    /// Removes every entry.
    pub fn clear(&mut self)
        ensures
            final(self).view() == Seq::<(Seq<char>, T)>::empty(),
    {
        let mut entries: Vec<(String, T)> = Vec::new();
        assert(entries@.map_values(|e: (String, T)| (e.0@, e.1)) =~= Seq::<
            (Seq<char>, T),
        >::empty());
        core::mem::swap(&mut self.entries, &mut entries);
    }

    /// The value stored under `key`, if any.
    pub fn get(&self, key: &str) -> (r: Option<&T>)
        ensures
            match value_of(self.view(), key@) {
                Some(v) => r matches Some(x) && *x == v,
                None => r is None,
            },
    {
        match self.find(key) {
            Some(i) => {
                assert(self.view()[i as int] == (self.entries@[i as int].0@, self.entries@[
                    i as int
                ].1));
                Some(&self.entries[i].1)
            },
            None => None,
        }
    }

    /// The value of the entry at `index`, entries in order.
    pub fn value_at(&self, index: usize) -> (r: &T)
        requires
            index < self.view().len(),
        ensures
            *r == self.view()[index as int].1,
    {
        assert(self.view()[index as int] == (self.entries@[index as int].0@, self.entries@[
            index as int
        ].1));
        &self.entries[index].1
    }
}

} // verus!
