//! Small keyed tables: registered tools, slash commands and event handlers.
//!
//! A table keeps its entries in insertion order, one entry per key; its
//! abstract value is the map from keys to values.
use vstd::prelude::*;

verus! {

/// A key that can be compared by its abstract identity.
pub trait TableKey: Sized {
    /// What identifies the key.
    type Id;

    /// The identity of the key.
    spec fn id(&self) -> Self::Id;

    /// Compares two keys by identity.
    fn same_key(&self, other: &Self) -> (b: bool)
        ensures
            b == (self.id() == other.id()),
    ;
}

impl TableKey for String {
    type Id = Seq<char>;

    open spec fn id(&self) -> Seq<char> {
        self@
    }

    fn same_key(&self, other: &Self) -> (b: bool) {
        *self == *other
    }
}

impl TableKey for u64 {
    type Id = u64;

    open spec fn id(&self) -> u64 {
        *self
    }

    fn same_key(&self, other: &Self) -> (b: bool) {
        *self == *other
    }
}

/// The map that a sequence of entries denotes; later entries win.
pub open spec fn entries_map<K: TableKey, V>(s: Seq<(K, V)>) -> Map<K::Id, V>
    decreases s.len(),
{
    if s.len() == 0 {
        Map::empty()
    } else {
        entries_map(s.drop_last()).insert(s.last().0.id(), s.last().1)
    }
}

/// No two entries share a key.
pub open spec fn keys_distinct<K: TableKey, V>(s: Seq<(K, V)>) -> bool {
    forall|i: int, j: int| 0 <= i < j < s.len() ==> s[i].0.id() != s[j].0.id()
}

/// With distinct keys, the map holds exactly the entries.
pub proof fn lemma_entries_map<K: TableKey, V>(s: Seq<(K, V)>)
    requires
        keys_distinct(s),
    ensures
        forall|k: K::Id| #[trigger]
            entries_map(s).contains_key(k) <==> exists|i: int|
                0 <= i < s.len() && s[i].0.id() == k,
        forall|i: int| 0 <= i < s.len() ==> #[trigger] entries_map(s)[s[i].0.id()] == s[i].1,
        entries_map(s).dom().finite(),
        entries_map(s).dom().len() == s.len(),
    decreases s.len(),
{
    if s.len() > 0 {
        let p = s.drop_last();
        assert(keys_distinct(p));
        lemma_entries_map(p);
        let k = s.last().0.id();
        assert(!entries_map(p).contains_key(k)) by {
            if entries_map(p).contains_key(k) {
                let i = choose|i: int| 0 <= i < p.len() && p[i].0.id() == k;
                assert(s[i].0.id() == s[s.len() - 1].0.id());
            }
        }
        assert forall|k2: K::Id| #[trigger]
            entries_map(s).contains_key(k2) <==> exists|i: int|
                0 <= i < s.len() && s[i].0.id() == k2 by {
            if entries_map(s).contains_key(k2) && k2 != k {
                let i = choose|i: int| 0 <= i < p.len() && p[i].0.id() == k2;
                assert(s[i] == p[i]);
            }
            if exists|i: int| 0 <= i < s.len() && s[i].0.id() == k2 {
                let i = choose|i: int| 0 <= i < s.len() && s[i].0.id() == k2;
                if i < s.len() - 1 {
                    assert(p[i] == s[i]);
                }
            }
        }
        assert forall|i: int| 0 <= i < s.len() implies #[trigger] entries_map(s)[s[i].0.id()]
            == s[i].1 by {
            if i < s.len() - 1 {
                assert(p[i] == s[i]);
                assert(s[i].0.id() != k);
            }
        }
    }
}

/// Replacing the value of an entry replaces it in the map.
proof fn lemma_entries_map_update<K: TableKey, V>(s: Seq<(K, V)>, i: int, e: (K, V))
    requires
        0 <= i < s.len(),
        keys_distinct(s),
        e.0.id() == s[i].0.id(),
    ensures
        keys_distinct(s.update(i, e)),
        entries_map(s.update(i, e)) == entries_map(s).insert(e.0.id(), e.1),
    decreases s.len(),
{
    let t = s.update(i, e);
    assert(keys_distinct(t)) by {
        assert forall|a: int, b: int| 0 <= a < b < t.len() implies t[a].0.id() != t[b].0.id() by {
            assert(s[a].0.id() != s[b].0.id());
        }
    }
    if i == s.len() - 1 {
        assert(t.drop_last() =~= s.drop_last());
    } else {
        let p = s.drop_last();
        assert(keys_distinct(p));
        lemma_entries_map_update(p, i, e);
        assert(t.drop_last() =~= p.update(i, e));
        assert(s.last().0.id() != e.0.id());
        assert(entries_map(t) =~= entries_map(s).insert(e.0.id(), e.1));
    }
}

/// Removing an entry removes its key from the map.
proof fn lemma_entries_map_remove<K: TableKey, V>(s: Seq<(K, V)>, i: int)
    requires
        0 <= i < s.len(),
        keys_distinct(s),
    ensures
        keys_distinct(s.remove(i)),
        entries_map(s.remove(i)) == entries_map(s).remove(s[i].0.id()),
    decreases s.len(),
{
    let t = s.remove(i);
    let k = s[i].0.id();
    assert(keys_distinct(t)) by {
        assert forall|a: int, b: int| 0 <= a < b < t.len() implies t[a].0.id() != t[b].0.id() by {
            let a2 = if a < i { a } else { a + 1 };
            let b2 = if b < i { b } else { b + 1 };
            assert(t[a] == s[a2]);
            assert(t[b] == s[b2]);
        }
    }
    let p = s.drop_last();
    assert(keys_distinct(p));
    if i == s.len() - 1 {
        assert(t =~= p);
        lemma_entries_map(p);
        assert(!entries_map(p).contains_key(k)) by {
            if entries_map(p).contains_key(k) {
                let j = choose|j: int| 0 <= j < p.len() && p[j].0.id() == k;
                assert(s[j].0.id() == s[i].0.id());
            }
        }
        assert(entries_map(t) =~= entries_map(s).remove(k));
    } else {
        lemma_entries_map_remove(p, i);
        assert(t.drop_last() =~= p.remove(i));
        assert(t.last() == s.last());
        assert(s.last().0.id() != k);
        assert(entries_map(t) =~= entries_map(s).remove(k));
    }
}

/// The map after inserting `items` in order.
pub open spec fn insert_all<K: TableKey, V>(m: Map<K::Id, V>, items: Seq<(K, V)>) -> Map<K::Id, V>
    decreases items.len(),
{
    if items.len() == 0 {
        m
    } else {
        insert_all(m, items.drop_last()).insert(items.last().0.id(), items.last().1)
    }
}

/// Inserting several entries at once: each key of `items` ends up with the
/// value of its last entry in `items`, whatever `m` held before, and every
/// other key keeps exactly what `m` held.
pub proof fn lemma_insert_all<K: TableKey, V>(m: Map<K::Id, V>, items: Seq<(K, V)>)
    ensures
        forall|i: int|
            0 <= i < items.len() && (forall|j: int|
                i < j < items.len() ==> items[j].0.id() != #[trigger] items[i].0.id())
                ==> insert_all(m, items).contains_key(items[i].0.id()) && insert_all(
                m,
                items,
            )[items[i].0.id()] == items[i].1,
        forall|k: K::Id|
            (forall|i: int| 0 <= i < items.len() ==> #[trigger] items[i].0.id() != k) ==> (
            #[trigger] insert_all(m, items).contains_key(k) == m.contains_key(k) && (
            m.contains_key(k) ==> insert_all(m, items)[k] == m[k])),
    decreases items.len(),
{
    if items.len() > 0 {
        let p = items.drop_last();
        let n = items.len() - 1;
        lemma_insert_all(m, p);
        let last = items.last();
        assert forall|i: int|
            0 <= i < items.len() && (forall|j: int|
                i < j < items.len() ==> items[j].0.id() != #[trigger] items[i].0.id())
                implies insert_all(m, items).contains_key(items[i].0.id()) && insert_all(
            m,
            items,
        )[items[i].0.id()] == items[i].1 by {
            if i < n {
                assert(items[n].0.id() != items[i].0.id());
                assert(p[i] == items[i]);
                assert forall|j: int| i < j < p.len() implies p[j].0.id() != #[trigger] p[i].0.id() by {
                    assert(p[j] == items[j]);
                    assert(items[j].0.id() != items[i].0.id());
                }
            }
        }
        assert forall|k: K::Id|
            (forall|i: int| 0 <= i < items.len() ==> #[trigger] items[i].0.id() != k) implies (
            #[trigger] insert_all(m, items).contains_key(k) == m.contains_key(k) && (
            m.contains_key(k) ==> insert_all(m, items)[k] == m[k])) by {
            assert(items[n].0.id() != k);
            assert forall|i: int| 0 <= i < p.len() implies #[trigger] p[i].0.id() != k by {
                assert(p[i] == items[i]);
                assert(items[i].0.id() != k);
            }
            assert(insert_all(m, p).contains_key(k) == m.contains_key(k));
            assert(insert_all(m, items) == insert_all(m, p).insert(last.0.id(), last.1));
        }
    }
}

/// Entries keyed by `K`, at most one per key, in insertion order.
pub struct KeyedTable<K: TableKey, V> {
    entries: Vec<(K, V)>,
}

impl<K: TableKey, V> View for KeyedTable<K, V> {
    type V = Map<K::Id, V>;

    closed spec fn view(&self) -> Map<K::Id, V> {
        entries_map(self.entries@)
    }
}

impl<K: TableKey, V> KeyedTable<K, V> {
    /// The table's well-formedness: no key appears twice.
    pub closed spec fn wf(&self) -> bool {
        keys_distinct(self.entries@)
    }

    /// The entries in insertion order.
    pub closed spec fn entries(&self) -> Seq<(K, V)> {
        self.entries@
    }

    /// An empty table.
    pub fn new() -> (r: Self)
        ensures
            r.wf(),
            r@ == Map::<K::Id, V>::empty(),
            r.entries() == Seq::<(K, V)>::empty(),
    {
        KeyedTable { entries: Vec::new() }
    }

    /// The index of the entry with key `key`, if any.
    fn position(&self, key: &K) -> (r: Option<usize>)
        requires
            self.wf(),
        ensures
            match r {
                Some(i) => i < self.entries@.len() && self.entries@[i as int].0.id() == key.id(),
                None => forall|i: int|
                    0 <= i < self.entries@.len() ==> self.entries@[i].0.id() != key.id(),
            },
    {
        let mut i: usize = 0;
        while i < self.entries.len()
            invariant
                0 <= i <= self.entries@.len(),
                forall|j: int| 0 <= j < i ==> self.entries@[j].0.id() != key.id(),
            decreases self.entries@.len() - i,
        {
            if self.entries[i].0.same_key(key) {
                return Some(i);
            }
            i += 1;
        }
        None
    }

    /// Inserts `value` under `key`, replacing the value already there.
    pub fn insert(&mut self, key: K, value: V)
        requires
            old(self).wf(),
        ensures
            final(self).wf(),
            final(self)@ == old(self)@.insert(key.id(), value),
            !old(self)@.contains_key(key.id()) ==> final(self).entries()
                == old(self).entries().push((key, value)),
            old(self)@.contains_key(key.id()) ==> exists|i: int|
                0 <= i < old(self).entries().len() && old(self).entries()[i].0.id() == key.id()
                    && final(self).entries() == old(self).entries().update(i, (key, value)),
    {
        proof {
            lemma_entries_map(self.entries@);
        }
        match self.position(&key) {
            Some(i) => {
                let ghost s = self.entries@;
                let ghost e = (key, value);
                proof {
                    lemma_entries_map_update(s, i as int, e);
                }
                self.entries.set(i, (key, value));
                assert(self.entries@ == s.update(i as int, e));
                assert(old(self).entries()[i as int].0.id() == e.0.id());
            },
            None => {
                let ghost s = self.entries@;
                let ghost k = key.id();
                self.entries.push((key, value));
                assert(self.entries@.drop_last() =~= s);
                assert(keys_distinct(self.entries@)) by {
                    assert forall|a: int, b: int|
                        0 <= a < b < self.entries@.len() implies self.entries@[a].0.id()
                        != self.entries@[b].0.id() by {
                        if b == s.len() {
                            assert(self.entries@[a] == s[a]);
                        } else {
                            assert(self.entries@[a] == s[a]);
                            assert(self.entries@[b] == s[b]);
                        }
                    }
                }
            },
        }
    }

    /// Inserts each of `items` in order.
    pub fn insert_many(&mut self, items: Vec<(K, V)>)
        requires
            old(self).wf(),
        ensures
            final(self).wf(),
            final(self)@ == insert_all(old(self)@, items@),
    {
        let ghost all = items@;
        let ghost start = self@;
        assert(all.take(0) =~= Seq::<(K, V)>::empty());
        for item in it: items.into_iter()
            invariant
                self.wf(),
                it.seq() == all,
                self@ == insert_all(start, all.take(it.index() as int)),
        {
            let ghost i = it.index();
            assert(all.take(i + 1).drop_last() =~= all.take(i as int));
            let (k, v) = item;
            self.insert(k, v);
        }
        assert(all.take(all.len() as int) =~= all);
    }

    /// Removes the entry with key `key`, if any.
    pub fn remove(&mut self, key: &K)
        requires
            old(self).wf(),
        ensures
            final(self).wf(),
            final(self)@ == old(self)@.remove(key.id()),
            !old(self)@.contains_key(key.id()) ==> final(self).entries() == old(self).entries(),
            old(self)@.contains_key(key.id()) ==> exists|i: int|
                0 <= i < old(self).entries().len() && old(self).entries()[i].0.id() == key.id()
                    && final(self).entries() == old(self).entries().remove(i),
    {
        proof {
            lemma_entries_map(self.entries@);
        }
        match self.position(key) {
            Some(i) => {
                let ghost s = self.entries@;
                proof {
                    lemma_entries_map_remove(s, i as int);
                }
                self.entries.remove(i);
                assert(self.entries@ == s.remove(i as int));
                assert(old(self).entries()[i as int].0.id() == key.id());
            },
            None => {
                assert(self@ =~= self@.remove(key.id()));
            },
        }
    }

    /// The value stored under `key`, if any.
    pub fn get(&self, key: &K) -> (r: Option<&V>)
        requires
            self.wf(),
        ensures
            match r {
                Some(v) => self@.contains_key(key.id()) && *v == self@[key.id()],
                None => !self@.contains_key(key.id()),
            },
    {
        proof {
            lemma_entries_map(self.entries@);
        }
        match self.position(key) {
            Some(i) => Some(&self.entries[i].1),
            None => None,
        }
    }

    /// Whether an entry has key `key`.
    pub fn contains(&self, key: &K) -> (b: bool)
        requires
            self.wf(),
        ensures
            b == self@.contains_key(key.id()),
    {
        self.get(key).is_some()
    }

    /// The number of entries.
    pub fn len(&self) -> (n: usize)
        requires
            self.wf(),
        ensures
            n == self.entries().len(),
            n == self@.dom().len(),
    {
        proof {
            lemma_entries_map(self.entries@);
        }
        self.entries.len()
    }

    /// The entry at position `i` in insertion order.
    pub fn entry_at(&self, i: usize) -> (r: (&K, &V))
        requires
            self.wf(),
            i < self.entries().len(),
        ensures
            (*r.0, *r.1) == self.entries()[i as int],
            self@.contains_key(r.0.id()),
            self@[r.0.id()] == *r.1,
    {
        proof {
            lemma_entries_map(self.entries@);
        }
        let e = &self.entries[i];
        (&e.0, &e.1)
    }
}

/// A well-formed table's entries have distinct keys and denote its map.
pub proof fn lemma_table_entries<K: TableKey, V>(t: &KeyedTable<K, V>)
    requires
        t.wf(),
    ensures
        keys_distinct(t.entries()),
        t@ == entries_map(t.entries()),
{
}

/// A lookup after an insertion under the same key finds the inserted value;
/// other keys are untouched.
pub proof fn lemma_get_after_insert<K: TableKey, V>(
    before: Map<K::Id, V>,
    after: Map<K::Id, V>,
    key: K::Id,
    value: V,
    other: K::Id,
)
    requires
        after == before.insert(key, value),
        other != key,
    ensures
        after.contains_key(key) && after[key] == value,
        after.contains_key(other) == before.contains_key(other),
        before.contains_key(other) ==> after[other] == before[other],
{
}

} // verus!
