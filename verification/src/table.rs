//! Association tables: ordered key-value sequences with unique keys.
//!
//! One `ComponentTable` maps entities to the components of one type.
//! The same sequence shape (and the same spec vocabulary) also keys
//! the world's registry of tables by a type identifier.

use vstd::prelude::*;

verus! {

/// A key occurs somewhere in the sequence.
pub open spec fn kv_contains<K, V>(s: Seq<(K, V)>, k: K) -> bool {
    exists|i: int| 0 <= i < s.len() && s[i].0 == k
}

/// Index of the first entry with the given key.
pub open spec fn kv_first_index<K, V>(s: Seq<(K, V)>, k: K) -> int
    recommends
        kv_contains(s, k),
    decreases s.len(),
{
    if s.len() == 0 {
        0
    } else if s[0].0 == k {
        0
    } else {
        1 + kv_first_index(s.drop_first(), k)
    }
}

/// Value of the first entry with the given key.
pub open spec fn kv_get<K, V>(s: Seq<(K, V)>, k: K) -> V
    recommends
        kv_contains(s, k),
    decreases s.len(),
{
    if s.len() == 0 {
        arbitrary()
    } else if s[0].0 == k {
        s[0].1
    } else {
        kv_get(s.drop_first(), k)
    }
}

/// Insert or overwrite: an existing key keeps its place, a new key is
/// appended.
pub open spec fn kv_insert<K, V>(s: Seq<(K, V)>, k: K, v: V) -> Seq<(K, V)> {
    if kv_contains(s, k) {
        s.update(kv_first_index(s, k), (k, v))
    } else {
        s.push((k, v))
    }
}

/// Remove the entry with the given key, if any.
pub open spec fn kv_remove<K, V>(s: Seq<(K, V)>, k: K) -> Seq<(K, V)> {
    if kv_contains(s, k) {
        s.remove(kv_first_index(s, k))
    } else {
        s
    }
}

/// All keys are distinct.
pub open spec fn kv_wf<K, V>(s: Seq<(K, V)>) -> bool {
    forall|i: int, j: int| 0 <= i < j < s.len() ==> s[i].0 != s[j].0
}

/// A scan that stops at position `i` on key `k`, having passed only
/// other keys, has found the first occurrence: it fixes the index and
/// the value the spec functions denote.
pub proof fn lemma_kv_scan<K, V>(s: Seq<(K, V)>, k: K, i: int)
    requires
        0 <= i < s.len(),
        s[i].0 == k,
        forall|j: int| 0 <= j < i ==> s[j].0 != k,
    ensures
        kv_contains(s, k),
        kv_first_index(s, k) == i,
        kv_get(s, k) == s[i].1,
    decreases i,
{
    if i == 0 {
    } else {
        lemma_kv_scan(s.drop_first(), k, i - 1);
    }
}

/// Under unique keys, each position is the first (and only)
/// occurrence of its own key.
pub proof fn lemma_kv_scan_first<K, V>(s: Seq<(K, V)>, i: int)
    requires
        kv_wf(s),
        0 <= i < s.len(),
    ensures
        kv_contains(s, s[i].0),
        kv_first_index(s, s[i].0) == i,
        kv_get(s, s[i].0) == s[i].1,
{
    lemma_kv_scan(s, s[i].0, i);
}

/// A key that no entry carries is not contained.
pub proof fn lemma_kv_absent<K, V>(s: Seq<(K, V)>, k: K)
    requires
        forall|j: int| 0 <= j < s.len() ==> s[j].0 != k,
    ensures
        !kv_contains(s, k),
{
}

/// The first index of a contained key is a real position: it holds
/// the key, yields the denoted value, and nothing before it carries
/// the key.
pub proof fn lemma_kv_index_props<K, V>(s: Seq<(K, V)>, k: K)
    requires
        kv_contains(s, k),
    ensures
        ({
            let i = kv_first_index(s, k);
            &&& 0 <= i < s.len()
            &&& s[i].0 == k
            &&& kv_get(s, k) == s[i].1
            &&& forall|j: int| 0 <= j < i ==> s[j].0 != k
        }),
    decreases s.len(),
{
    if s.len() > 0 && s[0].0 != k {
        let w = choose|i: int| 0 <= i < s.len() && s[i].0 == k;
        assert(s.drop_first()[w - 1].0 == k);
        lemma_kv_index_props(s.drop_first(), k);
        let i = kv_first_index(s, k);
        assert(i == 1 + kv_first_index(s.drop_first(), k));
        assert(s[i] == s.drop_first()[i - 1]);
        assert forall|j: int| 0 <= j < i implies s[j].0 != k by {
            if j > 0 {
                assert(s.drop_first()[j - 1] == s[j]);
            }
        }
    }
}

/// What an insert does to every key: the inserted key now denotes the
/// new value, every other key is untouched, and uniqueness of keys is
/// kept.
pub proof fn lemma_kv_insert_frame<K, V>(s: Seq<(K, V)>, k: K, v: V)
    requires
        kv_wf(s),
    ensures
        kv_wf(kv_insert(s, k, v)),
        kv_contains(kv_insert(s, k, v), k),
        kv_get(kv_insert(s, k, v), k) == v,
        forall|t: K|
            t != k ==> #[trigger] kv_contains(kv_insert(s, k, v), t) == kv_contains(s, t),
        forall|t: K|
            t != k && kv_contains(s, t) ==> #[trigger] kv_get(kv_insert(s, k, v), t) == kv_get(
                s,
                t,
            ),
{
    let r = kv_insert(s, k, v);
    if kv_contains(s, k) {
        let i0 = kv_first_index(s, k);
        lemma_kv_index_props(s, k);
        assert(forall|j: int| 0 <= j < r.len() ==> #[trigger] r[j].0 == s[j].0);
        lemma_kv_scan(r, k, i0);
    } else {
        let n = s.len() as int;
        assert(forall|j: int| 0 <= j < n ==> #[trigger] r[j].0 == s[j].0);
        lemma_kv_scan(r, k, n);
    }
    assert forall|t: K| t != k implies #[trigger] kv_contains(r, t) == kv_contains(s, t) by {
        if kv_contains(s, t) {
            let idx = kv_first_index(s, t);
            lemma_kv_index_props(s, t);
            lemma_kv_scan(r, t, idx);
        } else {
            lemma_kv_absent(r, t);
        }
    }
    assert forall|t: K| t != k && kv_contains(s, t) implies #[trigger] kv_get(r, t) == kv_get(
        s,
        t,
    ) by {
        let idx = kv_first_index(s, t);
        lemma_kv_index_props(s, t);
        lemma_kv_scan(r, t, idx);
        if kv_contains(s, k) {
            assert(r[idx] == s[idx]);
        } else {
            assert(r[idx] == s[idx]);
        }
    }
}

/// Removing a key from a table with unique keys leaves no entry for
/// it, and every other key keeps its value.
pub proof fn lemma_kv_remove_frame<K, V>(s: Seq<(K, V)>, k: K)
    requires
        kv_wf(s),
    ensures
        kv_wf(kv_remove(s, k)),
        !kv_contains(kv_remove(s, k), k),
        forall|t: K|
            t != k ==> #[trigger] kv_contains(kv_remove(s, k), t) == kv_contains(s, t),
        forall|t: K|
            t != k && kv_contains(s, t) ==> #[trigger] kv_get(kv_remove(s, k), t) == kv_get(s, t),
{
    let r = kv_remove(s, k);
    if kv_contains(s, k) {
        let i0 = kv_first_index(s, k);
        lemma_kv_index_props(s, k);
        assert forall|j: int| 0 <= j < r.len() implies (#[trigger] r[j]).0 != k by {
            if j < i0 {
                assert(r[j] == s[j]);
            } else {
                assert(r[j] == s[j + 1]);
            }
        }
        lemma_kv_absent(r, k);
        assert forall|t: K| t != k implies #[trigger] kv_contains(r, t) == kv_contains(s, t) by {
            lemma_kv_remove_frame_one(s, k, t);
        }
        assert forall|t: K| t != k && kv_contains(s, t) implies #[trigger] kv_get(r, t) == kv_get(
            s,
            t,
        ) by {
            lemma_kv_remove_frame_one(s, k, t);
        }
    }
}

/// One key's view of a removal.
proof fn lemma_kv_remove_frame_one<K, V>(s: Seq<(K, V)>, k: K, t: K)
    requires
        kv_wf(s),
        kv_contains(s, k),
        t != k,
    ensures
        kv_contains(kv_remove(s, k), t) == kv_contains(s, t),
        kv_contains(s, t) ==> kv_get(kv_remove(s, k), t) == kv_get(s, t),
{
    let r = kv_remove(s, k);
    let i0 = kv_first_index(s, k);
    lemma_kv_index_props(s, k);
    if kv_contains(s, t) {
        let it = kv_first_index(s, t);
        lemma_kv_index_props(s, t);
        if it < i0 {
            assert(r[it] == s[it]);
            assert forall|j: int| 0 <= j < it implies (#[trigger] r[j]).0 != t by {
                assert(r[j] == s[j]);
            }
            lemma_kv_scan(r, t, it);
        } else {
            assert(it != i0);
            assert(r[it - 1] == s[it]);
            assert forall|j: int| 0 <= j < it - 1 implies (#[trigger] r[j]).0 != t by {
                if j < i0 {
                    assert(r[j] == s[j]);
                } else {
                    assert(r[j] == s[j + 1]);
                }
            }
            lemma_kv_scan(r, t, it - 1);
        }
    } else {
        assert forall|j: int| 0 <= j < r.len() implies (#[trigger] r[j]).0 != t by {
            if j < i0 {
                assert(r[j] == s[j]);
            } else {
                assert(r[j] == s[j + 1]);
            }
        }
        lemma_kv_absent(r, t);
    }
}

/// A table of components of one type, keyed by entity. Entries keep
/// their insertion order; every key occurs at most once.
pub struct ComponentTable<C> {
    pub entries: Vec<(usize, C)>,
}

impl<C> View for ComponentTable<C> {
    type V = Seq<(usize, C)>;

    open spec fn view(&self) -> Seq<(usize, C)> {
        self.entries@
    }
}

impl<C> ComponentTable<C> {
    /// Unique keys.
    pub open spec fn wf(&self) -> bool {
        kv_wf(self@)
    }

    /// An empty table.
    pub fn new() -> (r: ComponentTable<C>)
        ensures
            r@ == Seq::<(usize, C)>::empty(),
            r.wf(),
    {
        ComponentTable { entries: Vec::new() }
    }

    /// Number of entries.
    pub fn len(&self) -> (r: usize)
        ensures
            r == self@.len(),
    {
        self.entries.len()
    }

    /// The key of the entry at a position.
    pub fn entity_at(&self, i: usize) -> (r: usize)
        requires
            i < self@.len(),
        ensures
            r == self@[i as int].0,
    {
        self.entries[i].0
    }

    /// The value of the entry at a position.
    pub fn value_at(&self, i: usize) -> (r: &C)
        requires
            i < self@.len(),
        ensures
            *r == self@[i as int].1,
    {
        &self.entries[i].1
    }

    /// Insert a component for an entity, overwriting any previous one.
    pub fn insert(&mut self, entity: usize, component: C)
        requires
            old(self).wf(),
        ensures
            final(self)@ == kv_insert(old(self)@, entity, component),
            final(self).wf(),
            kv_contains(final(self)@, entity),
    {
        let n = self.entries.len();
        let mut i: usize = 0;
        while i < n
            invariant
                self@ == old(self)@,
                old(self).wf(),
                n == self@.len(),
                i <= n,
                forall|j: int| 0 <= j < i ==> self@[j].0 != entity,
            decreases n - i,
        {
            if self.entries[i].0 == entity {
                proof {
                    lemma_kv_scan(self@, entity, i as int);
                }
                self.entries[i] = (entity, component);
                proof {
                    assert(self@ =~= kv_insert(old(self)@, entity, component));
                    lemma_kv_scan(self@, entity, i as int);
                }
                return ;
            }
            i += 1;
        }
        proof {
            lemma_kv_absent(self@, entity);
        }
        self.entries.push((entity, component));
        proof {
            lemma_kv_scan(self@, entity, old(self)@.len() as int);
        }
    }

    /// Drop the entry for an entity; absent entities are a no-op.
    pub fn remove(&mut self, entity: usize)
        requires
            old(self).wf(),
        ensures
            final(self)@ == kv_remove(old(self)@, entity),
            final(self).wf(),
            !kv_contains(final(self)@, entity),
    {
        let n = self.entries.len();
        let mut i: usize = 0;
        while i < n
            invariant
                self@ == old(self)@,
                old(self).wf(),
                n == self@.len(),
                i <= n,
                forall|j: int| 0 <= j < i ==> self@[j].0 != entity,
            decreases n - i,
        {
            if self.entries[i].0 == entity {
                proof {
                    lemma_kv_scan(self@, entity, i as int);
                }
                self.entries.remove(i);
                proof {
                    assert(!kv_contains(self@, entity)) by {
                        assert forall|j: int| 0 <= j < self@.len() implies self@[j].0 != entity by {
                            if j >= i {
                                assert(self@[j] == old(self)@[j + 1]);
                            }
                        }
                    }
                }
                return ;
            }
            i += 1;
        }
        proof {
            lemma_kv_absent(self@, entity);
        }
    }

    /// Look up the component of an entity.
    pub fn get(&self, entity: usize) -> (r: Option<&C>)
        requires
            self.wf(),
        ensures
            match r {
                Some(c) => kv_contains(self@, entity) && *c == kv_get(self@, entity),
                None => !kv_contains(self@, entity),
            },
    {
        let n = self.entries.len();
        let mut i: usize = 0;
        while i < n
            invariant
                n == self@.len(),
                i <= n,
                forall|j: int| 0 <= j < i ==> self@[j].0 != entity,
            decreases n - i,
        {
            if self.entries[i].0 == entity {
                proof {
                    lemma_kv_scan(self@, entity, i as int);
                }
                return Some(&self.entries[i].1);
            }
            i += 1;
        }
        proof {
            lemma_kv_absent(self@, entity);
        }
        None
    }

    /// All entities in the table, in table order.
    pub fn entities(&self) -> (r: Vec<usize>)
        ensures
            r@.len() == self@.len(),
            forall|i: int| 0 <= i < r@.len() ==> r@[i] == self@[i].0,
    {
        let n = self.entries.len();
        let mut r: Vec<usize> = Vec::new();
        let mut i: usize = 0;
        while i < n
            invariant
                n == self@.len(),
                i <= n,
                r@.len() == i,
                forall|j: int| 0 <= j < i ==> r@[j] == self@[j].0,
            decreases n - i,
        {
            r.push(self.entries[i].0);
            i += 1;
        }
        r
    }
}

} // verus!
