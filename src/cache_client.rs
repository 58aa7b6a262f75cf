//! A key-addressed in-memory store with read, in-place update, write and
//! removal. It never evicts: an entry stays until it is removed.
use vstd::prelude::*;

verus! {

/// Keys that a store can tell apart: two keys name the same entry exactly
/// when their views are equal.
pub trait CacheKey: View + Sized {
    fn same_key(&self, other: &Self) -> (r: bool)
        ensures
            r == (self@ == other@),
    ;
}

impl CacheKey for String {
    fn same_key(&self, other: &Self) -> (r: bool) {
        *self == *other
    }
}

impl CacheKey for (String, String) {
    fn same_key(&self, other: &Self) -> (r: bool) {
        self.0 == other.0 && self.1 == other.1
    }
}

impl CacheKey for u64 {
    fn same_key(&self, other: &Self) -> (r: bool) {
        *self == *other
    }
}

/// A keyed store of values. Its contents are a map from key views to values:
/// at most one entry per key.
pub trait Cache<K: CacheKey, V>: Sized {
    /// What the store holds.
    spec fn entries(&self) -> Map<<K as View>::V, V>;

    /// The store's own invariant.
    spec fn well_formed(&self) -> bool;

    /// Whether every write to this store is bound to succeed.
    spec fn accepts_all_writes(&self) -> bool;

    /// Inserts `data` under `key`, replacing what was there. On failure the
    /// store is left as it was.
    fn write_key(&mut self, key: K, data: V) -> (r: Result<(), ()>)
        requires
            old(self).well_formed(),
        ensures
            final(self).well_formed(),
            final(self).accepts_all_writes() == old(self).accepts_all_writes(),
            old(self).accepts_all_writes() ==> r is Ok,
            r is Ok ==> final(self).entries() == old(self).entries().insert(key@, data),
            r is Err ==> final(self).entries() == old(self).entries(),
    ;

    /// The value under `key`, if any; the store is not changed.
    fn read_key(&self, key: &K) -> (r: Option<&V>)
        requires
            self.well_formed(),
        ensures
            match r {
                Some(v) => self.entries().contains_key(key@) && *v == self.entries()[key@],
                None => !self.entries().contains_key(key@),
            },
    ;

    /// The value under `key`, if any, to update in place.
    fn read_key_mut(&mut self, key: &K) -> (r: Option<&mut V>)
        requires
            old(self).well_formed(),
        ensures
            final(self).well_formed(),
            final(self).accepts_all_writes() == old(self).accepts_all_writes(),
            match r {
                Some(v) => {
                    &&& old(self).entries().contains_key(key@)
                    &&& *v == old(self).entries()[key@]
                    &&& final(self).entries() == old(self).entries().insert(key@, *final(v))
                },
                None => {
                    &&& !old(self).entries().contains_key(key@)
                    &&& final(self).entries() == old(self).entries()
                },
            },
    ;

    /// Removes the entry under `key` and hands back its value, if there was one.
    fn clear_key(&mut self, key: &K) -> (r: Option<V>)
        requires
            old(self).well_formed(),
        ensures
            final(self).well_formed(),
            final(self).accepts_all_writes() == old(self).accepts_all_writes(),
            r == (if old(self).entries().contains_key(key@) {
                Some(old(self).entries()[key@])
            } else {
                None::<V>
            }),
            final(self).entries() == old(self).entries().remove(key@),
    ;
}

/// The map that a list of entries with distinct keys stands for.
pub open spec fn map_of<K: View, V>(s: Seq<(K, V)>) -> Map<<K as View>::V, V> {
    Map::new(
        |k: <K as View>::V| exists|i: int| 0 <= i < s.len() && (#[trigger] s[i]).0@ == k,
        |k: <K as View>::V|
            s[choose|i: int| 0 <= i < s.len() && (#[trigger] s[i]).0@ == k].1,
    )
}

/// No two entries of `s` share a key.
pub open spec fn keys_distinct<K: View, V>(s: Seq<(K, V)>) -> bool {
    forall|i: int, j: int|
        0 <= i < s.len() && 0 <= j < s.len() && i != j ==> (#[trigger] s[i]).0@ != (#[trigger] s[j]).0@
}

proof fn lemma_map_of_index<K: View, V>(s: Seq<(K, V)>, i: int)
    requires
        keys_distinct(s),
        0 <= i < s.len(),
    ensures
        map_of(s).contains_key(s[i].0@),
        map_of(s)[s[i].0@] == s[i].1,
{
    let k = s[i].0@;
    assert(0 <= i < s.len() && s[i].0@ == k);
    let j = choose|j: int| 0 <= j < s.len() && (#[trigger] s[j]).0@ == k;
    assert(j == i);
}

proof fn lemma_map_of_absent<K: View, V>(s: Seq<(K, V)>, k: <K as View>::V)
    requires
        forall|i: int| 0 <= i < s.len() ==> (#[trigger] s[i]).0@ != k,
    ensures
        !map_of(s).contains_key(k),
{
}

/// A mutable borrow of the entry at position `i`.
fn vec_entry_mut<T>(v: &mut Vec<T>, i: usize) -> (r: &mut T)
    requires
        i < old(v)@.len(),
    ensures
        *r == old(v)@[i as int],
        final(v)@ == old(v)@.update(i as int, *final(r)),
{
    &mut v[i]
}

/// A mutable borrow of the second half of a pair.
fn pair_second_mut<A, B>(p: &mut (A, B)) -> (r: &mut B)
    ensures
        *r == old(p).1,
        *final(p) == (old(p).0, *final(r)),
{
    &mut p.1
}

proof fn lemma_map_of_update<K: View, V>(s: Seq<(K, V)>, i: int, val: V)
    requires
        keys_distinct(s),
        0 <= i < s.len(),
    ensures
        keys_distinct(s.update(i, (s[i].0, val))),
        map_of(s.update(i, (s[i].0, val))) == map_of(s).insert(s[i].0@, val),
{
    let t = s.update(i, (s[i].0, val));
    let k = s[i].0@;
    assert(keys_distinct(t)) by {
        assert forall|a: int, b: int|
            0 <= a < t.len() && 0 <= b < t.len() && a != b implies
            (#[trigger] t[a]).0@ != (#[trigger] t[b]).0@
        by {
            assert(t[a].0@ == s[a].0@);
            assert(t[b].0@ == s[b].0@);
        }
    }
    assert forall|q: <K as View>::V|
        #![auto]
        map_of(t).contains_key(q) == map_of(s).insert(k, val).contains_key(q)
    by {
        if map_of(t).contains_key(q) {
            let j = choose|j: int| 0 <= j < t.len() && (#[trigger] t[j]).0@ == q;
            assert(s[j].0@ == q);
        }
        if map_of(s).contains_key(q) {
            let j = choose|j: int| 0 <= j < s.len() && (#[trigger] s[j]).0@ == q;
            assert(t[j].0@ == q);
        }
        lemma_map_of_index(t, i);
    }
    assert forall|q: <K as View>::V|
        #![auto]
        map_of(t).contains_key(q) ==> map_of(t)[q] == map_of(s).insert(k, val)[q]
    by {
        if map_of(t).contains_key(q) {
            let j = choose|j: int| 0 <= j < t.len() && (#[trigger] t[j]).0@ == q;
            lemma_map_of_index(t, j);
            if j != i {
                lemma_map_of_index(s, j);
            }
        }
    }
    assert(map_of(t) =~= map_of(s).insert(k, val));
}

/// An unbounded store held in memory.
pub struct MemoryCache<K: CacheKey, V> {
    entries: Vec<(K, V)>,
}

impl<K: CacheKey, V> MemoryCache<K, V> {
    /// An empty store.
    pub fn new() -> (r: MemoryCache<K, V>)
        ensures
            r.well_formed(),
            r.accepts_all_writes(),
            r.entries() == Map::<<K as View>::V, V>::empty(),
    {
        let r = MemoryCache { entries: Vec::new() };
        assert(r.entries() =~= Map::<<K as View>::V, V>::empty());
        r
    }

    /// The position of the entry under `key`, if any.
    fn find(&self, key: &K) -> (r: Option<usize>)
        ensures
            match r {
                Some(i) => i < self.entries@.len() && self.entries@[i as int].0@ == key@,
                None => forall|j: int|
                    0 <= j < self.entries@.len() ==> (#[trigger] self.entries@[j]).0@ != key@,
            },
    {
        let mut i: usize = 0;
        while i < self.entries.len()
            invariant
                i <= self.entries@.len(),
                forall|j: int| 0 <= j < i ==> (#[trigger] self.entries@[j]).0@ != key@,
            decreases self.entries@.len() - i,
        {
            if self.entries[i].0.same_key(key) {
                return Some(i);
            }
            i = i + 1;
        }
        None
    }
}

impl<K: CacheKey, V> Cache<K, V> for MemoryCache<K, V> {
    closed spec fn entries(&self) -> Map<<K as View>::V, V> {
        map_of(self.entries@)
    }

    closed spec fn well_formed(&self) -> bool {
        keys_distinct(self.entries@)
    }

    open spec fn accepts_all_writes(&self) -> bool {
        true
    }

    fn write_key(&mut self, key: K, data: V) -> (r: Result<(), ()>) {
        let ghost before = self.entries@;
        let ghost k = key@;
        match self.find(&key) {
            Some(i) => {
                self.entries.set(i, (key, data));
                proof {
                    let after = self.entries@;
                    assert(keys_distinct(after));
                    assert forall|q: <K as View>::V|
                        #![auto]
                        map_of(after).contains_key(q) == map_of(before).insert(k, data).contains_key(q)
                    by {
                        if q != k && map_of(after).contains_key(q) {
                            let j = choose|j: int| 0 <= j < after.len() && (#[trigger] after[j]).0@ == q;
                            assert(before[j].0@ == q);
                        }
                        if q != k && map_of(before).contains_key(q) {
                            let j = choose|j: int| 0 <= j < before.len() && (#[trigger] before[j]).0@ == q;
                            assert(after[j].0@ == q);
                        }
                        if q == k {
                            lemma_map_of_index(after, i as int);
                        }
                    }
                    assert forall|q: <K as View>::V|
                        #![auto]
                        map_of(after).contains_key(q) ==> map_of(after)[q] == map_of(before).insert(k, data)[q]
                    by {
                        if map_of(after).contains_key(q) {
                            let j = choose|j: int| 0 <= j < after.len() && (#[trigger] after[j]).0@ == q;
                            lemma_map_of_index(after, j);
                            if j != i {
                                lemma_map_of_index(before, j);
                            }
                        }
                    }
                    assert(map_of(after) =~= map_of(before).insert(k, data));
                }
            },
            None => {
                self.entries.push((key, data));
                proof {
                    let after = self.entries@;
                    let n = before.len() as int;
                    assert(after[n].0@ == k);
                    assert(keys_distinct(after));
                    assert forall|q: <K as View>::V|
                        #![auto]
                        map_of(after).contains_key(q) == map_of(before).insert(k, data).contains_key(q)
                    by {
                        if q != k && map_of(after).contains_key(q) {
                            let j = choose|j: int| 0 <= j < after.len() && (#[trigger] after[j]).0@ == q;
                            assert(before[j].0@ == q);
                        }
                        if q != k && map_of(before).contains_key(q) {
                            let j = choose|j: int| 0 <= j < before.len() && (#[trigger] before[j]).0@ == q;
                            assert(after[j].0@ == q);
                        }
                        if q == k {
                            lemma_map_of_index(after, n);
                        }
                    }
                    assert forall|q: <K as View>::V|
                        #![auto]
                        map_of(after).contains_key(q) ==> map_of(after)[q] == map_of(before).insert(k, data)[q]
                    by {
                        if map_of(after).contains_key(q) {
                            let j = choose|j: int| 0 <= j < after.len() && (#[trigger] after[j]).0@ == q;
                            lemma_map_of_index(after, j);
                            if j != n {
                                lemma_map_of_index(before, j);
                            }
                        }
                    }
                    assert(map_of(after) =~= map_of(before).insert(k, data));
                }
            },
        }
        Ok(())
    }

    fn read_key(&self, key: &K) -> (r: Option<&V>) {
        match self.find(key) {
            Some(i) => {
                proof {
                    lemma_map_of_index(self.entries@, i as int);
                }
                Some(&self.entries[i].1)
            },
            None => {
                proof {
                    lemma_map_of_absent(self.entries@, key@);
                }
                None
            },
        }
    }

    fn read_key_mut(&mut self, key: &K) -> (r: Option<&mut V>) {
        match self.find(key) {
            Some(i) => {
                let ghost before = self.entries@;
                proof {
                    lemma_map_of_index(before, i as int);
                }
                let entry = vec_entry_mut(&mut self.entries, i);
                let v = pair_second_mut(entry);
                proof {
                    lemma_map_of_update(before, i as int, *final(v));
                }
                Some(v)
            },
            None => {
                proof {
                    lemma_map_of_absent(self.entries@, key@);
                }
                None
            },
        }
    }

    fn clear_key(&mut self, key: &K) -> (r: Option<V>) {
        let ghost before = self.entries@;
        let ghost k = key@;
        match self.find(key) {
            Some(i) => {
                proof {
                    lemma_map_of_index(before, i as int);
                }
                let (_, v) = self.entries.remove(i);
                proof {
                    let after = self.entries@;
                    assert(forall|j: int| 0 <= j < i ==> after[j] == before[j]);
                    assert(forall|j: int| i <= j < after.len() ==> after[j] == before[j + 1]);
                    assert(keys_distinct(after)) by {
                        assert forall|a: int, b: int|
                            0 <= a < after.len() && 0 <= b < after.len() && a != b implies
                            (#[trigger] after[a]).0@ != (#[trigger] after[b]).0@
                        by {
                            let a2 = if a < i { a } else { a + 1 };
                            let b2 = if b < i { b } else { b + 1 };
                            assert(after[a] == before[a2]);
                            assert(after[b] == before[b2]);
                        }
                    }
                    assert forall|q: <K as View>::V|
                        #![auto]
                        map_of(after).contains_key(q) == map_of(before).remove(k).contains_key(q)
                    by {
                        if map_of(after).contains_key(q) {
                            let j = choose|j: int| 0 <= j < after.len() && (#[trigger] after[j]).0@ == q;
                            let j2 = if j < i { j } else { j + 1 };
                            assert(after[j] == before[j2]);
                            assert(before[j2].0@ == q);
                        }
                        if q != k && map_of(before).contains_key(q) {
                            let j = choose|j: int| 0 <= j < before.len() && (#[trigger] before[j]).0@ == q;
                            assert(j != i);
                            let j2 = if j < i { j } else { j - 1 };
                            assert(after[j2] == before[j]);
                        }
                    }
                    assert forall|q: <K as View>::V|
                        #![auto]
                        map_of(after).contains_key(q) ==> map_of(after)[q] == map_of(before)[q]
                    by {
                        if map_of(after).contains_key(q) {
                            let j = choose|j: int| 0 <= j < after.len() && (#[trigger] after[j]).0@ == q;
                            let j2 = if j < i { j } else { j + 1 };
                            assert(after[j] == before[j2]);
                            lemma_map_of_index(after, j);
                            lemma_map_of_index(before, j2);
                        }
                    }
                    assert(map_of(after) =~= map_of(before).remove(k));
                }
                Some(v)
            },
            None => {
                proof {
                    lemma_map_of_absent(before, k);
                    assert(map_of(before).remove(k) =~= map_of(before));
                }
                None
            },
        }
    }
}

/// The contents of a store after `writes` were applied, in order, to one
/// that held `start`.
pub open spec fn after_writes<K: View, V>(
    start: Map<<K as View>::V, V>,
    writes: Seq<(K, V)>,
) -> Map<<K as View>::V, V>
    decreases writes.len(),
{
    if writes.len() == 0 {
        start
    } else {
        after_writes(start, writes.drop_last()).insert(writes.last().0@, writes.last().1)
    }
}

/// A key that no write has named reads as absent from a store that started
/// empty.
pub proof fn unwritten_key_reads_absent<K: View, V>(writes: Seq<(K, V)>, key: K)
    requires
        forall|i: int| 0 <= i < writes.len() ==> (#[trigger] writes[i]).0@ != key@,
    ensures
        !after_writes(Map::<<K as View>::V, V>::empty(), writes).contains_key(key@),
    decreases writes.len(),
{
    if writes.len() > 0 {
        let prefix = writes.drop_last();
        assert forall|i: int| 0 <= i < prefix.len() implies (#[trigger] prefix[i]).0@ != key@ by {
            assert(prefix[i] == writes[i]);
        }
        unwritten_key_reads_absent(prefix, key);
        assert(writes.last() == writes[writes.len() - 1]);
    }
}

/// A read after a write of `value` under `key` finds `value`.
pub proof fn read_after_write<K: View, V>(before: Map<<K as View>::V, V>, key: K, value: V)
    ensures
        before.insert(key@, value).contains_key(key@),
        before.insert(key@, value)[key@] == value,
{
}

/// Of two writes under one key the later one is what a read finds, and no
/// other key is affected.
pub proof fn last_write_wins<K: View, V>(
    before: Map<<K as View>::V, V>,
    key: K,
    first: V,
    second: V,
    other: K,
)
    ensures
        before.insert(key@, first).insert(key@, second)[key@] == second,
        other@ != key@ ==> (before.insert(key@, first).insert(key@, second).contains_key(other@)
            == before.contains_key(other@)),
        other@ != key@ && before.contains_key(other@) ==> before.insert(key@, first).insert(
            key@,
            second,
        )[other@] == before[other@],
{
}

/// Removing a key just written hands back the written value and leaves the
/// key absent; removing an absent key hands back nothing and changes nothing.
pub proof fn remove_after_write<K: View, V>(before: Map<<K as View>::V, V>, key: K, value: V)
    ensures
        before.insert(key@, value).contains_key(key@),
        before.insert(key@, value)[key@] == value,
        !before.insert(key@, value).remove(key@).contains_key(key@),
        !before.contains_key(key@) ==> before.remove(key@) == before,
{
    if !before.contains_key(key@) {
        assert(before.remove(key@) =~= before);
    }
}

} // verus!
