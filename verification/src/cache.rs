//! The per-domain local cache and the change events that mutate it.
//!
//! Each metadata domain owns one `LocalCache`: an in-memory mapping from
//! a domain-specific key to its current record. Two writers mutate it:
//! the domain's snapshot loader installs a one-shot baseline, and the
//! domain's change watcher applies incremental `ChangeEvent`s in delivery
//! order. Because every watcher is subscribed before any snapshot read
//! begins, an event delivered during the snapshot window is applied on
//! top of the baseline, never silently overwritten by it; the
//! no-lost-update law at the bottom of this file makes that precise.

use vstd::prelude::*;

verus! {

/// The mutation a change event carries: a `Put` overwrites (or inserts),
/// a `Delete` removes. Both are idempotent against the snapshot: a
/// `Delete` for a key never snapshotted is a no-op, and a `Put` for a key
/// already present overwrites.
pub enum EventOp<V> {
    Put(V),
    Delete,
}

/// One incremental update delivered on a domain's watch stream.
pub struct ChangeEvent<V> {
    pub key: u64,
    pub op: EventOp<V>,
}

/// The effect of one change event on the abstract cache contents.
pub open spec fn apply_one<V: View>(m: Map<u64, V::V>, e: ChangeEvent<V>) -> Map<u64, V::V> {
    match e.op {
        EventOp::Put(v) => m.insert(e.key, v@),
        EventOp::Delete => m.remove(e.key),
    }
}

/// The effect of a sequence of change events, applied in delivery order.
pub open spec fn apply_all<V: View>(m: Map<u64, V::V>, s: Seq<ChangeEvent<V>>) -> Map<u64, V::V>
    decreases s.len(),
{
    if s.len() == 0 {
        m
    } else {
        apply_all(apply_one(m, s[0]), s.skip(1))
    }
}

/// The effect of installing a snapshot: every listed entry is inserted
/// (overwriting an existing one), and no entry outside the snapshot is
/// removed.
pub open spec fn install_all<V: View>(m: Map<u64, V::V>, s: Seq<(u64, V)>) -> Map<u64, V::V>
    decreases s.len(),
{
    if s.len() == 0 {
        m
    } else {
        install_all(m.insert(s[0].0, s[0].1@), s.skip(1))
    }
}

/// In-memory mapping from a domain-specific key to its current record,
/// owned by one domain's watcher/loader pair and read by the rest of the
/// process.
pub struct LocalCache<V> {
    entries: Vec<(u64, V)>,
}

/// The abstract contents of an association list, later entries shadowing
/// earlier ones (the cache keeps keys unique, so nothing is shadowed).
spec fn map_of<V: View>(s: Seq<(u64, V)>) -> Map<u64, V::V>
    decreases s.len(),
{
    if s.len() == 0 {
        Map::empty()
    } else {
        map_of(s.drop_last()).insert(s.last().0, s.last().1@)
    }
}

/// A key is in `map_of(s)` exactly when some entry of `s` carries it.
proof fn lemma_map_of_contains<V: View>(s: Seq<(u64, V)>, k: u64)
    ensures
        map_of(s).contains_key(k) <==> exists|i: int| 0 <= i < s.len() && s[i].0 == k,
    decreases s.len(),
{
    if s.len() > 0 {
        lemma_map_of_contains(s.drop_last(), k);
        if map_of(s).contains_key(k) {
            if s.last().0 == k {
                assert(s[s.len() - 1].0 == k);
            } else {
                let i = choose|i: int| 0 <= i < s.drop_last().len() && s.drop_last()[i].0 == k;
                assert(s[i].0 == k);
            }
        }
        if exists|i: int| 0 <= i < s.len() && s[i].0 == k {
            let i = choose|i: int| 0 <= i < s.len() && s[i].0 == k;
            if i < s.len() - 1 {
                assert(s.drop_last()[i].0 == k);
            }
        }
    }
}

/// No two entries carry the same key.
spec fn unique_keys<V>(s: Seq<(u64, V)>) -> bool {
    forall|i: int, j: int| 0 <= i < j < s.len() ==> s[i].0 != s[j].0
}

/// Under unique keys, the entry that carries `k` gives `map_of`'s value.
proof fn lemma_map_of_index<V: View>(s: Seq<(u64, V)>, i: int)
    requires
        unique_keys(s),
        0 <= i < s.len(),
    ensures
        map_of(s).contains_key(s[i].0),
        map_of(s)[s[i].0] == s[i].1@,
    decreases s.len(),
{
    lemma_map_of_contains(s, s[i].0);
    if i < s.len() - 1 {
        assert(s.drop_last()[i] == s[i]);
        lemma_map_of_index(s.drop_last(), i);
        assert(s.last().0 != s[i].0);
    }
}

/// Removing the entry at `i` removes exactly its key from the contents.
proof fn lemma_map_of_remove<V: View>(s: Seq<(u64, V)>, i: int)
    requires
        unique_keys(s),
        0 <= i < s.len(),
    ensures
        map_of(s.remove(i)) == map_of(s).remove(s[i].0),
    decreases s.len(),
{
    let k = s[i].0;
    s.remove_ensures(i);
    if i == s.len() - 1 {
        assert(s.remove(i) =~= s.drop_last());
        lemma_map_of_contains(s.drop_last(), k);
        assert(!map_of(s.drop_last()).contains_key(k));
        assert(map_of(s).remove(k) =~= map_of(s.drop_last()));
    } else {
        assert(s.remove(i).drop_last() =~= s.drop_last().remove(i));
        assert(s.remove(i).last() == s.last());
        lemma_map_of_remove(s.drop_last(), i);
        assert(s.drop_last()[i] == s[i]);
        assert(map_of(s.remove(i)) == map_of(s.drop_last()).remove(k).insert(
            s.last().0,
            s.last().1@,
        ));
        assert(s.last().0 != k);
        assert(map_of(s.drop_last()).remove(k).insert(s.last().0, s.last().1@)
            =~= map_of(s.drop_last()).insert(s.last().0, s.last().1@).remove(k));
    }
}

impl<V: View> LocalCache<V> {
    /// The abstract contents: key to current record.
    pub closed spec fn view(&self) -> Map<u64, V::V> {
        map_of(self.entries@)
    }

    /// Structural invariant: each key appears at most once.
    pub closed spec fn wf(&self) -> bool {
        unique_keys(self.entries@)
    }

    /// An empty cache.
    pub fn new() -> (c: Self)
        ensures
            c.wf(),
            c@ == Map::<u64, V::V>::empty(),
    {
        LocalCache { entries: Vec::new() }
    }

    /// Index of the entry carrying `key`, if any.
    fn find(&self, key: u64) -> (r: Option<usize>)
        ensures
            match r {
                Some(i) => i < self.entries@.len() && self.entries@[i as int].0 == key,
                None => forall|i: int| 0 <= i < self.entries@.len() ==> self.entries@[i].0 != key,
            },
    {
        let mut i: usize = 0;
        while i < self.entries.len()
            invariant
                i <= self.entries@.len(),
                forall|j: int| 0 <= j < i ==> self.entries@[j].0 != key,
            decreases self.entries@.len() - i,
        {
            if self.entries[i].0 == key {
                return Some(i);
            }
            i = i + 1;
        }
        None
    }

    /// Whether the cache currently holds `key`.
    pub fn contains(&self, key: u64) -> (r: bool)
        ensures
            r == self@.contains_key(key),
    {
        proof {
            lemma_map_of_contains(self.entries@, key);
        }
        self.find(key).is_some()
    }

    /// The current record under `key`, if any.
    pub fn get(&self, key: u64) -> (r: Option<&V>)
        requires
            self.wf(),
        ensures
            r.is_some() <==> self@.contains_key(key),
            r matches Some(v) ==> self@[key] == v@,
    {
        proof {
            lemma_map_of_contains(self.entries@, key);
        }
        match self.find(key) {
            Some(i) => {
                proof {
                    lemma_map_of_index(self.entries@, i as int);
                }
                Some(&self.entries[i].1)
            },
            None => None,
        }
    }

    /// Number of keys currently cached.
    pub fn len(&self) -> (n: usize)
        requires
            self.wf(),
        ensures
            n == self@.dom().len(),
    {
        proof {
            lemma_map_of_len(self.entries@);
        }
        self.entries.len()
    }

    /// Applies a `Delete`: removes `key`; a no-op when `key` is absent.
    pub fn delete(&mut self, key: u64)
        requires
            old(self).wf(),
        ensures
            final(self).wf(),
            final(self)@ == old(self)@.remove(key),
    {
        proof {
            lemma_map_of_contains(self.entries@, key);
        }
        match self.find(key) {
            Some(i) => {
                proof {
                    lemma_map_of_remove(self.entries@, i as int);
                    self.entries@.remove_ensures(i as int);
                }
                let _ = self.entries.remove(i);
            },
            None => {
                proof {
                    assert(old(self)@.remove(key) =~= old(self)@);
                }
            },
        }
    }

    /// Applies a `Put`: inserts `value` under `key`, overwriting any
    /// record already there.
    pub fn put(&mut self, key: u64, value: V)
        requires
            old(self).wf(),
        ensures
            final(self).wf(),
            final(self)@ == old(self)@.insert(key, value@),
    {
        self.delete(key);
        let ghost pre = self.entries@;
        self.entries.push((key, value));
        proof {
            assert(self.entries@.drop_last() =~= pre);
            assert(forall|i: int| 0 <= i < pre.len() ==> pre[i].0 != key) by {
                lemma_map_of_contains(pre, key);
            }
            assert(final(self)@ =~= old(self)@.insert(key, value@));
        }
    }

    /// Applies one change event in delivery order.
    pub fn apply_event(&mut self, event: ChangeEvent<V>)
        requires
            old(self).wf(),
        ensures
            final(self).wf(),
            final(self)@ == apply_one(old(self)@, event),
    {
        let ChangeEvent { key, op } = event;
        match op {
            EventOp::Put(v) => self.put(key, v),
            EventOp::Delete => self.delete(key),
        }
    }

    /// Applies a batch of change events in delivery order.
    pub fn apply_events(&mut self, events: Vec<ChangeEvent<V>>)
        requires
            old(self).wf(),
        ensures
            final(self).wf(),
            final(self)@ == apply_all(old(self)@, events@),
    {
        let mut rest = events;
        while rest.len() > 0
            invariant
                self.wf(),
                apply_all(self@, rest@) == apply_all(old(self)@, events@),
            decreases rest@.len(),
        {
            let ghost pre = rest@;
            let e = rest.remove(0);
            proof {
                assert(pre.remove(0) =~= pre.skip(1));
            }
            self.apply_event(e);
        }
    }

    /// Installs a snapshot baseline: every listed entry is inserted or
    /// overwritten; entries the snapshot does not mention are kept, since
    /// removals are driven only by explicit `Delete` events.
    pub fn install_snapshot(&mut self, snapshot: Vec<(u64, V)>)
        requires
            old(self).wf(),
        ensures
            final(self).wf(),
            final(self)@ == install_all(old(self)@, snapshot@),
    {
        let mut rest = snapshot;
        while rest.len() > 0
            invariant
                self.wf(),
                install_all(self@, rest@) == install_all(old(self)@, snapshot@),
            decreases rest@.len(),
        {
            let ghost pre = rest@;
            let (key, value) = rest.remove(0);
            proof {
                assert(pre.remove(0) =~= pre.skip(1));
            }
            self.put(key, value);
        }
    }
}

/// The cache holds as many keys as it has entries.
proof fn lemma_map_of_len<V: View>(s: Seq<(u64, V)>)
    requires
        unique_keys(s),
    ensures
        map_of(s).dom().len() == s.len(),
        map_of(s).dom().finite(),
    decreases s.len(),
{
    if s.len() > 0 {
        lemma_map_of_len(s.drop_last());
        lemma_map_of_contains(s.drop_last(), s.last().0);
        assert(!map_of(s.drop_last()).contains_key(s.last().0));
        assert(map_of(s).dom() =~= map_of(s.drop_last()).dom().insert(s.last().0));
        vstd::set::axiom_set_insert_len(map_of(s.drop_last()).dom(), s.last().0);
    }
}

/// A key no event touches keeps its binding through `apply_all`.
proof fn lemma_apply_all_untouched<V: View>(m: Map<u64, V::V>, s: Seq<ChangeEvent<V>>, k: u64)
    requires
        forall|j: int| 0 <= j < s.len() ==> s[j].key != k,
    ensures
        apply_all(m, s).contains_key(k) <==> m.contains_key(k),
        apply_all(m, s).contains_key(k) ==> apply_all(m, s)[k] == m[k],
    decreases s.len(),
{
    if s.len() > 0 {
        lemma_apply_all_untouched(apply_one(m, s[0]), s.skip(1), k);
    }
}

/// No-lost-update law. For any change event delivered on a domain's watch
/// stream (hence at or after watcher-attach time), the cache reflects that
/// event's effect after the whole batch is applied — whatever baseline the
/// snapshot load installed, i.e. regardless of whether the snapshot read
/// started before, during, or after the event, and even if the event's key
/// also appears in the snapshot. `i` picks the last event for its key, the
/// one whose effect must survive.
pub proof fn lemma_no_lost_update<V: View>(base: Map<u64, V::V>, s: Seq<ChangeEvent<V>>, i: int)
    requires
        0 <= i < s.len(),
        forall|j: int| i < j < s.len() ==> s[j].key != s[i].key,
    ensures
        match s[i].op {
            EventOp::Put(v) => apply_all(base, s).contains_key(s[i].key) && apply_all(base, s)[s[i].key]
                == v@,
            EventOp::Delete => !apply_all(base, s).contains_key(s[i].key),
        },
    decreases s.len(),
{
    if i == 0 {
        assert(forall|j: int|
            0 <= j < s.skip(1).len() ==> #[trigger] s.skip(1)[j].key != s[0].key);
        lemma_apply_all_untouched(apply_one(base, s[0]), s.skip(1), s[0].key);
    } else {
        assert(s.skip(1)[i - 1] == s[i]);
        assert(forall|j: int|
            i - 1 < j < s.skip(1).len() ==> #[trigger] s.skip(1)[j].key != s.skip(1)[i - 1].key);
        lemma_no_lost_update(apply_one(base, s[0]), s.skip(1), i - 1);
    }
}

} // verus!
