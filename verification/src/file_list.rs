//! The storage-segment inventory cache, in two views: the local ledger
//! seeded from this node's persisted records, and the cluster-wide remote
//! view. Unlike the watch-driven metadata caches, the file list is
//! mutated directly by the ingestion and compaction subsystems through
//! `record` and `remove`, under a last-writer-wins policy per segment id;
//! a periodic full reconciliation against the authoritative list is the
//! backstop that heals any divergence (e.g. after a crash mid-write).

use vstd::prelude::*;
use crate::cache::LocalCache;
use crate::cache::install_all;

verus! {

/// One storage segment: where it lives, how large it is, which time
/// range and which tenant stream it covers. Identified by `id`.
#[derive(Clone, Copy, PartialEq, Eq, Structural, Debug)]
pub struct FileListEntry {
    pub id: u64,
    pub location: u64,
    pub size: u64,
    pub min_ts: u64,
    pub max_ts: u64,
    pub stream: u64,
}

impl View for FileListEntry {
    type V = FileListEntry;

    open spec fn view(&self) -> FileListEntry {
        *self
    }
}

/// The segment entries keyed by their id, as a snapshot or an
/// authoritative list hands them over.
pub open spec fn keyed_by_id(s: Seq<FileListEntry>) -> Seq<(u64, FileListEntry)> {
    s.map_values(|e: FileListEntry| (e.id, e))
}

/// An in-memory segment inventory (one instance for the local ledger,
/// one for the remote view), mapping segment id to its entry.
pub struct FileListCache {
    entries: LocalCache<FileListEntry>,
}

impl FileListCache {
    /// The abstract inventory: segment id to entry.
    pub closed spec fn view(&self) -> Map<u64, FileListEntry> {
        self.entries@
    }

    /// Structural invariant of the underlying cache.
    pub closed spec fn wf(&self) -> bool {
        self.entries.wf()
    }

    /// An empty inventory.
    pub fn new() -> (c: Self)
        ensures
            c.wf(),
            c@ == Map::<u64, FileListEntry>::empty(),
    {
        FileListCache { entries: LocalCache::new() }
    }

    /// Installs the one-shot baseline (persisted local records, or a full
    /// remote read): every listed segment is inserted or overwritten,
    /// segments not mentioned are kept.
    pub fn install_baseline(&mut self, baseline: Vec<FileListEntry>)
        requires
            old(self).wf(),
        ensures
            final(self).wf(),
            final(self)@ == install_all(old(self)@, keyed_by_id(baseline@)),
    {
        let mut keyed: Vec<(u64, FileListEntry)> = Vec::new();
        let mut i: usize = 0;
        while i < baseline.len()
            invariant
                i <= baseline@.len(),
                keyed@ == keyed_by_id(baseline@.take(i as int)),
            decreases baseline@.len() - i,
        {
            keyed.push((baseline[i].id, baseline[i]));
            proof {
                assert(baseline@.take(i + 1).drop_last() =~= baseline@.take(i as int));
                assert(keyed@ =~= keyed_by_id(baseline@.take(i + 1)));
            }
            i = i + 1;
        }
        proof {
            assert(baseline@.take(baseline@.len() as int) =~= baseline@);
        }
        self.entries.install_snapshot(keyed);
    }

    /// Records a segment, overwriting any entry with the same id
    /// (last writer wins per segment id).
    pub fn record(&mut self, entry: FileListEntry)
        requires
            old(self).wf(),
        ensures
            final(self).wf(),
            final(self)@ == old(self)@.insert(entry.id, entry),
    {
        self.entries.put(entry.id, entry);
    }

    /// Removes a segment by id (compaction-driven removal); a no-op when
    /// the id is unknown.
    pub fn remove(&mut self, id: u64)
        requires
            old(self).wf(),
        ensures
            final(self).wf(),
            final(self)@ == old(self)@.remove(id),
    {
        self.entries.delete(id);
    }

    /// Full reconciliation against the authoritative list: the in-memory
    /// view is replaced outright, healing any divergence accumulated
    /// since the last reconciliation.
    pub fn reconcile(&mut self, authoritative: Vec<FileListEntry>)
        requires
            old(self).wf(),
        ensures
            final(self).wf(),
            final(self)@ == install_all(
                Map::<u64, FileListEntry>::empty(),
                keyed_by_id(authoritative@),
            ),
    {
        let mut fresh = FileListCache::new();
        fresh.install_baseline(authoritative);
        *self = fresh;
    }

    /// Whether a segment with this id is currently listed.
    pub fn contains(&self, id: u64) -> (r: bool)
        ensures
            r == self@.contains_key(id),
    {
        self.entries.contains(id)
    }

    /// The listed entry for a segment id, if any.
    pub fn get(&self, id: u64) -> (r: Option<&FileListEntry>)
        requires
            self.wf(),
        ensures
            r.is_some() <==> self@.contains_key(id),
            r matches Some(e) ==> self@[id] == *e,
    {
        self.entries.get(id)
    }

    /// Number of segments currently listed.
    pub fn len(&self) -> (n: usize)
        requires
            self.wf(),
        ensures
            n == self@.dom().len(),
    {
        self.entries.len()
    }
}
} // verus!
