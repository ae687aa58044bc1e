//! The leader-assignment cache: a read-only local shadow of the single
//! cluster-wide value naming which node currently holds a singleton duty
//! (the remote-write writer). The shadow is installed once by the
//! snapshot load and then kept current by assignment events; subsystems
//! gated on leadership consult it at the point of action, so a failover
//! is observed as soon as its event is delivered.

use vstd::prelude::*;

verus! {

/// The leader value after a batch of assignment events: the last
/// delivered assignment wins; with no event the baseline stands.
pub open spec fn last_assignment(baseline: Option<u64>, events: Seq<u64>) -> Option<u64> {
    if events.len() == 0 {
        baseline
    } else {
        Some(events.last())
    }
}

/// Local shadow of the cluster's current leader assignment. Node ids are
/// plain integers.
pub struct LeaderCache {
    leader: Option<u64>,
}

impl LeaderCache {
    /// The most recently observed assignment, if any.
    pub closed spec fn view(&self) -> Option<u64> {
        self.leader
    }

    /// A cache that has observed no assignment yet.
    pub fn new() -> (c: Self)
        ensures
            c@ == Option::<u64>::None,
    {
        LeaderCache { leader: None }
    }

    /// Installs the snapshot baseline read from the shared store.
    pub fn install(&mut self, baseline: Option<u64>)
        ensures
            final(self)@ == baseline,
    {
        self.leader = baseline;
    }

    /// Applies one delivered assignment event: the new value is observed
    /// immediately, replacing whatever was held before.
    pub fn apply_assignment(&mut self, node: u64)
        ensures
            final(self)@ == Some(node),
    {
        self.leader = Some(node);
    }

    /// Applies a batch of assignment events in delivery order.
    pub fn apply_assignments(&mut self, events: Vec<u64>)
        ensures
            final(self)@ == last_assignment(old(self)@, events@),
    {
        let mut i: usize = 0;
        while i < events.len()
            invariant
                i <= events@.len(),
                last_assignment(self@, events@.skip(i as int)) == last_assignment(
                    old(self)@,
                    events@,
                ),
            decreases events@.len() - i,
        {
            self.apply_assignment(events[i]);
            proof {
                assert(events@.skip(i as int).last() == events@.last());
            }
            i = i + 1;
        }
    }

    /// The most recently observed assignment; safe to call from any
    /// consumer without blocking, and never older than the latest
    /// delivered event.
    pub fn current_leader(&self) -> (r: Option<u64>)
        ensures
            r == self@,
    {
        self.leader
    }
}

/// Leader staleness bound: once at least one assignment event has been
/// delivered, the value a consumer reads is exactly the last delivered
/// assignment — never the baseline and never an earlier event's value.
pub proof fn lemma_leader_staleness(baseline: Option<u64>, events: Seq<u64>)
    requires
        events.len() > 0,
    ensures
        last_assignment(baseline, events) == Some(events.last()),
{
}

} // verus!
