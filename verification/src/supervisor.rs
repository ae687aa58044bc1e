//! The subsystem supervisor: launches the long-running background
//! subsystems once their prerequisite caches are primed, and keeps a
//! handle per launch. Handles exist to report what was spawned (and to
//! stay forward-compatible with graceful shutdown); the supervisor never
//! joins on, retries, or restarts a subsystem — each runs for the life of
//! the process, resilient on its own terms.

use vstd::prelude::*;
use crate::sequencer::Phase;
use crate::sequencer::Sequencer;

verus! {

/// The five long-running background subsystems bootstrap launches.
/// Compaction and alert evaluation read the schema, alert and trigger
/// caches; remote-write forwarding consults the leader-assignment cache
/// at its point of action.
#[derive(Clone, Copy, PartialEq, Eq, Structural, Debug)]
pub enum SubsystemKind {
    Compaction,
    AlertEvaluation,
    Ingestion,
    FileListReconciliation,
    RemoteWriteForwarding,
}

/// An opaque handle to one spawned subsystem: its kind and a task id,
/// tracked only to report the launch.
#[derive(Clone, Copy, PartialEq, Eq, Structural, Debug)]
pub struct SubsystemHandle {
    pub kind: SubsystemKind,
    pub task_id: u64,
}

/// Launches subsystems and records a handle per launch.
pub struct Supervisor {
    handles: Vec<SubsystemHandle>,
}

impl Supervisor {
    /// The kinds launched so far, in launch order.
    pub closed spec fn view(&self) -> Seq<SubsystemKind> {
        self.handles@.map_values(|h: SubsystemHandle| h.kind)
    }

    /// A supervisor that has launched nothing.
    pub fn new() -> (s: Self)
        ensures
            s@ == Seq::<SubsystemKind>::empty(),
    {
        let s = Supervisor { handles: Vec::new() };
        proof {
            assert(s@ =~= Seq::<SubsystemKind>::empty());
        }
        s
    }

    /// Launches one subsystem. The sequencer gate is the machine-checked
    /// guarantee that no subsystem ever starts before every required
    /// cache is primed: a launch is only possible in the subsystem phase.
    pub fn spawn(&mut self, gate: &Sequencer, kind: SubsystemKind) -> (h: SubsystemHandle)
        requires
            gate.wf(),
            gate.phase() == Phase::SubsystemsStarting,
        ensures
            final(self)@ == old(self)@.push(kind),
            h.kind == kind,
    {
        let h = SubsystemHandle { kind, task_id: self.handles.len() as u64 };
        self.handles.push(h);
        proof {
            assert(final(self)@ =~= old(self)@.push(kind));
        }
        h
    }

    /// Number of subsystems launched.
    pub fn count(&self) -> (n: usize)
        ensures
            n == self@.len(),
    {
        self.handles.len()
    }

    /// The handle of the `i`-th launch.
    pub fn handle_at(&self, i: usize) -> (h: SubsystemHandle)
        requires
            i < self@.len(),
        ensures
            h.kind == self@[i as int],
    {
        self.handles[i]
    }
}

} // verus!
