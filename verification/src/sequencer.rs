//! The bootstrap state machine. It enforces the one ordering rule the
//! whole subsystem exists for: every domain's change watcher is attached
//! before any snapshot read begins (so no update in the synchronization
//! window is lost), every required snapshot has loaded before any
//! background subsystem starts (so nothing serves from an incomplete
//! cache), and a single fatal snapshot failure aborts the sequence before
//! any subsystem exists.

use vstd::prelude::*;
use crate::domain::Domain;

verus! {

/// The phases of bootstrap, in order; `Failed` is the one abnormal exit,
/// entered on a fatal snapshot-load error. There is no teardown phase:
/// shutdown ordering is out of scope.
#[derive(Clone, Copy, PartialEq, Eq, Structural, Debug)]
pub enum Phase {
    Init,
    WatchersStarting,
    WatchersActive,
    CachesLoading,
    CachesReady,
    SubsystemsStarting,
    Ready,
    Failed,
}

/// One boolean per domain, tracking watcher attachment and snapshot
/// completion.
#[derive(Clone, Copy, PartialEq, Eq, Structural, Debug)]
pub struct DomainFlags {
    pub functions: bool,
    pub users: bool,
    pub schemas: bool,
    pub leader_assignment: bool,
    pub alerts: bool,
    pub triggers: bool,
    pub file_list_local: bool,
    pub file_list_remote: bool,
}

impl DomainFlags {
    /// The flag of one domain.
    pub open spec fn spec_flag(self, d: Domain) -> bool {
        match d {
            Domain::Functions => self.functions,
            Domain::Users => self.users,
            Domain::Schemas => self.schemas,
            Domain::LeaderAssignment => self.leader_assignment,
            Domain::Alerts => self.alerts,
            Domain::Triggers => self.triggers,
            Domain::FileListLocal => self.file_list_local,
            Domain::FileListRemote => self.file_list_remote,
        }
    }

    /// This set of flags with `d` raised.
    pub open spec fn spec_set(self, d: Domain) -> DomainFlags {
        match d {
            Domain::Functions => DomainFlags { functions: true, ..self },
            Domain::Users => DomainFlags { users: true, ..self },
            Domain::Schemas => DomainFlags { schemas: true, ..self },
            Domain::LeaderAssignment => DomainFlags { leader_assignment: true, ..self },
            Domain::Alerts => DomainFlags { alerts: true, ..self },
            Domain::Triggers => DomainFlags { triggers: true, ..self },
            Domain::FileListLocal => DomainFlags { file_list_local: true, ..self },
            Domain::FileListRemote => DomainFlags { file_list_remote: true, ..self },
        }
    }

    /// All watched domains are flagged.
    pub open spec fn all_watched(self) -> bool {
        self.functions && self.users && self.schemas && self.leader_assignment && self.alerts
            && self.triggers
    }

    /// All domains, file lists included, are flagged.
    pub open spec fn all(self) -> bool {
        self.all_watched() && self.file_list_local && self.file_list_remote
    }

    /// No domain flagged.
    pub fn none() -> (f: DomainFlags)
        ensures
            f == (DomainFlags {
                functions: false,
                users: false,
                schemas: false,
                leader_assignment: false,
                alerts: false,
                triggers: false,
                file_list_local: false,
                file_list_remote: false,
            }),
    {
        DomainFlags {
            functions: false,
            users: false,
            schemas: false,
            leader_assignment: false,
            alerts: false,
            triggers: false,
            file_list_local: false,
            file_list_remote: false,
        }
    }

    /// Raises the flag of one domain.
    pub fn set(&mut self, d: Domain)
        ensures
            *final(self) == old(self).spec_set(d),
    {
        match d {
            Domain::Functions => self.functions = true,
            Domain::Users => self.users = true,
            Domain::Schemas => self.schemas = true,
            Domain::LeaderAssignment => self.leader_assignment = true,
            Domain::Alerts => self.alerts = true,
            Domain::Triggers => self.triggers = true,
            Domain::FileListLocal => self.file_list_local = true,
            Domain::FileListRemote => self.file_list_remote = true,
        }
    }
}

/// The bootstrap sequencer: tracks the current phase, which watchers have
/// confirmed their subscription, which snapshots have loaded, and — on
/// abort — which domain failed. Phase transitions are only possible in
/// the documented order; the `requires` of each transition is the
/// machine-checked ordering rule.
pub struct Sequencer {
    phase: Phase,
    attached: DomainFlags,
    loaded: DomainFlags,
    failed: Option<Domain>,
}

impl Sequencer {
    /// The current phase.
    pub closed spec fn phase(&self) -> Phase {
        self.phase
    }

    /// Watchers that have confirmed their subscription is active.
    pub closed spec fn attached(&self) -> DomainFlags {
        self.attached
    }

    /// Domains whose snapshot load has completed.
    pub closed spec fn loaded(&self) -> DomainFlags {
        self.loaded
    }

    /// The domain whose snapshot load aborted bootstrap, if any.
    pub closed spec fn failed(&self) -> Option<Domain> {
        self.failed
    }

    /// The state-machine invariant: a phase is never reached before what
    /// it presupposes has happened. In particular no snapshot loads before
    /// every watcher is attached, and the subsystem phases are reached
    /// only with every required snapshot loaded and no failure recorded.
    pub open spec fn wf(&self) -> bool {
        &&& (self.phase() == Phase::WatchersActive || self.phase() == Phase::CachesLoading
            ==> self.attached().all_watched())
        &&& (self.phase() == Phase::CachesReady || self.phase() == Phase::SubsystemsStarting
            || self.phase() == Phase::Ready ==> self.attached().all_watched()
            && self.loaded().all() && self.failed() is None)
        &&& (self.phase() == Phase::Failed <==> self.failed() is Some)
    }

    /// A sequencer at the start of bootstrap.
    pub fn new() -> (s: Self)
        ensures
            s.wf(),
            s.phase() == Phase::Init,
            s.failed() is None,
    {
        Sequencer {
            phase: Phase::Init,
            attached: DomainFlags::none(),
            loaded: DomainFlags::none(),
            failed: None,
        }
    }

    /// The current phase, for callers.
    pub fn current_phase(&self) -> (p: Phase)
        ensures
            p == self.phase(),
    {
        self.phase
    }

    /// The domain that aborted bootstrap, if any.
    pub fn failed_domain(&self) -> (d: Option<Domain>)
        ensures
            d == self.failed(),
    {
        self.failed
    }

    /// Starts spawning the change watchers.
    pub fn begin_watchers(&mut self)
        requires
            old(self).wf(),
            old(self).phase() == Phase::Init,
        ensures
            final(self).wf(),
            final(self).phase() == Phase::WatchersStarting,
            final(self).attached() == old(self).attached(),
            final(self).loaded() == old(self).loaded(),
            final(self).failed() == old(self).failed(),
    {
        self.phase = Phase::WatchersStarting;
    }

    /// Records one watcher's confirmation that its subscription is active
    /// (the explicit readiness acknowledgment that replaces a scheduler
    /// yield on a parallel runtime).
    pub fn watcher_attached(&mut self, d: Domain)
        requires
            old(self).wf(),
            old(self).phase() == Phase::WatchersStarting,
            d.spec_is_watched(),
        ensures
            final(self).wf(),
            final(self).phase() == Phase::WatchersStarting,
            final(self).attached() == old(self).attached().spec_set(d),
            final(self).loaded() == old(self).loaded(),
            final(self).failed() == old(self).failed(),
    {
        self.attached.set(d);
    }

    /// Releases the snapshot phase: only possible once every watcher has
    /// confirmed its subscription, so any change event delivered from now
    /// on is observed and applied on top of the snapshots.
    pub fn watchers_ready(&mut self)
        requires
            old(self).wf(),
            old(self).phase() == Phase::WatchersStarting,
            old(self).attached().all_watched(),
        ensures
            final(self).wf(),
            final(self).phase() == Phase::WatchersActive,
            final(self).attached() == old(self).attached(),
            final(self).loaded() == old(self).loaded(),
            final(self).failed() == old(self).failed(),
    {
        self.phase = Phase::WatchersActive;
    }

    /// Starts the snapshot loads.
    pub fn begin_caches(&mut self)
        requires
            old(self).wf(),
            old(self).phase() == Phase::WatchersActive,
        ensures
            final(self).wf(),
            final(self).phase() == Phase::CachesLoading,
            final(self).attached() == old(self).attached(),
            final(self).loaded() == old(self).loaded(),
            final(self).failed() == old(self).failed(),
    {
        self.phase = Phase::CachesLoading;
    }

    /// Records one domain's successful snapshot load.
    pub fn cache_loaded(&mut self, d: Domain)
        requires
            old(self).wf(),
            old(self).phase() == Phase::CachesLoading,
        ensures
            final(self).wf(),
            final(self).phase() == Phase::CachesLoading,
            final(self).attached() == old(self).attached(),
            final(self).loaded() == old(self).loaded().spec_set(d),
            final(self).failed() == old(self).failed(),
    {
        self.loaded.set(d);
    }

    /// Records a fatal snapshot failure: bootstrap aborts, and the failing
    /// domain is kept for the diagnosable error.
    pub fn cache_failed(&mut self, d: Domain)
        requires
            old(self).wf(),
            old(self).phase() == Phase::CachesLoading,
        ensures
            final(self).wf(),
            final(self).phase() == Phase::Failed,
            final(self).attached() == old(self).attached(),
            final(self).loaded() == old(self).loaded(),
            final(self).failed() == Some(d),
    {
        self.phase = Phase::Failed;
        self.failed = Some(d);
    }

    /// Closes the snapshot phase: only possible once every required
    /// domain, the two file-list views included, has loaded.
    pub fn caches_ready(&mut self)
        requires
            old(self).wf(),
            old(self).phase() == Phase::CachesLoading,
            old(self).loaded().all(),
        ensures
            final(self).wf(),
            final(self).phase() == Phase::CachesReady,
            final(self).attached() == old(self).attached(),
            final(self).loaded() == old(self).loaded(),
            final(self).failed() == old(self).failed(),
    {
        self.phase = Phase::CachesReady;
    }

    /// Releases the subsystem launches.
    pub fn begin_subsystems(&mut self)
        requires
            old(self).wf(),
            old(self).phase() == Phase::CachesReady,
        ensures
            final(self).wf(),
            final(self).phase() == Phase::SubsystemsStarting,
            final(self).attached() == old(self).attached(),
            final(self).loaded() == old(self).loaded(),
            final(self).failed() == old(self).failed(),
    {
        self.phase = Phase::SubsystemsStarting;
    }

    /// Terminal success: the process may serve traffic.
    pub fn mark_ready(&mut self)
        requires
            old(self).wf(),
            old(self).phase() == Phase::SubsystemsStarting,
        ensures
            final(self).wf(),
            final(self).phase() == Phase::Ready,
            final(self).attached() == old(self).attached(),
            final(self).loaded() == old(self).loaded(),
            final(self).failed() == old(self).failed(),
    {
        self.phase = Phase::Ready;
    }
}

/// Fail-fast law: whenever the sequencer permits a subsystem launch (or
/// has declared the node ready), every required domain's snapshot has
/// loaded and no fatal cache error was recorded — so a bootstrap in which
/// any required domain's snapshot failed spawns no subsystem at all.
pub proof fn lemma_no_spawn_before_caches(s: &Sequencer)
    requires
        s.wf(),
        s.phase() == Phase::SubsystemsStarting || s.phase() == Phase::Ready,
    ensures
        s.loaded().all(),
        s.failed() is None,
        s.attached().all_watched(),
{
}

} // verus!
