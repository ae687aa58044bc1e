//! The node-level bootstrap: one call that takes a process from zero to
//! "safe to serve", in the documented order. The root identity is
//! provisioned first; every domain's change watcher is attached before
//! any snapshot read begins; each domain's snapshot baseline is installed
//! and the change events delivered since watcher-attach are applied on
//! top of it; the file-list ledgers are loaded; and only then are the
//! background subsystems launched. Any snapshot failure aborts the whole
//! sequence — fail-fast, all-or-nothing — before a single subsystem
//! exists, with an error naming the failing domain.

use vstd::prelude::*;
use crate::cache::ChangeEvent;
use crate::cache::EventOp;
use crate::cache::LocalCache;
use crate::cache::apply_all;
use crate::cache::install_all;
use crate::cache::lemma_no_lost_update;
use crate::domain::BootstrapError;
use crate::domain::Domain;
use crate::file_list::FileListCache;
use crate::file_list::FileListEntry;
use crate::file_list::keyed_by_id;
use crate::identity::IdentityStore;
use crate::identity::ensure_root_identity;
use crate::identity::ensure_spec;
use crate::identity::root_user_view;
use crate::leader::LeaderCache;
use crate::leader::last_assignment;
use crate::sequencer::Phase;
use crate::sequencer::Sequencer;
use crate::supervisor::SubsystemKind;
use crate::supervisor::Supervisor;

verus! {

/// What the shared store hands one watched domain during bootstrap: the
/// snapshot read (`None` when the read failed, which is fatal), and the
/// change events the watcher received from the moment its subscription
/// became active, in delivery order.
pub struct DomainLoad {
    pub snapshot: Option<Vec<(u64, String)>>,
    pub events: Vec<ChangeEvent<String>>,
}

/// The same for the leader-assignment domain, whose state is one
/// singleton value: the baseline read, and the assignments delivered
/// since the watcher attached.
pub struct LeaderLoad {
    pub snapshot: Option<Option<u64>>,
    pub events: Vec<u64>,
}

/// A one-shot file-list read: the persisted local ledger, or the
/// cluster-wide authoritative list. `None` when the read failed.
pub struct FileLoad {
    pub snapshot: Option<Vec<FileListEntry>>,
}

/// Everything the shared store contributes to one bootstrap run.
pub struct BootstrapInput {
    pub root_username: String,
    pub root_password: String,
    pub identity_read_error: bool,
    pub functions: DomainLoad,
    pub users: DomainLoad,
    pub schemas: DomainLoad,
    pub leader: LeaderLoad,
    pub alerts: DomainLoad,
    pub triggers: DomainLoad,
    pub file_local: FileLoad,
    pub file_remote: FileLoad,
}

impl BootstrapInput {
    /// Snapshot loads run in a fixed order; each of these says whether
    /// the load of the named domain is reached and succeeds. Cumulative:
    /// a domain is loaded only when every domain before it loaded.
    pub open spec fn loads_functions(&self) -> bool {
        self.functions.snapshot is Some
    }

    pub open spec fn loads_users(&self) -> bool {
        self.loads_functions() && self.users.snapshot is Some
    }

    pub open spec fn loads_schemas(&self) -> bool {
        self.loads_users() && self.schemas.snapshot is Some
    }

    pub open spec fn loads_leader(&self) -> bool {
        self.loads_schemas() && self.leader.snapshot is Some
    }

    pub open spec fn loads_alerts(&self) -> bool {
        self.loads_leader() && self.alerts.snapshot is Some
    }

    pub open spec fn loads_triggers(&self) -> bool {
        self.loads_alerts() && self.triggers.snapshot is Some
    }

    pub open spec fn loads_file_local(&self) -> bool {
        self.loads_triggers() && self.file_local.snapshot is Some
    }

    pub open spec fn loads_file_remote(&self) -> bool {
        self.loads_file_local() && self.file_remote.snapshot is Some
    }

    /// The first domain whose snapshot load fails, if any: the one the
    /// propagated error names.
    pub open spec fn first_failure(&self) -> Option<Domain> {
        if self.functions.snapshot is None {
            Some(Domain::Functions)
        } else if self.users.snapshot is None {
            Some(Domain::Users)
        } else if self.schemas.snapshot is None {
            Some(Domain::Schemas)
        } else if self.leader.snapshot is None {
            Some(Domain::LeaderAssignment)
        } else if self.alerts.snapshot is None {
            Some(Domain::Alerts)
        } else if self.triggers.snapshot is None {
            Some(Domain::Triggers)
        } else if self.file_local.snapshot is None {
            Some(Domain::FileListLocal)
        } else if self.file_remote.snapshot is None {
            Some(Domain::FileListRemote)
        } else {
            None
        }
    }
}

/// The contents of one watched domain's cache after bootstrap: the
/// snapshot baseline installed over what was there, with the change
/// events observed since watcher-attach applied on top in delivery
/// order — so no update in the synchronization window is lost.
pub open spec fn synced_view(
    before: Map<u64, Seq<char>>,
    load: DomainLoad,
) -> Map<u64, Seq<char>>
    recommends
        load.snapshot is Some,
{
    apply_all(install_all(before, load.snapshot.unwrap()@), load.events@)
}

/// The subsystems bootstrap launches, in launch order.
pub open spec fn launched_subsystems() -> Seq<SubsystemKind> {
    seq![
        SubsystemKind::Compaction,
        SubsystemKind::AlertEvaluation,
        SubsystemKind::Ingestion,
        SubsystemKind::FileListReconciliation,
        SubsystemKind::RemoteWriteForwarding,
    ]
}

/// One node's bootstrap-owned state: the per-domain caches, the identity
/// slot of the shared store (as this node sees it), the supervisor, and
/// the sequencer that orders them into existence. Each cache is written
/// only by its own domain's loader and watcher; all other readers only
/// look.
pub struct Node {
    pub identity: IdentityStore,
    pub functions: LocalCache<String>,
    pub users: LocalCache<String>,
    pub schemas: LocalCache<String>,
    pub alerts: LocalCache<String>,
    pub triggers: LocalCache<String>,
    pub leader: LeaderCache,
    pub file_local: FileListCache,
    pub file_remote: FileListCache,
    pub supervisor: Supervisor,
    pub sequencer: Sequencer,
}

impl Node {
    /// Structural invariant: every cache is well formed and the sequencer
    /// respects its state machine.
    pub open spec fn inv(&self) -> bool {
        &&& self.functions.wf()
        &&& self.users.wf()
        &&& self.schemas.wf()
        &&& self.alerts.wf()
        &&& self.triggers.wf()
        &&& self.file_local.wf()
        &&& self.file_remote.wf()
        &&& self.sequencer.wf()
    }

    /// A node before bootstrap: empty caches, no identity observed, no
    /// subsystem launched, sequencer at the start.
    pub fn new() -> (n: Self)
        ensures
            n.inv(),
            n.sequencer.phase() == Phase::Init,
            n.identity@ is None,
            n.functions@ == Map::<u64, Seq<char>>::empty(),
            n.users@ == Map::<u64, Seq<char>>::empty(),
            n.schemas@ == Map::<u64, Seq<char>>::empty(),
            n.alerts@ == Map::<u64, Seq<char>>::empty(),
            n.triggers@ == Map::<u64, Seq<char>>::empty(),
            n.leader@ is None,
            n.file_local@ == Map::<u64, FileListEntry>::empty(),
            n.file_remote@ == Map::<u64, FileListEntry>::empty(),
            n.supervisor@ == Seq::<SubsystemKind>::empty(),
    {
        Node {
            identity: IdentityStore::new(),
            functions: LocalCache::new(),
            users: LocalCache::new(),
            schemas: LocalCache::new(),
            alerts: LocalCache::new(),
            triggers: LocalCache::new(),
            leader: LeaderCache::new(),
            file_local: FileListCache::new(),
            file_remote: FileListCache::new(),
            supervisor: Supervisor::new(),
            sequencer: Sequencer::new(),
        }
    }

    /// The bootstrap sequence. Returns `Ok` exactly when every required
    /// snapshot load succeeds; a failed load aborts the whole run with an
    /// error naming the first failing domain, before any subsystem is
    /// launched. On success every domain cache holds its snapshot merged
    /// with the events delivered since watcher-attach, the leader shadow
    /// holds the last delivered assignment, the root identity exists, and
    /// the five subsystems are launched in order. On failure a domain's
    /// cache is either fully synced (it loaded before the failure) or
    /// exactly as it was — a failing domain never touches another's
    /// cache — and no subsystem is launched.
    pub fn init(&mut self, input: BootstrapInput) -> (r: Result<(), BootstrapError>)
        requires
            old(self).inv(),
            old(self).sequencer.phase() == Phase::Init,
        ensures
            final(self).inv(),
            r is Ok <==> input.first_failure() is None,
            r matches Err(e) ==> Some(e) == match input.first_failure() {
                Some(d) => Some(BootstrapError::CacheFailed(d)),
                None => None::<BootstrapError>,
            },
            final(self).identity@ == ensure_spec(
                old(self).identity@,
                root_user_view(input.root_username@, input.root_password@),
            ),
            final(self).identity@ is Some,
            final(self).functions@ == if input.loads_functions() {
                synced_view(old(self).functions@, input.functions)
            } else {
                old(self).functions@
            },
            final(self).users@ == if input.loads_users() {
                synced_view(old(self).users@, input.users)
            } else {
                old(self).users@
            },
            final(self).schemas@ == if input.loads_schemas() {
                synced_view(old(self).schemas@, input.schemas)
            } else {
                old(self).schemas@
            },
            final(self).leader@ == if input.loads_leader() {
                last_assignment(input.leader.snapshot.unwrap(), input.leader.events@)
            } else {
                old(self).leader@
            },
            final(self).alerts@ == if input.loads_alerts() {
                synced_view(old(self).alerts@, input.alerts)
            } else {
                old(self).alerts@
            },
            final(self).triggers@ == if input.loads_triggers() {
                synced_view(old(self).triggers@, input.triggers)
            } else {
                old(self).triggers@
            },
            final(self).file_local@ == if input.loads_file_local() {
                install_all(old(self).file_local@, keyed_by_id(input.file_local.snapshot.unwrap()@))
            } else {
                old(self).file_local@
            },
            final(self).file_remote@ == if input.loads_file_remote() {
                install_all(
                    old(self).file_remote@,
                    keyed_by_id(input.file_remote.snapshot.unwrap()@),
                )
            } else {
                old(self).file_remote@
            },
            final(self).supervisor@ == if r is Ok {
                old(self).supervisor@ + launched_subsystems()
            } else {
                old(self).supervisor@
            },
            final(self).sequencer.phase() == if r is Ok {
                Phase::Ready
            } else {
                Phase::Failed
            },
            final(self).sequencer.failed() == input.first_failure(),
    {
        let BootstrapInput {
            root_username,
            root_password,
            identity_read_error,
            functions,
            users,
            schemas,
            leader,
            alerts,
            triggers,
            file_local,
            file_remote,
        } = input;

        // Root identity first; a losing creation race is swallowed.
        let _ = ensure_root_identity(
            &mut self.identity,
            identity_read_error,
            root_username,
            root_password,
        );

        // Spawn every change watcher and wait for each to confirm its
        // subscription is active, before any snapshot read begins.
        self.sequencer.begin_watchers();
        self.sequencer.watcher_attached(Domain::Functions);
        self.sequencer.watcher_attached(Domain::Users);
        self.sequencer.watcher_attached(Domain::Schemas);
        self.sequencer.watcher_attached(Domain::LeaderAssignment);
        self.sequencer.watcher_attached(Domain::Alerts);
        self.sequencer.watcher_attached(Domain::Triggers);
        self.sequencer.watchers_ready();

        // Snapshot loads, in order; the first failure aborts everything.
        self.sequencer.begin_caches();
        match functions.snapshot {
            Some(snap) => {
                self.functions.install_snapshot(snap);
                self.functions.apply_events(functions.events);
                self.sequencer.cache_loaded(Domain::Functions);
            },
            None => {
                self.sequencer.cache_failed(Domain::Functions);
                return Err(BootstrapError::CacheFailed(Domain::Functions));
            },
        }
        match users.snapshot {
            Some(snap) => {
                self.users.install_snapshot(snap);
                self.users.apply_events(users.events);
                self.sequencer.cache_loaded(Domain::Users);
            },
            None => {
                self.sequencer.cache_failed(Domain::Users);
                return Err(BootstrapError::CacheFailed(Domain::Users));
            },
        }
        match schemas.snapshot {
            Some(snap) => {
                self.schemas.install_snapshot(snap);
                self.schemas.apply_events(schemas.events);
                self.sequencer.cache_loaded(Domain::Schemas);
            },
            None => {
                self.sequencer.cache_failed(Domain::Schemas);
                return Err(BootstrapError::CacheFailed(Domain::Schemas));
            },
        }
        match leader.snapshot {
            Some(baseline) => {
                self.leader.install(baseline);
                self.leader.apply_assignments(leader.events);
                self.sequencer.cache_loaded(Domain::LeaderAssignment);
            },
            None => {
                self.sequencer.cache_failed(Domain::LeaderAssignment);
                return Err(BootstrapError::CacheFailed(Domain::LeaderAssignment));
            },
        }
        match alerts.snapshot {
            Some(snap) => {
                self.alerts.install_snapshot(snap);
                self.alerts.apply_events(alerts.events);
                self.sequencer.cache_loaded(Domain::Alerts);
            },
            None => {
                self.sequencer.cache_failed(Domain::Alerts);
                return Err(BootstrapError::CacheFailed(Domain::Alerts));
            },
        }
        match triggers.snapshot {
            Some(snap) => {
                self.triggers.install_snapshot(snap);
                self.triggers.apply_events(triggers.events);
                self.sequencer.cache_loaded(Domain::Triggers);
            },
            None => {
                self.sequencer.cache_failed(Domain::Triggers);
                return Err(BootstrapError::CacheFailed(Domain::Triggers));
            },
        }
        match file_local.snapshot {
            Some(baseline) => {
                self.file_local.install_baseline(baseline);
                self.sequencer.cache_loaded(Domain::FileListLocal);
            },
            None => {
                self.sequencer.cache_failed(Domain::FileListLocal);
                return Err(BootstrapError::CacheFailed(Domain::FileListLocal));
            },
        }
        match file_remote.snapshot {
            Some(baseline) => {
                self.file_remote.install_baseline(baseline);
                self.sequencer.cache_loaded(Domain::FileListRemote);
            },
            None => {
                self.sequencer.cache_failed(Domain::FileListRemote);
                return Err(BootstrapError::CacheFailed(Domain::FileListRemote));
            },
        }
        self.sequencer.caches_ready();

        // Every cache is primed: launch the background subsystems.
        self.sequencer.begin_subsystems();
        let _ = self.supervisor.spawn(&self.sequencer, SubsystemKind::Compaction);
        let _ = self.supervisor.spawn(&self.sequencer, SubsystemKind::AlertEvaluation);
        let _ = self.supervisor.spawn(&self.sequencer, SubsystemKind::Ingestion);
        let _ = self.supervisor.spawn(&self.sequencer, SubsystemKind::FileListReconciliation);
        let _ = self.supervisor.spawn(&self.sequencer, SubsystemKind::RemoteWriteForwarding);
        self.sequencer.mark_ready();

        proof {
            assert(final(self).supervisor@ =~= old(self).supervisor@ + launched_subsystems());
        }
        Ok(())
    }
}

/// No-lost-update law, at the bootstrap boundary: for any change event a
/// domain's watcher received (hence delivered at or after watcher-attach
/// time), the domain's cache reflects that event's effect once bootstrap
/// completes — whatever the snapshot read returned, i.e. regardless of
/// whether it started before, during, or after the event, and even if the
/// event's key also appears in the snapshot. `i` picks the last event for
/// its key, the one whose effect must survive.
pub proof fn lemma_bootstrap_no_lost_update(
    before: Map<u64, Seq<char>>,
    load: DomainLoad,
    i: int,
)
    requires
        load.snapshot is Some,
        0 <= i < load.events@.len(),
        forall|j: int| i < j < load.events@.len() ==> load.events@[j].key != load.events@[i].key,
    ensures
        match load.events@[i].op {
            EventOp::Put(v) => synced_view(before, load).contains_key(load.events@[i].key)
                && synced_view(before, load)[load.events@[i].key] == v@,
            EventOp::Delete => !synced_view(before, load).contains_key(load.events@[i].key),
        },
{
    lemma_no_lost_update(install_all(before, load.snapshot.unwrap()@), load.events@, i);
}

/// Domain isolation law, under the global fail-fast policy. One domain's
/// cache contents after bootstrap are a function of that domain's own
/// load and of whether the loads before it succeeded — never of another
/// domain's snapshot data or events. Two bootstrap runs that agree on the
/// users load and on the success of the loads before it leave the users
/// cache identical, however the other domains' data or outcomes differ;
/// a failure elsewhere leaves it either fully synced or exactly as it
/// was, never corrupted. (Stated for the users domain; `Node::init`'s
/// contract gives every domain a clause of this same shape.)
pub proof fn lemma_domain_isolation(
    before: Map<u64, Seq<char>>,
    run_a: BootstrapInput,
    run_b: BootstrapInput,
)
    requires
        run_a.users == run_b.users,
        run_a.loads_functions() == run_b.loads_functions(),
    ensures
        (if run_a.loads_users() {
            synced_view(before, run_a.users)
        } else {
            before
        }) == (if run_b.loads_users() {
            synced_view(before, run_b.users)
        } else {
            before
        }),
{
}

} // verus!
