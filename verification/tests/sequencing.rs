use bootsync::Domain;
use bootsync::Phase;
use bootsync::Sequencer;
use bootsync::SubsystemKind;
use bootsync::Supervisor;

#[test]
fn phases_advance_in_documented_order() {
    let mut seq = Sequencer::new();
    assert_eq!(seq.current_phase(), Phase::Init);

    seq.begin_watchers();
    assert_eq!(seq.current_phase(), Phase::WatchersStarting);
    seq.watcher_attached(Domain::Functions);
    seq.watcher_attached(Domain::Users);
    seq.watcher_attached(Domain::Schemas);
    seq.watcher_attached(Domain::LeaderAssignment);
    seq.watcher_attached(Domain::Alerts);
    seq.watcher_attached(Domain::Triggers);
    seq.watchers_ready();
    assert_eq!(seq.current_phase(), Phase::WatchersActive);

    seq.begin_caches();
    assert_eq!(seq.current_phase(), Phase::CachesLoading);
    seq.cache_loaded(Domain::Functions);
    seq.cache_loaded(Domain::Users);
    seq.cache_loaded(Domain::Schemas);
    seq.cache_loaded(Domain::LeaderAssignment);
    seq.cache_loaded(Domain::Alerts);
    seq.cache_loaded(Domain::Triggers);
    seq.cache_loaded(Domain::FileListLocal);
    seq.cache_loaded(Domain::FileListRemote);
    seq.caches_ready();
    assert_eq!(seq.current_phase(), Phase::CachesReady);

    seq.begin_subsystems();
    assert_eq!(seq.current_phase(), Phase::SubsystemsStarting);
    let mut sup = Supervisor::new();
    let h = sup.spawn(&seq, SubsystemKind::Compaction);
    assert_eq!(h.kind, SubsystemKind::Compaction);
    assert_eq!(sup.count(), 1);
    seq.mark_ready();
    assert_eq!(seq.current_phase(), Phase::Ready);
    assert_eq!(seq.failed_domain(), None);
}

#[test]
fn cache_failure_enters_failed_phase() {
    let mut seq = Sequencer::new();
    seq.begin_watchers();
    seq.watcher_attached(Domain::Functions);
    seq.watcher_attached(Domain::Users);
    seq.watcher_attached(Domain::Schemas);
    seq.watcher_attached(Domain::LeaderAssignment);
    seq.watcher_attached(Domain::Alerts);
    seq.watcher_attached(Domain::Triggers);
    seq.watchers_ready();
    seq.begin_caches();
    seq.cache_loaded(Domain::Functions);
    seq.cache_failed(Domain::Users);
    assert_eq!(seq.current_phase(), Phase::Failed);
    assert_eq!(seq.failed_domain(), Some(Domain::Users));
}

#[test]
fn watched_domains() {
    assert!(Domain::Functions.is_watched());
    assert!(Domain::Users.is_watched());
    assert!(Domain::Schemas.is_watched());
    assert!(Domain::LeaderAssignment.is_watched());
    assert!(Domain::Alerts.is_watched());
    assert!(Domain::Triggers.is_watched());
    assert!(!Domain::FileListLocal.is_watched());
    assert!(!Domain::FileListRemote.is_watched());
}
