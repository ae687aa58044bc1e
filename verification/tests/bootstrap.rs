use bootsync::BootstrapError;
use bootsync::BootstrapInput;
use bootsync::ChangeEvent;
use bootsync::Domain;
use bootsync::DomainLoad;
use bootsync::EventOp;
use bootsync::FileLoad;
use bootsync::LeaderLoad;
use bootsync::Node;
use bootsync::Phase;
use bootsync::SubsystemKind;
use bootsync::UserRole;

fn empty_domain() -> DomainLoad {
    DomainLoad { snapshot: Some(Vec::new()), events: Vec::new() }
}

fn failed_domain() -> DomainLoad {
    DomainLoad { snapshot: None, events: Vec::new() }
}

fn empty_input() -> BootstrapInput {
    BootstrapInput {
        root_username: "root".to_string(),
        root_password: "local-bootstrap-secret".to_string(),
        identity_read_error: false,
        functions: empty_domain(),
        users: empty_domain(),
        schemas: empty_domain(),
        leader: LeaderLoad { snapshot: Some(None), events: Vec::new() },
        alerts: empty_domain(),
        triggers: empty_domain(),
        file_local: FileLoad { snapshot: Some(Vec::new()) },
        file_remote: FileLoad { snapshot: Some(Vec::new()) },
    }
}

fn put(key: u64, value: &str) -> ChangeEvent<String> {
    ChangeEvent { key, op: EventOp::Put(value.to_string()) }
}

fn delete(key: u64) -> ChangeEvent<String> {
    ChangeEvent { key, op: EventOp::Delete }
}

#[test]
fn end_to_end_empty_stores() {
    let mut node = Node::new();
    let r = node.init(empty_input());
    assert!(r.is_ok());
    assert_eq!(node.sequencer.current_phase(), Phase::Ready);

    // The root identity exists, with role Root.
    let root = node.identity.root().expect("root identity must exist");
    assert_eq!(root.name, "root");
    assert_eq!(root.role, UserRole::Root);
    assert_eq!(root.salt, "");

    // All domain caches came up without error, empty as the stores were.
    assert_eq!(node.functions.len(), 0);
    assert_eq!(node.users.len(), 0);
    assert_eq!(node.schemas.len(), 0);
    assert_eq!(node.alerts.len(), 0);
    assert_eq!(node.triggers.len(), 0);
    assert_eq!(node.leader.current_leader(), None);
    assert_eq!(node.file_local.len(), 0);
    assert_eq!(node.file_remote.len(), 0);

    // The five background subsystems were launched, in order.
    assert_eq!(node.supervisor.count(), 5);
    assert_eq!(node.supervisor.handle_at(0).kind, SubsystemKind::Compaction);
    assert_eq!(node.supervisor.handle_at(1).kind, SubsystemKind::AlertEvaluation);
    assert_eq!(node.supervisor.handle_at(2).kind, SubsystemKind::Ingestion);
    assert_eq!(node.supervisor.handle_at(3).kind, SubsystemKind::FileListReconciliation);
    assert_eq!(node.supervisor.handle_at(4).kind, SubsystemKind::RemoteWriteForwarding);

    // A change event delivered per domain after bootstrap is reflected
    // as soon as its watcher applies it.
    node.functions.apply_event(put(1, "udf"));
    node.users.apply_event(put(2, "alice"));
    node.schemas.apply_event(put(3, "sch"));
    node.alerts.apply_event(put(4, "alert"));
    node.triggers.apply_event(put(5, "trig"));
    node.leader.apply_assignment(9);
    assert_eq!(node.functions.get(1), Some(&"udf".to_string()));
    assert_eq!(node.users.get(2), Some(&"alice".to_string()));
    assert_eq!(node.schemas.get(3), Some(&"sch".to_string()));
    assert_eq!(node.alerts.get(4), Some(&"alert".to_string()));
    assert_eq!(node.triggers.get(5), Some(&"trig".to_string()));
    assert_eq!(node.leader.current_leader(), Some(9));
}

#[test]
fn no_lost_update_during_snapshot_window() {
    // A Put delivered while a slow snapshot read is in flight: the
    // snapshot does not yet hold the new key, the event must survive.
    let mut input = empty_input();
    input.users = DomainLoad {
        snapshot: Some(vec![(1, "old-user".to_string())]),
        events: vec![put(7, "fresh-user")],
    };
    let mut node = Node::new();
    assert!(node.init(input).is_ok());
    assert_eq!(node.users.get(7), Some(&"fresh-user".to_string()));
    assert_eq!(node.users.get(1), Some(&"old-user".to_string()));

    // The same key in both: the event, delivered after the watcher
    // attached, wins over the snapshot baseline.
    let mut input = empty_input();
    input.users = DomainLoad {
        snapshot: Some(vec![(1, "stale".to_string())]),
        events: vec![put(1, "current")],
    };
    let mut node = Node::new();
    assert!(node.init(input).is_ok());
    assert_eq!(node.users.get(1), Some(&"current".to_string()));

    // A Delete for a key the snapshot never held is a harmless no-op.
    let mut input = empty_input();
    input.schemas = DomainLoad {
        snapshot: Some(vec![(2, "kept".to_string())]),
        events: vec![delete(99)],
    };
    let mut node = Node::new();
    assert!(node.init(input).is_ok());
    assert_eq!(node.schemas.get(2), Some(&"kept".to_string()));
    assert_eq!(node.schemas.get(99), None);

    // A Delete delivered in the window removes a snapshotted key.
    let mut input = empty_input();
    input.alerts = DomainLoad {
        snapshot: Some(vec![(3, "gone".to_string())]),
        events: vec![delete(3)],
    };
    let mut node = Node::new();
    assert!(node.init(input).is_ok());
    assert_eq!(node.alerts.get(3), None);
}

#[test]
fn fail_fast_on_schemas_cache_error() {
    let mut input = empty_input();
    input.schemas = failed_domain();
    let mut node = Node::new();
    let r = node.init(input);
    assert_eq!(r, Err(BootstrapError::CacheFailed(Domain::Schemas)));
    assert_eq!(r.unwrap_err().domain(), Domain::Schemas);
    // No subsystem was spawned; the node never reports ready.
    assert_eq!(node.supervisor.count(), 0);
    assert_eq!(node.sequencer.current_phase(), Phase::Failed);
    assert_eq!(node.sequencer.failed_domain(), Some(Domain::Schemas));
}

#[test]
fn domain_isolation_under_global_fail_fast() {
    // The chosen policy is global fail-fast: a failure in one domain
    // aborts the whole bootstrap. It still never touches another
    // domain's cache: domains loaded before the failure keep their full
    // contents, domains after it stay exactly as they were.
    let mut input = empty_input();
    input.users = DomainLoad {
        snapshot: Some(vec![(1, "alice".to_string())]),
        events: vec![put(2, "bob")],
    };
    input.alerts = failed_domain();
    input.triggers = DomainLoad {
        snapshot: Some(vec![(5, "never-loaded".to_string())]),
        events: Vec::new(),
    };
    let mut node = Node::new();
    let r = node.init(input);
    assert_eq!(r, Err(BootstrapError::CacheFailed(Domain::Alerts)));
    // Users loaded before the failure: intact and fully synced.
    assert_eq!(node.users.get(1), Some(&"alice".to_string()));
    assert_eq!(node.users.get(2), Some(&"bob".to_string()));
    // Alerts failed before installing anything; triggers never started.
    assert_eq!(node.alerts.len(), 0);
    assert_eq!(node.triggers.len(), 0);
    // Full abort: nothing was spawned.
    assert_eq!(node.supervisor.count(), 0);
}

#[test]
fn first_failing_domain_is_reported() {
    let mut input = empty_input();
    input.functions = failed_domain();
    input.triggers = failed_domain();
    let mut node = Node::new();
    let r = node.init(input);
    assert_eq!(r, Err(BootstrapError::CacheFailed(Domain::Functions)));
}

#[test]
fn file_list_load_failure_is_fatal() {
    let mut input = empty_input();
    input.file_remote = FileLoad { snapshot: None };
    let mut node = Node::new();
    let r = node.init(input);
    assert_eq!(r, Err(BootstrapError::CacheFailed(Domain::FileListRemote)));
    assert_eq!(node.supervisor.count(), 0);
}

#[test]
fn leader_staleness_bound() {
    let mut input = empty_input();
    input.leader = LeaderLoad { snapshot: Some(Some(1)), events: vec![2, 3] };
    let mut node = Node::new();
    assert!(node.init(input).is_ok());
    // The value any action consults is the last delivered assignment,
    // never the baseline and never an earlier event's value.
    assert_eq!(node.leader.current_leader(), Some(3));

    // A failover event delivered later is observed by the very next read.
    node.leader.apply_assignment(4);
    assert_eq!(node.leader.current_leader(), Some(4));
}

#[test]
fn identity_survives_existing_root() {
    // A root identity already stored (an earlier bootstrap, or another
    // node's win) is never replaced.
    let mut node = Node::new();
    assert!(node.init(empty_input()).is_ok());
    let mut again = empty_input();
    again.root_username = "other".to_string();
    again.root_password = "Otherpass#456".to_string();
    let mut node2 = Node {
        identity: std::mem::replace(&mut node.identity, bootsync::IdentityStore::new()),
        ..Node::new()
    };
    assert!(node2.init(again).is_ok());
    let root = node2.identity.root().expect("root identity must exist");
    assert_eq!(root.name, "root");
}
