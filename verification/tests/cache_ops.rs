use bootsync::ChangeEvent;
use bootsync::EventOp;
use bootsync::LocalCache;

fn put(key: u64, value: &str) -> ChangeEvent<String> {
    ChangeEvent { key, op: EventOp::Put(value.to_string()) }
}

fn delete(key: u64) -> ChangeEvent<String> {
    ChangeEvent { key, op: EventOp::Delete }
}

#[test]
fn put_get_delete() {
    let mut c: LocalCache<String> = LocalCache::new();
    assert_eq!(c.len(), 0);
    assert!(!c.contains(1));
    c.put(1, "a".to_string());
    assert_eq!(c.get(1), Some(&"a".to_string()));
    assert_eq!(c.len(), 1);
    c.delete(1);
    assert_eq!(c.get(1), None);
    assert_eq!(c.len(), 0);
}

#[test]
fn put_overwrites() {
    let mut c: LocalCache<String> = LocalCache::new();
    c.put(1, "first".to_string());
    c.put(1, "second".to_string());
    assert_eq!(c.get(1), Some(&"second".to_string()));
    assert_eq!(c.len(), 1);
}

#[test]
fn delete_of_absent_key_is_noop() {
    let mut c: LocalCache<String> = LocalCache::new();
    c.put(1, "a".to_string());
    c.delete(42);
    assert_eq!(c.len(), 1);
    assert_eq!(c.get(1), Some(&"a".to_string()));
}

#[test]
fn events_apply_in_delivery_order() {
    let mut c: LocalCache<String> = LocalCache::new();
    c.apply_events(vec![put(1, "a"), put(1, "b"), delete(2), put(2, "c"), put(3, "d"), delete(3)]);
    assert_eq!(c.get(1), Some(&"b".to_string()));
    assert_eq!(c.get(2), Some(&"c".to_string()));
    assert_eq!(c.get(3), None);
}

#[test]
fn snapshot_keeps_unmentioned_entries() {
    let mut c: LocalCache<String> = LocalCache::new();
    c.put(1, "watched".to_string());
    c.install_snapshot(vec![(2, "snap".to_string()), (1, "baseline".to_string())]);
    // Entries in the snapshot are installed, overwriting; entries it
    // does not mention are kept, since only Delete events remove.
    assert_eq!(c.get(1), Some(&"baseline".to_string()));
    assert_eq!(c.get(2), Some(&"snap".to_string()));
    assert_eq!(c.len(), 2);
}

#[test]
fn snapshot_with_duplicate_keys_last_wins() {
    let mut c: LocalCache<String> = LocalCache::new();
    c.install_snapshot(vec![(1, "early".to_string()), (1, "late".to_string())]);
    assert_eq!(c.get(1), Some(&"late".to_string()));
    assert_eq!(c.len(), 1);
}
