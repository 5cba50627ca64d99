//! Whole cycles of a node's life, run against a cluster and a store kept in
//! memory.

use label_preserver::{
    configmap_name, error_policy, reconcile, resume, Action, ApiFailure, BackupRecord, Context,
    NodeRecord, ReconcileError, Reply, Request, Step, StrMap, Timestamp, FINALIZER_NAME,
    JSON_STORAGE_KEY, RESTORED_ANNOTATION_KEY,
};
use std::collections::BTreeMap;

/// A cluster of nodes and the store of backup records.
struct Cluster {
    nodes: BTreeMap<String, NodeRecord>,
    store: BTreeMap<String, BackupRecord>,
    now: Timestamp,
    writes: usize,
}

fn labels_of(pairs: &[(&str, &str)]) -> StrMap {
    let mut map = StrMap::new();
    for (key, value) in pairs {
        map.insert(key.to_string(), value.to_string());
    }
    map
}

fn not_found() -> ApiFailure {
    ApiFailure { code: Some(404), message: "not found".to_string() }
}

impl Cluster {
    fn new() -> Cluster {
        Cluster {
            nodes: BTreeMap::new(),
            store: BTreeMap::new(),
            now: Timestamp { nanos: 1_700_000_000_000_000_000 },
            writes: 0,
        }
    }

    /// Makes the call that a step asks for and tells how it went.
    fn perform(&mut self, request: Request) -> Reply {
        match request {
            Request::AddFinalizer { node } => match self.nodes.get_mut(&node) {
                Some(found) => {
                    found.finalizers.push(FINALIZER_NAME.to_string());
                    Reply::FinalizerAdded(Ok(()))
                }
                None => Reply::FinalizerAdded(Err(not_found())),
            },
            Request::RemoveFinalizer { node, index } => match self.nodes.get_mut(&node) {
                Some(found) => {
                    assert_eq!(found.finalizers[index], FINALIZER_NAME);
                    found.finalizers.remove(index);
                    if found.finalizers.is_empty() && found.deletion_requested_at.is_some() {
                        self.nodes.remove(&node);
                    }
                    Reply::FinalizerRemoved(Ok(()))
                }
                None => Reply::FinalizerRemoved(Err(not_found())),
            },
            Request::GetBackup { key } => match self.store.get(&key) {
                Some(record) => Reply::BackupFetched(Ok(record.clone())),
                None => Reply::BackupFetched(Err(not_found())),
            },
            Request::PutBackup { key, record } => {
                self.store.insert(key, record);
                self.writes += 1;
                Reply::BackupWritten(Ok(()))
            }
            Request::PatchNode { node, labels, annotations } => match self.nodes.get_mut(&node) {
                Some(found) => {
                    found.labels = labels;
                    for (key, value) in annotations.to_vec() {
                        found.annotations.insert(key, value);
                    }
                    Reply::NodePatched(Ok(()))
                }
                None => Reply::NodePatched(Err(not_found())),
            },
        }
    }

    /// Runs one reconciliation of the node as it is now.
    fn reconcile_once(&mut self, name: &str) -> Result<Action, ReconcileError> {
        let snapshot = match self.nodes.get(name) {
            Some(node) => node.clone(),
            None => return Ok(Action::AwaitChange),
        };
        let mut step = reconcile(&snapshot, self.now);
        loop {
            match step {
                Step::Call(request) => {
                    let reply = self.perform(request);
                    step = resume(&snapshot, reply);
                }
                Step::Done(action) => return Ok(action),
                Step::Failed(error) => return Err(error),
            }
        }
    }

    /// Reconciles the node until nothing changes any more.
    fn settle(&mut self, name: &str) {
        for _ in 0..4 {
            self.reconcile_once(name).unwrap();
        }
    }

    fn create_node(&mut self, name: &str, labels: StrMap) {
        if self.nodes.contains_key(name) {
            return;
        }
        self.nodes.insert(
            name.to_string(),
            NodeRecord {
                identity: Some(name.to_string()),
                labels,
                annotations: StrMap::new(),
                finalizers: Vec::new(),
                deletion_requested_at: None,
            },
        );
        self.settle(name);
    }

    fn delete_node(&mut self, name: &str) {
        let held = match self.nodes.get_mut(name) {
            Some(node) => {
                node.deletion_requested_at = Some(self.now);
                !node.finalizers.is_empty()
            }
            None => return,
        };
        if !held {
            self.nodes.remove(name);
        }
        self.settle(name);
        assert!(!self.nodes.contains_key(name));
    }

    fn set_label(&mut self, name: &str, key: &str, value: &str) {
        let node = self.nodes.get_mut(name).unwrap();
        node.labels.insert(key.to_string(), value.to_string());
        self.settle(name);
    }

    fn remove_label(&mut self, name: &str, key: &str) {
        let node = self.nodes.get_mut(name).unwrap();
        let mut kept = StrMap::new();
        for (k, v) in node.labels.to_vec() {
            if k != key {
                kept.insert(k, v);
            }
        }
        node.labels = kept;
        self.settle(name);
    }

    fn label(&self, name: &str, key: &str) -> Option<String> {
        self.nodes.get(name).unwrap().labels.get(key).cloned()
    }
}

#[test]
fn test_add_and_remove_node() {
    let mut cluster = Cluster::new();
    let test_node_name = "k".repeat(253);
    cluster.create_node(&test_node_name, StrMap::new());

    let node_label_key = "label.to.persist.com/test_slash";
    let node_label_value = "Zq3vXw9";
    cluster.set_label(&test_node_name, node_label_key, node_label_value);

    cluster.delete_node(&test_node_name);
    cluster.create_node(&test_node_name, StrMap::new());
    assert_eq!(cluster.label(&test_node_name, node_label_key), Some(node_label_value.to_string()));
}

#[test]
fn test_overwriting_labels() {
    let mut cluster = Cluster::new();
    let test_node_name = "node-with-some-name";
    cluster.create_node(test_node_name, StrMap::new());

    let node_label_key = "label_to_persist";
    let node_label_value = "first-value";
    cluster.set_label(test_node_name, node_label_key, node_label_value);
    let node_label_key2 = "label_to_persist2";
    let node_label_value2 = "second-value";
    cluster.set_label(test_node_name, node_label_key2, node_label_value2);

    cluster.delete_node(test_node_name);

    let new_label_value = "test_label_value";
    let new_key = "new_key";
    let new_key_value = "new_key_value";
    cluster.create_node(
        test_node_name,
        labels_of(&[(node_label_key, new_label_value), (new_key, new_key_value)]),
    );
    assert!(cluster.nodes.contains_key(test_node_name));

    assert_eq!(cluster.label(test_node_name, node_label_key), Some(new_label_value.to_string()));
    assert_eq!(cluster.label(test_node_name, node_label_key2), Some(node_label_value2.to_string()));
    assert_eq!(cluster.label(test_node_name, new_key), Some(new_key_value.to_string()));
}

#[test]
fn test_deleting_labels() {
    let mut cluster = Cluster::new();
    let test_node_name = "x";
    cluster.create_node(test_node_name, StrMap::new());

    let node_label_key = "label_to_persist_deleting.12345";
    let node_label_value = "some-value";
    cluster.set_label(test_node_name, node_label_key, node_label_value);

    cluster.delete_node(test_node_name);

    cluster.create_node(test_node_name, StrMap::new());
    assert_eq!(cluster.label(test_node_name, node_label_key), Some(node_label_value.to_string()));

    cluster.remove_label(test_node_name, node_label_key);
    assert!(!cluster.nodes[test_node_name].labels.contains_key(node_label_key));

    cluster.delete_node(test_node_name);
    cluster.create_node(test_node_name, StrMap::new());
    assert!(!cluster.nodes[test_node_name].labels.contains_key(node_label_key));
}

#[test]
fn test_no_labels_cycle() {
    let mut cluster = Cluster::new();
    let test_node_name = "node-no-labels-cycle-test";

    cluster.delete_node(test_node_name);
    assert!(!cluster.nodes.contains_key(test_node_name));

    cluster.create_node(test_node_name, StrMap::new());
    assert!(cluster.nodes[test_node_name].labels.is_empty());

    cluster.delete_node(test_node_name);
    let record = &cluster.store[&configmap_name(test_node_name)];
    assert!(record.data.is_empty());

    cluster.create_node(test_node_name, StrMap::new());
    assert!(cluster.nodes[test_node_name].labels.is_empty());
}

#[test]
fn scenario_backup_then_restore_of_n1() {
    let mut cluster = Cluster::new();
    cluster.create_node("n1", labels_of(&[("team", "infra")]));
    cluster.delete_node("n1");

    let key = "node-labels-676b8bb84ce7267dd520deca4811c8f10a53e636352f06987f42fe425acedd80";
    let record = &cluster.store[key];
    assert_eq!(record.data.get(JSON_STORAGE_KEY), Some(&r#"{"team":"infra"}"#.to_string()));
    assert_eq!(record.data.len(), 1);

    cluster.nodes.insert(
        "n1".to_string(),
        NodeRecord {
            identity: Some("n1".to_string()),
            labels: StrMap::new(),
            annotations: StrMap::new(),
            finalizers: vec![FINALIZER_NAME.to_string()],
            deletion_requested_at: None,
        },
    );
    let snapshot = cluster.nodes["n1"].clone();
    let first = reconcile(&snapshot, cluster.now);
    assert!(matches!(&first, Step::Call(Request::GetBackup { key: k }) if k == key));
    let reply = match first {
        Step::Call(request) => cluster.perform(request),
        _ => unreachable!(),
    };
    match resume(&snapshot, reply) {
        Step::Call(Request::PatchNode { node, labels, annotations }) => {
            assert_eq!(node, "n1");
            assert_eq!(labels, labels_of(&[("team", "infra")]));
            assert_eq!(annotations, labels_of(&[(RESTORED_ANNOTATION_KEY, "1")]));
        }
        other => panic!("a patch was expected, not {:?}", other),
    }
}

#[test]
fn backup_written_twice_is_the_same_record() {
    let mut cluster = Cluster::new();
    cluster.create_node("twice", labels_of(&[("zone", "b"), ("arch", "arm64")]));
    let mut node = cluster.nodes["twice"].clone();
    node.deletion_requested_at = Some(cluster.now);

    let key = configmap_name("twice");
    for _ in 0..2 {
        match reconcile(&node, cluster.now) {
            Step::Call(request) => {
                assert!(matches!(cluster.perform(request), Reply::BackupWritten(Ok(()))));
            }
            other => panic!("a write was expected, not {:?}", other),
        }
        assert_eq!(
            cluster.store[&key].data.get(JSON_STORAGE_KEY),
            Some(&r#"{"arch":"arm64","zone":"b"}"#.to_string())
        );
        assert_eq!(cluster.store.len(), 1);
    }
    assert_eq!(cluster.writes, 2);
}

#[test]
fn round_trip_gives_back_every_label() {
    let saved = labels_of(&[
        ("plain", "value"),
        ("kubernetes.io/hostname", "n-7"),
        ("quoted", "say \"hi\""),
        ("back\\slash", "tab\there"),
        ("unicode", "gr\u{fc}\u{df}e \u{2028} \u{1f680}"),
        ("empty", ""),
    ]);
    let mut cluster = Cluster::new();
    cluster.create_node("rt", saved.clone());
    cluster.delete_node("rt");
    cluster.create_node("rt", StrMap::new());
    assert_eq!(cluster.nodes["rt"].labels, saved);
    assert!(cluster.nodes["rt"].annotations.contains_key(RESTORED_ANNOTATION_KEY));
}

#[test]
fn stale_backup_does_not_leak_into_a_node_without_labels() {
    let mut cluster = Cluster::new();
    cluster.create_node("stale", labels_of(&[("old", "1")]));
    cluster.delete_node("stale");
    assert!(!cluster.store[&configmap_name("stale")].data.is_empty());

    cluster.create_node("stale", StrMap::new());
    cluster.remove_label("stale", "old");
    cluster.delete_node("stale");
    assert!(cluster.store[&configmap_name("stale")].data.is_empty());

    cluster.create_node("stale", StrMap::new());
    assert!(cluster.nodes["stale"].labels.is_empty());
}

#[test]
fn overdue_deletion_is_let_go_without_a_write() {
    let mut cluster = Cluster::new();
    cluster.create_node("stuck", labels_of(&[("a", "1")]));
    cluster.nodes.get_mut("stuck").unwrap().deletion_requested_at = Some(cluster.now);
    cluster.now = Timestamp { nanos: cluster.now.nanos + 3_601_000_000_000 };

    assert_eq!(cluster.reconcile_once("stuck").unwrap(), Action::AwaitChange);
    assert_eq!(cluster.writes, 0);
    assert!(cluster.store.is_empty());
    assert!(!cluster.nodes.contains_key("stuck"));
}

#[test]
fn failed_write_keeps_the_token_and_backs_off() {
    let mut cluster = Cluster::new();
    cluster.create_node("held", labels_of(&[("a", "1")]));
    let mut node = cluster.nodes["held"].clone();
    node.deletion_requested_at = Some(cluster.now);

    assert!(matches!(reconcile(&node, cluster.now), Step::Call(Request::PutBackup { .. })));
    let failure = ApiFailure { code: Some(503), message: "unavailable".to_string() };
    let error = match resume(&node, Reply::BackupWritten(Err(failure))) {
        Step::Failed(error) => error,
        other => panic!("a failure was expected, not {:?}", other),
    };
    assert!(matches!(&error, ReconcileError::Kube(f) if f.code == Some(503)));

    let mut ctx = Context::new();
    assert_eq!(error_policy(&node, &error, &mut ctx), Action::Requeue(4));
    assert_eq!(error_policy(&node, &error, &mut ctx), Action::Requeue(8));
    assert_eq!(ctx.attempts(), 2);
}
