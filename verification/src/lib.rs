//! Keeps a node's labels across a delete-and-recreate cycle.
//!
//! The crate holds the decisions of the controller: which record key a node's
//! backup lives under, what is written when a node leaves, what is put back
//! when a node of the same name returns, how the finalizer gates deletion, and
//! how long to wait after a failure. Talking to the cluster is left to the
//! caller, which performs each [`Request`] and hands the outcome back.

pub mod backoff;
pub mod backup;
pub mod codec;
pub mod key;
pub mod laws;
pub mod lifecycle;
pub mod model;
pub mod restore;
pub mod strmap;

pub use backoff::{backoff_delay, error_policy, Context, MAX_RETRY_SECS, REQUEUE_SECS};
pub use backup::{backup_record, cleanup_node, is_overdue};
pub use codec::survives_backup;
pub use key::configmap_name;
pub use lifecycle::{finalizer_index, lifecycle, reconcile, release_node, resume, Lifecycle};
pub use model::{
    Action, ApiFailure, BackupRecord, NodeRecord, ReconcileError, Reply, Request, Step, Timestamp,
    CONFIGMAP_NAMESPACE, FINALIZER_NAME, JSON_STORAGE_KEY, RESTORED_ANNOTATION_KEY,
    RESTORED_ANNOTATION_VALUE, SERVICE_NAME,
};
pub use restore::{apply_node, has_restored_marker, restore_node, restore_request};
pub use strmap::StrMap;
