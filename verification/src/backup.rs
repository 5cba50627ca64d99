//! What is stored when a node leaves the cluster.
//!
//! A record is written at every departure, also when the node has no labels:
//! the record then has no labels field, and whatever an earlier incarnation
//! left under the same key is gone. A deletion that has been held back for
//! longer than the longest retry delay is let go without a write.

use crate::backoff::MAX_RETRY_SECS;
use crate::codec::{encoded_labels, labels_to_json};
use crate::key::{configmap_name, record_key};
use crate::model::{
    Action, BackupRecord, ErrorView, NodeRecord, NodeView, ReconcileError, Request, RequestView,
    Step, StepView, Timestamp, JSON_STORAGE_KEY,
};
use crate::strmap::StrMap;
use vstd::prelude::*;
use vstd::string::*;

verus! {

/// The longest time for which a deletion is held back, in nanoseconds.
pub open spec fn max_retry_nanos() -> int {
    MAX_RETRY_SECS as int * 1_000_000_000
}

/// Deletion was asked for longer ago than a deletion is held back. A request
/// that lies in the future is not overdue.
pub open spec fn deletion_overdue(node: NodeView, now: int) -> bool {
    match node.deletion_requested_at {
        Some(at) => now - at > max_retry_nanos(),
        None => false,
    }
}

/// The fields of a record: the labels as JSON text, or no field at all.
pub open spec fn record_of(labels_json: Option<Seq<char>>) -> Map<Seq<char>, Seq<char>> {
    match labels_json {
        Some(text) => Map::<Seq<char>, Seq<char>>::empty().insert(JSON_STORAGE_KEY@, text),
        None => Map::empty(),
    }
}

/// The record that keeps `labels`: without a field where there are none, and
/// `None` where the labels cannot be written as JSON.
pub open spec fn backup_of(labels: Map<Seq<char>, Seq<char>>) -> Option<Map<Seq<char>, Seq<char>>> {
    if labels == Map::<Seq<char>, Seq<char>>::empty() {
        Some(record_of(None))
    } else {
        match encoded_labels(labels) {
            Some(text) => Some(record_of(Some(text))),
            None => None,
        }
    }
}

/// The first step for a node that is about to leave: nothing where the
/// deletion is overdue, else the writing of its backup record.
pub open spec fn cleanup_step(node: NodeView, now: int) -> StepView {
    if deletion_overdue(node, now) {
        StepView::Done(Action::AwaitChange)
    } else {
        match node.identity {
            Some(name) => match backup_of(node.labels) {
                Some(record) => StepView::Call(
                    RequestView::PutBackup { key: record_key(name), record },
                ),
                None => StepView::Failed(ErrorView::Serialization),
            },
            None => StepView::Failed(ErrorView::MissingNodeName),
        }
    }
}

/// The view of a text that may be absent.
pub open spec fn text_view(text: Option<String>) -> Option<Seq<char>> {
    match text {
        Some(t) => Some(t@),
        None => None,
    }
}

/// Whether more than the longest retry delay has passed between `at` and `now`.
pub fn is_overdue(at: Timestamp, now: Timestamp) -> (overdue: bool)
    ensures
        overdue == (now@ - at@ > max_retry_nanos()),
{
    match now.nanos.checked_sub(at.nanos) {
        Some(elapsed) => elapsed > MAX_RETRY_SECS as i128 * 1_000_000_000,
        None => now.nanos > at.nanos,
    }
}

/// Builds a record from the labels as JSON text, or an empty one.
pub fn backup_record(labels_json: Option<String>) -> (record: BackupRecord)
    ensures
        record@ == record_of(text_view(labels_json)),
{
    let mut data = StrMap::new();
    match labels_json {
        Some(text) => {
            data.insert(String::from_str(JSON_STORAGE_KEY), text);
        },
        None => {},
    }
    BackupRecord { data }
}

/// Begins the handling of a node whose deletion was asked for.
pub fn cleanup_node(node: &NodeRecord, now: Timestamp) -> (step: Step)
    ensures
        step@ == cleanup_step(node@, now@),
{
    match node.deletion_requested_at {
        Some(at) => {
            if is_overdue(at, now) {
                return Step::Done(Action::AwaitChange);
            }
        },
        None => {},
    }
    match &node.identity {
        Some(name) => {
            let record = if node.labels.is_empty() {
                backup_record(None)
            } else {
                match labels_to_json(&node.labels) {
                    Ok(text) => backup_record(Some(text)),
                    Err(e) => {
                        return Step::Failed(ReconcileError::Serialization(e));
                    },
                }
            };
            Step::Call(Request::PutBackup { key: configmap_name(name.as_str()), record })
        },
        None => Step::Failed(ReconcileError::MissingNodeName),
    }
}

} // verus!
