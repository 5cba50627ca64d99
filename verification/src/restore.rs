//! What is put back onto a node that has come (back) into the cluster.
//!
//! A node is restored once in each incarnation: the patch that restores its
//! labels also sets an annotation, and a node that carries the annotation is
//! left alone, whatever has happened to its labels since. Labels that the node
//! already carries are never overwritten by the backup.

use crate::codec::{decoded_labels, labels_from_json};
use crate::key::{configmap_name, record_key};
use crate::model::{
    fetched_view, Action, ApiFailure, ApiFailureView, BackupRecord, ErrorView, NodeRecord, NodeView,
    ReconcileError, Request, RequestView, Step, StepView, JSON_STORAGE_KEY, RESTORED_ANNOTATION_KEY,
    RESTORED_ANNOTATION_VALUE,
};
use crate::strmap::StrMap;
use vstd::prelude::*;
use vstd::string::*;

verus! {

/// The node carries the mark of a restoration already made.
pub open spec fn is_restored(node: NodeView) -> bool {
    node.annotations.contains_key(RESTORED_ANNOTATION_KEY@)
}

/// The labels of a node after a restoration: all it had, and from the backup
/// each label whose key it did not have.
pub open spec fn merged_labels(
    current: Map<Seq<char>, Seq<char>>,
    backup: Map<Seq<char>, Seq<char>>,
) -> Map<Seq<char>, Seq<char>> {
    backup.union_prefer_right(current)
}

/// The annotations that a restoring patch sets: the mark alone.
pub open spec fn marker_annotations() -> Map<Seq<char>, Seq<char>> {
    Map::<Seq<char>, Seq<char>>::empty().insert(
        RESTORED_ANNOTATION_KEY@,
        RESTORED_ANNOTATION_VALUE@,
    )
}

/// The patch that restores `backup` onto `node` and marks the node.
pub open spec fn restore_patch(node: NodeView, backup: Map<Seq<char>, Seq<char>>) -> StepView {
    match node.identity {
        Some(name) => StepView::Call(
            RequestView::PatchNode {
                node: name,
                labels: merged_labels(node.labels, backup),
                annotations: marker_annotations(),
            },
        ),
        None => StepView::Failed(ErrorView::MissingNodeName),
    }
}

/// The labels that a stored record stands for: those that its JSON field
/// reads as, none where it has no such field, and `None` where the field
/// cannot be read.
pub open spec fn stored_labels(record: Map<Seq<char>, Seq<char>>) -> Option<
    Map<Seq<char>, Seq<char>>,
> {
    if record.contains_key(JSON_STORAGE_KEY@) {
        decoded_labels(record[JSON_STORAGE_KEY@])
    } else {
        Some(Map::empty())
    }
}

/// The first step for a node that is in the cluster to stay: nothing where it
/// was restored before, else the reading of its backup record.
pub open spec fn apply_step(node: NodeView) -> StepView {
    if is_restored(node) {
        StepView::Done(Action::AwaitChange)
    } else {
        match node.identity {
            Some(name) => StepView::Call(RequestView::GetBackup { key: record_key(name) }),
            None => StepView::Failed(ErrorView::MissingNodeName),
        }
    }
}

/// The step that follows the reading of the backup record.
///
/// A record that is not there (status 404) is a backup without labels. Any
/// other failure, and a record whose labels cannot be read, fail the
/// reconciliation.
pub open spec fn restore_step(
    node: NodeView,
    fetched: Result<Map<Seq<char>, Seq<char>>, ApiFailureView>,
) -> StepView {
    if is_restored(node) {
        StepView::Done(Action::AwaitChange)
    } else {
        match fetched {
            Ok(record) => match stored_labels(record) {
                Some(backup) => restore_patch(node, backup),
                None => StepView::Failed(ErrorView::Serialization),
            },
            Err(failure) => if failure.code == Some(404u16) {
                restore_patch(node, Map::empty())
            } else {
                StepView::Failed(ErrorView::Kube(failure))
            },
        }
    }
}

/// Whether the node carries the mark of a restoration already made.
pub fn has_restored_marker(node: &NodeRecord) -> (marked: bool)
    ensures
        marked == is_restored(node@),
{
    node.annotations.contains_key(RESTORED_ANNOTATION_KEY)
}

/// Begins the handling of a node that is in the cluster to stay.
pub fn apply_node(node: &NodeRecord) -> (step: Step)
    ensures
        step@ == apply_step(node@),
{
    if has_restored_marker(node) {
        return Step::Done(Action::AwaitChange);
    }
    match &node.identity {
        Some(name) => Step::Call(Request::GetBackup { key: configmap_name(name.as_str()) }),
        None => Step::Failed(ReconcileError::MissingNodeName),
    }
}

/// Builds the patch that restores `backup` onto `node`: the node's labels,
/// filled up from the backup, and the marking annotation.
pub fn restore_request(node: &NodeRecord, backup: &StrMap) -> (step: Step)
    ensures
        step@ == restore_patch(node@, backup@),
{
    match &node.identity {
        Some(name) => {
            let mut labels = node.labels.clone();
            labels.fill_absent(backup);
            let mut annotations = StrMap::new();
            annotations.insert(
                String::from_str(RESTORED_ANNOTATION_KEY),
                String::from_str(RESTORED_ANNOTATION_VALUE),
            );
            Step::Call(Request::PatchNode { node: name.clone(), labels, annotations })
        },
        None => Step::Failed(ReconcileError::MissingNodeName),
    }
}

/// Goes on after the backup record was read, or could not be read.
pub fn restore_node(node: &NodeRecord, fetched: Result<BackupRecord, ApiFailure>) -> (step: Step)
    ensures
        step@ == restore_step(node@, fetched_view(fetched)),
{
    if has_restored_marker(node) {
        return Step::Done(Action::AwaitChange);
    }
    match fetched {
        Ok(record) => match record.data.get(JSON_STORAGE_KEY) {
            Some(labels_json) => match labels_from_json(labels_json.as_str()) {
                Ok(backup) => restore_request(node, &backup),
                Err(e) => Step::Failed(ReconcileError::Serialization(e)),
            },
            None => restore_request(node, &StrMap::new()),
        },
        Err(failure) => {
            let missing = match failure.code {
                Some(code) => code == 404,
                None => false,
            };
            if missing {
                restore_request(node, &StrMap::new())
            } else {
                Step::Failed(ReconcileError::Kube(failure))
            }
        },
    }
}

} // verus!
