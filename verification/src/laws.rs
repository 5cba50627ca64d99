//! What holds of the controller as a whole, proved from the definitions of
//! its steps.
//!
//! The store is taken as its contract describes it: a write puts a record in
//! place of whatever stood under the key, and a read gives the record back or
//! answers that there is none.

use crate::backup::{backup_of, cleanup_step, deletion_overdue};
use crate::codec::reads_back;
use crate::key::record_key;
use crate::lifecycle::{
    lifecycle_of, reconcile_step, release_step, resume_step, token_place, Lifecycle,
};
use crate::model::{
    Action, ApiFailureView, NodeView, ReplyView, RequestView, StepView, RESTORED_ANNOTATION_KEY,
};
use crate::restore::{
    apply_step, is_restored, marker_annotations, merged_labels, restore_step, stored_labels,
};
use vstd::prelude::*;

verus! {

/// The answer of the store where there is no record under a key.
pub open spec fn not_found() -> ApiFailureView {
    ApiFailureView { code: Some(404u16), message: Seq::empty() }
}

/// What a read of `key` gives.
pub open spec fn store_get(
    store: Map<Seq<char>, Map<Seq<char>, Seq<char>>>,
    key: Seq<char>,
) -> Result<Map<Seq<char>, Seq<char>>, ApiFailureView> {
    if store.contains_key(key) {
        Ok(store[key])
    } else {
        Err(not_found())
    }
}

/// The store once the call of `step` was made, if it is a write; else the
/// store as it was.
pub open spec fn store_after(
    store: Map<Seq<char>, Map<Seq<char>, Seq<char>>>,
    step: StepView,
) -> Map<Seq<char>, Map<Seq<char>, Seq<char>>> {
    match step {
        StepView::Call(RequestView::PutBackup { key, record }) => store.insert(key, record),
        _ => store,
    }
}

/// The step reads the node's backup or changes the node's labels.
pub open spec fn touches_labels(step: StepView) -> bool {
    match step {
        StepView::Call(RequestView::GetBackup { .. }) => true,
        StepView::Call(RequestView::PatchNode { .. }) => true,
        _ => false,
    }
}

/// Saving a node's labels a second time, no earlier than the first, leaves
/// the store as the first time left it.
pub proof fn lemma_backup_idempotent(
    node: NodeView,
    first: int,
    second: int,
    store: Map<Seq<char>, Map<Seq<char>, Seq<char>>>,
)
    requires
        first <= second,
    ensures
        store_after(store_after(store, cleanup_step(node, first)), cleanup_step(node, second))
            == store_after(store, cleanup_step(node, first)),
{
    let once = store_after(store, cleanup_step(node, first));
    let twice = store_after(once, cleanup_step(node, second));
    assert(twice =~= once);
}

/// Two nodes of the same name with the same labels are saved as the same
/// record under the same key, whatever else differs between them.
pub proof fn lemma_backup_depends_on_name_and_labels(a: NodeView, b: NodeView, now: int, later: int)
    requires
        a.identity == b.identity,
        a.labels == b.labels,
        !deletion_overdue(a, now),
        !deletion_overdue(b, later),
    ensures
        cleanup_step(a, now) == cleanup_step(b, later),
{
}

/// Labels that were saved come back onto a new node of the same name that
/// has no labels of its own: all of them and nothing else.
///
/// This holds of a node without labels, and of labels whose JSON text is read
/// back as it was written. It does not hold where the deletion was overdue,
/// since then nothing was saved.
pub proof fn lemma_round_trip(
    old_node: NodeView,
    now: int,
    new_node: NodeView,
    store: Map<Seq<char>, Map<Seq<char>, Seq<char>>>,
)
    requires
        old_node.identity is Some,
        new_node.identity == old_node.identity,
        !deletion_overdue(old_node, now),
        new_node.labels == Map::<Seq<char>, Seq<char>>::empty(),
        !is_restored(new_node),
    ensures
        old_node.labels == Map::<Seq<char>, Seq<char>>::empty() || reads_back(old_node.labels) ==> {
            let saved = store_after(store, cleanup_step(old_node, now));
            let fetched = store_get(saved, record_key(new_node.identity->0));
            restore_step(new_node, fetched) == StepView::Call(
                RequestView::PatchNode {
                    node: new_node.identity->0,
                    labels: old_node.labels,
                    annotations: marker_annotations(),
                },
            )
        },
{
    let labels = old_node.labels;
    if labels == Map::<Seq<char>, Seq<char>>::empty() || reads_back(labels) {
        let record = backup_of(labels)->0;
        assert(stored_labels(record) == Some(labels));
        assert(merged_labels(new_node.labels, labels) =~= labels);
    }
}

/// A restoration never changes a label that the node already has; it adds
/// the saved labels whose keys the node lacks, and adds nothing else.
pub proof fn lemma_existing_labels_win(
    current: Map<Seq<char>, Seq<char>>,
    backup: Map<Seq<char>, Seq<char>>,
)
    ensures
        merged_labels(current, backup).dom() == current.dom().union(backup.dom()),
        forall|key: Seq<char>| #[trigger]
            current.contains_key(key) ==> merged_labels(current, backup)[key] == current[key],
        forall|key: Seq<char>|
            !current.contains_key(key) && #[trigger] backup.contains_key(key) ==> merged_labels(
                current,
                backup,
            )[key] == backup[key],
{
    assert(merged_labels(current, backup).dom() =~= current.dom().union(backup.dom()));
}

/// A node without labels that is deleted and comes back has no labels after
/// it was restored, whatever the store held for its name before.
///
/// This does not hold where the deletion was overdue, since then the store
/// was left as it was.
pub proof fn lemma_no_residue(
    old_node: NodeView,
    now: int,
    new_node: NodeView,
    store: Map<Seq<char>, Map<Seq<char>, Seq<char>>>,
)
    requires
        old_node.identity is Some,
        new_node.identity == old_node.identity,
        old_node.labels == Map::<Seq<char>, Seq<char>>::empty(),
        !deletion_overdue(old_node, now),
        new_node.labels == Map::<Seq<char>, Seq<char>>::empty(),
        !is_restored(new_node),
    ensures
        ({
            let saved = store_after(store, cleanup_step(old_node, now));
            let fetched = store_get(saved, record_key(new_node.identity->0));
            restore_step(new_node, fetched) == StepView::Call(
                RequestView::PatchNode {
                    node: new_node.identity->0,
                    labels: Map::empty(),
                    annotations: marker_annotations(),
                },
            )
        }),
{
    lemma_round_trip(old_node, now, new_node, store);
}

/// A node that carries the mark is never restored again: no step reads its
/// backup or changes its labels, at whatever point a reconciliation stands.
/// Every restoring patch sets the mark.
pub proof fn lemma_one_shot_restore(node: NodeView, now: int, reply: ReplyView)
    ensures
        is_restored(node) ==> apply_step(node) == StepView::Done(Action::AwaitChange),
        is_restored(node) ==> !touches_labels(reconcile_step(node, now)),
        is_restored(node) ==> !touches_labels(resume_step(node, reply)),
        match resume_step(node, reply) {
            StepView::Call(RequestView::PatchNode { annotations, .. }) => annotations.contains_key(
                RESTORED_ANNOTATION_KEY@,
            ),
            _ => true,
        },
{
}

/// A deletion that is overdue is not held back by the store: the cleanup ends
/// without a write, and the reconciliation goes straight to the release of
/// the token.
pub proof fn lemma_safety_valve(node: NodeView, now: int)
    requires
        deletion_overdue(node, now),
    ensures
        cleanup_step(node, now) == StepView::Done(Action::AwaitChange),
        node.identity is Some && lifecycle_of(node) == Lifecycle::PendingCleanup
            ==> reconcile_step(node, now) == release_step(node),
{
}

/// The token is taken off only once the cleanup has succeeded: at the start
/// of a reconciliation only of a node whose deletion is pending and overdue,
/// and later only after the backup was written.
pub proof fn lemma_token_released_after_cleanup(node: NodeView, now: int, reply: ReplyView)
    ensures
        reconcile_step(node, now) matches StepView::Call(RequestView::RemoveFinalizer { .. })
            ==> lifecycle_of(node) == Lifecycle::PendingCleanup && deletion_overdue(node, now),
        resume_step(node, reply) matches StepView::Call(RequestView::RemoveFinalizer { .. })
            ==> reply matches ReplyView::BackupWritten(Ok(_)),
        reconcile_step(node, now) matches StepView::Call(
            RequestView::RemoveFinalizer { index, .. },
        ) ==> token_place(node.finalizers) == Some(index),
{
}

/// A node that is being deleted is never handled as one that stays: its
/// reconciliation does not add the token and does not restore labels.
pub proof fn lemma_no_way_back(node: NodeView, now: int)
    requires
        node.deletion_requested_at is Some,
    ensures
        !touches_labels(reconcile_step(node, now)),
        !(reconcile_step(node, now) matches StepView::Call(RequestView::AddFinalizer { .. })),
{
}

} // verus!
