//! The finalizer-gated life of a node, and the course of one reconciliation.
//!
//! A node is first seen without the finalizer token; the controller adds it.
//! While the token stands, a request to delete the node is held back until
//! the node's labels are saved; then the token is taken off and the cluster
//! completes the deletion. A reconciliation proceeds in steps: each step
//! either names a call to make or ends the reconciliation, and the outcome of
//! a call decides the step that follows.

use crate::backup::{cleanup_node, cleanup_step};
use crate::model::{
    Action, ApiFailure, ErrorView, NodeRecord, NodeView, ReconcileError, Reply,
    ReplyView, Request, RequestView, Step, StepView, Timestamp, FINALIZER_NAME,
};
use crate::restore::{apply_node, apply_step, restore_node, restore_step};
use vstd::prelude::*;
use vstd::string::*;

verus! {

/// Where a node stands between its first sighting and its removal.
#[derive(Clone, Copy, Debug, PartialEq, Eq, Structural)]
pub enum Lifecycle {
    /// No token, no deletion asked for: the node was not seen before.
    Unregistered,
    /// The token stands and no deletion was asked for.
    Active,
    /// The token stands and deletion was asked for: the labels are to be saved.
    PendingCleanup,
    /// Deletion was asked for and the token is off: nothing is left to do.
    Removed,
}

/// The token stands at `place` and nowhere before it.
pub open spec fn token_first_at(finalizers: Seq<Seq<char>>, place: int) -> bool {
    &&& 0 <= place < finalizers.len()
    &&& finalizers[place] == FINALIZER_NAME@
    &&& forall|j: int| 0 <= j < place ==> finalizers[j] != FINALIZER_NAME@
}

/// The first place at which the token stands among `finalizers`, if it stands
/// anywhere.
pub open spec fn token_place(finalizers: Seq<Seq<char>>) -> Option<int> {
    if exists|place: int| token_first_at(finalizers, place) {
        Some(choose|place: int| token_first_at(finalizers, place))
    } else {
        None
    }
}

/// The state of a node, read off its finalizers and its deletion request.
pub open spec fn lifecycle_of(node: NodeView) -> Lifecycle {
    if token_place(node.finalizers) is Some {
        if node.deletion_requested_at is Some {
            Lifecycle::PendingCleanup
        } else {
            Lifecycle::Active
        }
    } else {
        if node.deletion_requested_at is Some {
            Lifecycle::Removed
        } else {
            Lifecycle::Unregistered
        }
    }
}

/// What follows a successful cleanup: the token is taken off, where it stands.
pub open spec fn release_step(node: NodeView) -> StepView {
    match node.identity {
        Some(name) => match token_place(node.finalizers) {
            Some(index) => StepView::Call(RequestView::RemoveFinalizer { node: name, index }),
            None => StepView::Done(Action::AwaitChange),
        },
        None => StepView::Failed(ErrorView::MissingNodeName),
    }
}

/// A cleanup that ended without error is followed by the release of the
/// token; a cleanup that has a call to make, or failed, stands as it is.
pub open spec fn gated_cleanup(node: NodeView, cleanup: StepView) -> StepView {
    match cleanup {
        StepView::Done(_) => release_step(node),
        _ => cleanup,
    }
}

/// The first step of a reconciliation of `node` at the time `now`.
pub open spec fn reconcile_step(node: NodeView, now: int) -> StepView {
    match node.identity {
        None => StepView::Failed(ErrorView::MissingNodeName),
        Some(name) => match lifecycle_of(node) {
            Lifecycle::Unregistered => StepView::Call(RequestView::AddFinalizer { node: name }),
            Lifecycle::Active => apply_step(node),
            Lifecycle::PendingCleanup => gated_cleanup(node, cleanup_step(node, now)),
            Lifecycle::Removed => StepView::Done(Action::AwaitChange),
        },
    }
}

/// The step that follows a call of which `reply` tells the outcome.
pub open spec fn resume_step(node: NodeView, reply: ReplyView) -> StepView {
    match reply {
        ReplyView::FinalizerAdded(Ok(_)) => apply_step(node),
        ReplyView::FinalizerAdded(Err(failure)) => StepView::Failed(
            ErrorView::Finalizer(failure.message),
        ),
        ReplyView::BackupFetched(fetched) => restore_step(node, fetched),
        ReplyView::NodePatched(Ok(_)) => StepView::Done(Action::AwaitChange),
        ReplyView::NodePatched(Err(failure)) => StepView::Failed(ErrorView::Kube(failure)),
        ReplyView::BackupWritten(Ok(_)) => release_step(node),
        ReplyView::BackupWritten(Err(failure)) => StepView::Failed(ErrorView::Kube(failure)),
        ReplyView::FinalizerRemoved(Ok(_)) => StepView::Done(Action::AwaitChange),
        ReplyView::FinalizerRemoved(Err(failure)) => StepView::Failed(
            ErrorView::Finalizer(failure.message),
        ),
    }
}

/// Finds the first place at which the token stands among the node's finalizers.
pub fn finalizer_index(node: &NodeRecord) -> (place: Option<usize>)
    ensures
        match place {
            Some(index) => token_place(node@.finalizers) == Some(index as int),
            None => token_place(node@.finalizers) is None,
        },
{
    let token = String::from_str(FINALIZER_NAME);
    let mut i: usize = 0;
    while i < node.finalizers.len()
        invariant
            i <= node.finalizers.len(),
            token@ == FINALIZER_NAME@,
            forall|j: int| 0 <= j < i ==> node@.finalizers[j] != FINALIZER_NAME@,
        decreases node.finalizers.len() - i,
    {
        if node.finalizers[i] == token {
            proof {
                assert(token_first_at(node@.finalizers, i as int));
                let chosen = choose|place: int| token_first_at(node@.finalizers, place);
                assert(chosen == i);
            }
            return Some(i);
        }
        i = i + 1;
    }
    None
}

/// The state of a node.
pub fn lifecycle(node: &NodeRecord) -> (state: Lifecycle)
    ensures
        state == lifecycle_of(node@),
{
    let held = finalizer_index(node).is_some();
    let leaving = node.deletion_requested_at.is_some();
    if held {
        if leaving {
            Lifecycle::PendingCleanup
        } else {
            Lifecycle::Active
        }
    } else {
        if leaving {
            Lifecycle::Removed
        } else {
            Lifecycle::Unregistered
        }
    }
}

/// Asks for the token to be taken off a node whose labels are saved.
pub fn release_node(node: &NodeRecord) -> (step: Step)
    ensures
        step@ == release_step(node@),
{
    match &node.identity {
        Some(name) => match finalizer_index(node) {
            Some(index) => Step::Call(Request::RemoveFinalizer { node: name.clone(), index }),
            None => Step::Done(Action::AwaitChange),
        },
        None => Step::Failed(ReconcileError::MissingNodeName),
    }
}

/// Begins a reconciliation: decides from the node as it is seen at the time
/// `now` whether there is anything to do, and what comes first.
pub fn reconcile(node: &NodeRecord, now: Timestamp) -> (step: Step)
    ensures
        step@ == reconcile_step(node@, now@),
{
    let name = match &node.identity {
        Some(name) => name,
        None => {
            return Step::Failed(ReconcileError::MissingNodeName);
        },
    };
    match lifecycle(node) {
        Lifecycle::Unregistered => Step::Call(Request::AddFinalizer { node: name.clone() }),
        Lifecycle::Active => apply_node(node),
        Lifecycle::PendingCleanup => match cleanup_node(node, now) {
            Step::Done(_) => release_node(node),
            step => step,
        },
        Lifecycle::Removed => Step::Done(Action::AwaitChange),
    }
}

/// A failed change of the finalizers, as the error of a reconciliation.
fn finalizer_failed(failure: ApiFailure) -> (step: Step)
    ensures
        step@ == StepView::Failed(ErrorView::Finalizer(failure@.message)),
{
    Step::Failed(ReconcileError::Finalizer(failure.message))
}

/// Goes on with a reconciliation after a call was made.
pub fn resume(node: &NodeRecord, reply: Reply) -> (step: Step)
    ensures
        step@ == resume_step(node@, reply@),
{
    match reply {
        Reply::FinalizerAdded(Ok(_)) => apply_node(node),
        Reply::FinalizerAdded(Err(failure)) => finalizer_failed(failure),
        Reply::BackupFetched(fetched) => restore_node(node, fetched),
        Reply::NodePatched(Ok(_)) => Step::Done(Action::AwaitChange),
        Reply::NodePatched(Err(failure)) => Step::Failed(ReconcileError::Kube(failure)),
        Reply::BackupWritten(Ok(_)) => release_node(node),
        Reply::BackupWritten(Err(failure)) => Step::Failed(ReconcileError::Kube(failure)),
        Reply::FinalizerRemoved(Ok(_)) => Step::Done(Action::AwaitChange),
        Reply::FinalizerRemoved(Err(failure)) => finalizer_failed(failure),
    }
}

} // verus!
