//! The values that pass between the controller's decisions and the cluster:
//! what is known of a node, what a backup record holds, what is asked of the
//! cluster and what it answers.
//!
//! Each type has a view made of plain mathematical values, and the contracts
//! of the crate are written over those views.

use crate::strmap::StrMap;
use vstd::prelude::*;

verus! {

/// Namespace in which the backup records are kept.
pub const CONFIGMAP_NAMESPACE: &'static str = "default";

/// The token that holds back the deletion of a node until its labels are saved.
pub const FINALIZER_NAME: &'static str = "nodelabelpreserver.example.com/finalizer";

/// The name under which the controller owns the fields it writes.
pub const SERVICE_NAME: &'static str = "node-label-preserver";

/// The field of a backup record that holds the labels as JSON text. The field
/// is left out when there are no labels to keep.
pub const JSON_STORAGE_KEY: &'static str = "preserved_labels_json";

/// The annotation that marks a node whose labels were restored. It is set once
/// for each incarnation of a node and is absent before.
pub const RESTORED_ANNOTATION_KEY: &'static str = "nodelabelpreserver.example.com/labels-restored";

/// The value that the marking annotation is given.
pub const RESTORED_ANNOTATION_VALUE: &'static str = "1";

/// A point in time, in nanoseconds since the Unix epoch.
#[derive(Clone, Copy, Debug, PartialEq, Eq)]
pub struct Timestamp {
    pub nanos: i128,
}

impl View for Timestamp {
    type V = int;

    open spec fn view(&self) -> int {
        self.nanos as int
    }
}

/// A node as one notification shows it.
#[derive(Clone, Debug)]
pub struct NodeRecord {
    /// The node's name; a notification without one cannot be acted on.
    pub identity: Option<String>,
    pub labels: StrMap,
    pub annotations: StrMap,
    pub finalizers: Vec<String>,
    /// When deletion was asked for, if it was.
    pub deletion_requested_at: Option<Timestamp>,
}

/// A node in plain values.
pub ghost struct NodeView {
    pub identity: Option<Seq<char>>,
    pub labels: Map<Seq<char>, Seq<char>>,
    pub annotations: Map<Seq<char>, Seq<char>>,
    pub finalizers: Seq<Seq<char>>,
    pub deletion_requested_at: Option<int>,
}

/// The strings of a vector as plain values.
pub open spec fn string_views(strings: Seq<String>) -> Seq<Seq<char>> {
    Seq::new(strings.len(), |i: int| strings[i]@)
}

impl View for NodeRecord {
    type V = NodeView;

    open spec fn view(&self) -> NodeView {
        NodeView {
            identity: match self.identity {
                Some(name) => Some(name@),
                None => None,
            },
            labels: self.labels@,
            annotations: self.annotations@,
            finalizers: string_views(self.finalizers@),
            deletion_requested_at: match self.deletion_requested_at {
                Some(at) => Some(at@),
                None => None,
            },
        }
    }
}

/// What the store holds for one node: named fields with text values.
#[derive(Clone, Debug)]
pub struct BackupRecord {
    pub data: StrMap,
}

impl View for BackupRecord {
    type V = Map<Seq<char>, Seq<char>>;

    open spec fn view(&self) -> Map<Seq<char>, Seq<char>> {
        self.data@
    }
}

/// A failed call to the cluster or to the store.
#[derive(Clone, Debug)]
pub struct ApiFailure {
    /// The status code of the answer, where there was an answer.
    pub code: Option<u16>,
    pub message: String,
}

/// A failed call in plain values.
pub ghost struct ApiFailureView {
    pub code: Option<u16>,
    pub message: Seq<char>,
}

impl View for ApiFailure {
    type V = ApiFailureView;

    open spec fn view(&self) -> ApiFailureView {
        ApiFailureView { code: self.code, message: self.message@ }
    }
}

/// What the caller is to do once a reconciliation has ended without error.
#[derive(Clone, Copy, Debug, PartialEq, Eq, Structural)]
pub enum Action {
    /// Wait for the next change of the node.
    AwaitChange,
    /// Look at the node again after this many seconds.
    Requeue(u64),
}

/// Why a reconciliation failed.
#[derive(Debug)]
pub enum ReconcileError {
    /// The notification carried no node name.
    MissingNodeName,
    /// The cluster or the store failed.
    Kube(ApiFailure),
    /// Stored labels could not be read, or labels could not be written, as JSON.
    Serialization(serde_json::Error),
    /// The finalizer token could not be added or removed.
    Finalizer(String),
}

/// An error in plain values.
pub ghost enum ErrorView {
    MissingNodeName,
    Kube(ApiFailureView),
    Serialization,
    Finalizer(Seq<char>),
}

impl View for ReconcileError {
    type V = ErrorView;

    open spec fn view(&self) -> ErrorView {
        match self {
            ReconcileError::MissingNodeName => ErrorView::MissingNodeName,
            ReconcileError::Kube(failure) => ErrorView::Kube(failure@),
            ReconcileError::Serialization(_) => ErrorView::Serialization,
            ReconcileError::Finalizer(message) => ErrorView::Finalizer(message@),
        }
    }
}

/// A call that the caller makes on behalf of the controller.
#[derive(Clone, Debug)]
pub enum Request {
    /// Add the finalizer token to the node.
    AddFinalizer { node: String },
    /// Remove the finalizer token, which stands at `index` among the node's
    /// finalizers.
    RemoveFinalizer { node: String, index: usize },
    /// Read the backup record stored under `key`.
    GetBackup { key: String },
    /// Store `record` under `key`, in place of whatever is there.
    PutBackup { key: String, record: BackupRecord },
    /// Set these labels and annotations on the node, owning them by force.
    PatchNode { node: String, labels: StrMap, annotations: StrMap },
}

/// A request in plain values.
pub ghost enum RequestView {
    AddFinalizer { node: Seq<char> },
    RemoveFinalizer { node: Seq<char>, index: int },
    GetBackup { key: Seq<char> },
    PutBackup { key: Seq<char>, record: Map<Seq<char>, Seq<char>> },
    PatchNode {
        node: Seq<char>,
        labels: Map<Seq<char>, Seq<char>>,
        annotations: Map<Seq<char>, Seq<char>>,
    },
}

impl View for Request {
    type V = RequestView;

    open spec fn view(&self) -> RequestView {
        match self {
            Request::AddFinalizer { node } => RequestView::AddFinalizer { node: node@ },
            Request::RemoveFinalizer { node, index } => RequestView::RemoveFinalizer {
                node: node@,
                index: *index as int,
            },
            Request::GetBackup { key } => RequestView::GetBackup { key: key@ },
            Request::PutBackup { key, record } => RequestView::PutBackup {
                key: key@,
                record: record@,
            },
            Request::PatchNode { node, labels, annotations } => RequestView::PatchNode {
                node: node@,
                labels: labels@,
                annotations: annotations@,
            },
        }
    }
}

/// A request that was made, with what came back.
#[derive(Debug)]
pub enum Reply {
    FinalizerAdded(Result<(), ApiFailure>),
    BackupFetched(Result<BackupRecord, ApiFailure>),
    NodePatched(Result<(), ApiFailure>),
    BackupWritten(Result<(), ApiFailure>),
    FinalizerRemoved(Result<(), ApiFailure>),
}

/// A reply in plain values.
pub ghost enum ReplyView {
    FinalizerAdded(Result<(), ApiFailureView>),
    BackupFetched(Result<Map<Seq<char>, Seq<char>>, ApiFailureView>),
    NodePatched(Result<(), ApiFailureView>),
    BackupWritten(Result<(), ApiFailureView>),
    FinalizerRemoved(Result<(), ApiFailureView>),
}

/// The outcome of a call that returns nothing, in plain values.
pub open spec fn outcome_view(outcome: Result<(), ApiFailure>) -> Result<(), ApiFailureView> {
    match outcome {
        Ok(_) => Ok(()),
        Err(failure) => Err(failure@),
    }
}

/// The outcome of reading a record, in plain values.
pub open spec fn fetched_view(fetched: Result<BackupRecord, ApiFailure>) -> Result<
    Map<Seq<char>, Seq<char>>,
    ApiFailureView,
> {
    match fetched {
        Ok(record) => Ok(record@),
        Err(failure) => Err(failure@),
    }
}

impl View for Reply {
    type V = ReplyView;

    open spec fn view(&self) -> ReplyView {
        match self {
            Reply::FinalizerAdded(outcome) => ReplyView::FinalizerAdded(outcome_view(*outcome)),
            Reply::BackupFetched(fetched) => ReplyView::BackupFetched(fetched_view(*fetched)),
            Reply::NodePatched(outcome) => ReplyView::NodePatched(outcome_view(*outcome)),
            Reply::BackupWritten(outcome) => ReplyView::BackupWritten(outcome_view(*outcome)),
            Reply::FinalizerRemoved(outcome) => ReplyView::FinalizerRemoved(outcome_view(*outcome)),
        }
    }
}

/// How a reconciliation goes on: with a call to make, or not at all.
#[derive(Debug)]
pub enum Step {
    /// Make this call and come back with its outcome.
    Call(Request),
    /// The reconciliation has ended without error.
    Done(Action),
    /// The reconciliation has failed and is to be tried again later.
    Failed(ReconcileError),
}

/// A step in plain values.
pub ghost enum StepView {
    Call(RequestView),
    Done(Action),
    Failed(ErrorView),
}

impl View for Step {
    type V = StepView;

    open spec fn view(&self) -> StepView {
        match self {
            Step::Call(request) => StepView::Call(request@),
            Step::Done(action) => StepView::Done(*action),
            Step::Failed(error) => StepView::Failed(error@),
        }
    }
}

} // verus!
