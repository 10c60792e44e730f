//! Work items as the workload generator queues them.

use vstd::prelude::*;

verus! {

/// A request to read the value under a key.
#[derive(Debug, PartialEq, Eq)]
pub struct Get {
    pub key: String,
}

/// A request to store a value under a key.
#[derive(Debug, PartialEq, Eq)]
pub struct Put {
    pub key: String,
    pub value: Vec<u8>,
}

/// A request to remove a key.
#[derive(Debug, PartialEq, Eq)]
pub struct Delete {
    pub key: String,
}

/// One request to the store, of any kind.
#[derive(Debug, PartialEq, Eq)]
pub enum StoreClientRequest {
    Get(Get),
    Put(Put),
    Delete(Delete),
    /// A request of a kind that this client does not dispatch.
    Other,
}

/// One item of the shared queue. An item is consumed once, by one worker.
#[derive(Debug, PartialEq, Eq)]
pub enum ClientWorkItemKind {
    Request { request: StoreClientRequest },
    /// Reserved: asks for a reconnect, which this client does not do.
    Reconnect,
}

/// A request of one of the kinds that are dispatched.
#[derive(Debug, PartialEq, Eq)]
pub enum Operation {
    Get(Get),
    Put(Put),
    Delete(Delete),
}

/// The three kinds of operation, as they are counted.
#[derive(Debug, Clone, Copy, PartialEq, Eq, Structural)]
pub enum OpKind {
    Get,
    Put,
    Delete,
}

/// An operation, as a mathematical value.
pub enum OperationView {
    Get { key: Seq<char> },
    Put { key: Seq<char>, value: Seq<u8> },
    Delete { key: Seq<char> },
}

/// A work item, as a mathematical value. A request stands for the operation
/// that it asks for, or for `None` where its kind is not dispatched.
pub enum WorkItemView {
    Request(Option<OperationView>),
    Reconnect,
}

impl OperationView {
    /// The kind under which the operation is counted.
    pub open spec fn kind(self) -> OpKind {
        match self {
            OperationView::Get { .. } => OpKind::Get,
            OperationView::Put { .. } => OpKind::Put,
            OperationView::Delete { .. } => OpKind::Delete,
        }
    }
}

impl View for Operation {
    type V = OperationView;

    open spec fn view(&self) -> OperationView {
        match self {
            Operation::Get(r) => OperationView::Get { key: r.key@ },
            Operation::Put(r) => OperationView::Put { key: r.key@, value: r.value@ },
            Operation::Delete(r) => OperationView::Delete { key: r.key@ },
        }
    }
}

impl View for StoreClientRequest {
    type V = Option<OperationView>;

    open spec fn view(&self) -> Option<OperationView> {
        match self {
            StoreClientRequest::Get(r) => Some(OperationView::Get { key: r.key@ }),
            StoreClientRequest::Put(r) => Some(OperationView::Put { key: r.key@, value: r.value@ }),
            StoreClientRequest::Delete(r) => Some(OperationView::Delete { key: r.key@ }),
            StoreClientRequest::Other => None,
        }
    }
}

impl View for ClientWorkItemKind {
    type V = WorkItemView;

    open spec fn view(&self) -> WorkItemView {
        match self {
            ClientWorkItemKind::Request { request } => WorkItemView::Request(request@),
            ClientWorkItemKind::Reconnect => WorkItemView::Reconnect,
        }
    }
}

impl Operation {
    /// The kind under which the operation is counted.
    pub fn kind(&self) -> (kind: OpKind)
        ensures
            kind == self@.kind(),
    {
        match self {
            Operation::Get(_) => OpKind::Get,
            Operation::Put(_) => OpKind::Put,
            Operation::Delete(_) => OpKind::Delete,
        }
    }
}

impl StoreClientRequest {
    /// The operation that the request asks for, or `None` for a request of
    /// a kind that is not dispatched.
    pub fn operation(self) -> (operation: Option<Operation>)
        ensures
            match operation {
                Some(op) => self@ == Some(op@),
                None => self@ is None,
            },
    {
        match self {
            StoreClientRequest::Get(r) => Some(Operation::Get(r)),
            StoreClientRequest::Put(r) => Some(Operation::Put(r)),
            StoreClientRequest::Delete(r) => Some(Operation::Delete(r)),
            StoreClientRequest::Other => None,
        }
    }
}

} // verus!
