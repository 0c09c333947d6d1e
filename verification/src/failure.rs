//! What can go wrong during an attempt, and which failures the service
//! survives.

use vstd::prelude::*;
use vstd::string::*;

verus! {

/// A failure of the service. Each variant but the first carries what the
/// failed operation reported.
#[derive(Clone, Debug, PartialEq, Eq)]
pub enum TezedgeNodeControllerError {
    /// The node did not answer the question for its head.
    NodeUnreachable,
    /// The address of the node cannot be resolved.
    MalformedUrl(String),
    /// A request to the node failed in another way.
    FailedRequest(String),
    /// The container runtime refused an operation.
    DockerError(String),
    /// A copy, move or removal of files failed.
    FilesystemError(String),
    /// Reading or writing a file failed.
    IoError(String),
}

/// The mathematical content of a `TezedgeNodeControllerError`.
pub enum FailureView {
    NodeUnreachable,
    MalformedUrl(Seq<char>),
    FailedRequest(Seq<char>),
    DockerError(Seq<char>),
    FilesystemError(Seq<char>),
    IoError(Seq<char>),
}

impl DeepView for TezedgeNodeControllerError {
    type V = FailureView;

    open spec fn deep_view(&self) -> FailureView {
        match *self {
            TezedgeNodeControllerError::NodeUnreachable => FailureView::NodeUnreachable,
            TezedgeNodeControllerError::MalformedUrl(detail) => FailureView::MalformedUrl(detail@),
            TezedgeNodeControllerError::FailedRequest(detail) => FailureView::FailedRequest(
                detail@,
            ),
            TezedgeNodeControllerError::DockerError(detail) => FailureView::DockerError(detail@),
            TezedgeNodeControllerError::FilesystemError(detail) => FailureView::FilesystemError(
                detail@,
            ),
            TezedgeNodeControllerError::IoError(detail) => FailureView::IoError(detail@),
        }
    }
}

impl View for TezedgeNodeControllerError {
    type V = FailureView;

    open spec fn view(&self) -> FailureView {
        self.deep_view()
    }
}

/// The text that describes a failure.
pub open spec fn failure_text(failure: FailureView) -> Seq<char> {
    match failure {
        FailureView::NodeUnreachable => "The defined tezedge node is unreachable"@,
        FailureView::MalformedUrl(detail) => "Failed to parse url: "@ + detail,
        FailureView::FailedRequest(detail) => "Request to the node failed: "@ + detail,
        FailureView::DockerError(detail) => "Docker operation failed: "@ + detail,
        FailureView::FilesystemError(detail) => "Filesystem operation failed: "@ + detail,
        FailureView::IoError(detail) => "Io error: "@ + detail,
    }
}

/// Whether the service goes on after a failure: only an unreachable node is
/// waited for; every other failure needs an operator.
pub open spec fn is_transient_failure(failure: FailureView) -> bool {
    failure is NodeUnreachable
}

impl TezedgeNodeControllerError {
    /// The text that describes this failure.
    pub fn to_string(&self) -> (r: String)
        ensures
            r@ == failure_text(self@),
    {
        match self {
            TezedgeNodeControllerError::NodeUnreachable => {
                "The defined tezedge node is unreachable".to_owned()
            },
            TezedgeNodeControllerError::MalformedUrl(detail) => crate::text::concat2(
                "Failed to parse url: ",
                detail.as_str(),
            ),
            TezedgeNodeControllerError::FailedRequest(detail) => crate::text::concat2(
                "Request to the node failed: ",
                detail.as_str(),
            ),
            TezedgeNodeControllerError::DockerError(detail) => crate::text::concat2(
                "Docker operation failed: ",
                detail.as_str(),
            ),
            TezedgeNodeControllerError::FilesystemError(detail) => crate::text::concat2(
                "Filesystem operation failed: ",
                detail.as_str(),
            ),
            TezedgeNodeControllerError::IoError(detail) => crate::text::concat2(
                "Io error: ",
                detail.as_str(),
            ),
        }
    }

    /// Whether the service goes on after this failure.
    pub fn is_transient(&self) -> (r: bool)
        ensures
            r == is_transient_failure(self@),
    {
        match self {
            TezedgeNodeControllerError::NodeUnreachable => true,
            _ => false,
        }
    }

    /// A copy of this failure.
    pub fn duplicate(&self) -> (r: TezedgeNodeControllerError)
        ensures
            r@ == self@,
    {
        match self {
            TezedgeNodeControllerError::NodeUnreachable => {
                TezedgeNodeControllerError::NodeUnreachable
            },
            TezedgeNodeControllerError::MalformedUrl(detail) => {
                TezedgeNodeControllerError::MalformedUrl(detail.clone())
            },
            TezedgeNodeControllerError::FailedRequest(detail) => {
                TezedgeNodeControllerError::FailedRequest(detail.clone())
            },
            TezedgeNodeControllerError::DockerError(detail) => {
                TezedgeNodeControllerError::DockerError(detail.clone())
            },
            TezedgeNodeControllerError::FilesystemError(detail) => {
                TezedgeNodeControllerError::FilesystemError(detail.clone())
            },
            TezedgeNodeControllerError::IoError(detail) => TezedgeNodeControllerError::IoError(
                detail.clone(),
            ),
        }
    }
}

} // verus!
