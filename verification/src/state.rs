//! The checkpointed state of one operation, as looked up during replay.
use vstd::prelude::*;
use crate::error::ErrorObject;
use crate::operation::{Operation, OperationStatus, OperationType};

verus! {

/// The result of looking up an operation's checkpoint: the operation if one
/// was checkpointed, nothing otherwise.
#[derive(Debug, Clone)]
pub struct CheckpointedResult {
    /// The checkpointed operation, if any.
    pub operation: Option<Operation>,
}

impl CheckpointedResult {
    /// The status of the checkpointed operation, if any.
    pub open spec fn status_view(self) -> Option<OperationStatus> {
        match self.operation {
            Some(op) => Some(op.status),
            None => None,
        }
    }

    /// Wraps a lookup result.
    pub fn new(operation: Option<Operation>) -> (r: Self)
        ensures
            r.operation == operation,
    {
        CheckpointedResult { operation }
    }

    /// A lookup that found nothing.
    pub fn empty() -> (r: Self)
        ensures
            r.operation is None,
    {
        CheckpointedResult { operation: None }
    }

    /// True when an operation was checkpointed.
    pub fn is_existent(&self) -> (r: bool)
        ensures
            r == self.operation is Some,
    {
        self.operation.is_some()
    }

    /// The checkpointed operation.
    pub fn operation(&self) -> (r: Option<&Operation>)
        ensures
            r == match self.operation {
                Some(op) => Some(&op),
                None => None::<&Operation>,
            },
    {
        self.operation.as_ref()
    }

    /// The type of the checkpointed operation.
    pub fn operation_type(&self) -> (r: Option<OperationType>)
        ensures
            r == match self.operation {
                Some(op) => Some(op.operation_type),
                None => None,
            },
    {
        match &self.operation {
            Some(op) => Some(op.operation_type),
            None => None,
        }
    }

    /// The status of the checkpointed operation.
    pub fn status(&self) -> (r: Option<OperationStatus>)
        ensures
            r == self.status_view(),
    {
        match &self.operation {
            Some(op) => Some(op.status),
            None => None,
        }
    }

    /// True when the checkpointed operation has exactly the given status.
    pub fn has_status(&self, status: OperationStatus) -> (r: bool)
        ensures
            r == (self.status_view() == Some(status)),
    {
        match &self.operation {
            Some(op) => op.status == status,
            None => false,
        }
    }

    /// True when the operation succeeded.
    pub fn is_succeeded(&self) -> (r: bool)
        ensures
            r == (self.status_view() == Some(OperationStatus::Succeeded)),
    {
        self.has_status(OperationStatus::Succeeded)
    }

    /// True when the operation failed (status Failed only).
    pub fn is_failed(&self) -> (r: bool)
        ensures
            r == (self.status_view() == Some(OperationStatus::Failed)),
    {
        self.has_status(OperationStatus::Failed)
    }

    /// True when the operation was cancelled.
    pub fn is_cancelled(&self) -> (r: bool)
        ensures
            r == (self.status_view() == Some(OperationStatus::Cancelled)),
    {
        self.has_status(OperationStatus::Cancelled)
    }

    /// True when the operation timed out.
    pub fn is_timed_out(&self) -> (r: bool)
        ensures
            r == (self.status_view() == Some(OperationStatus::TimedOut)),
    {
        self.has_status(OperationStatus::TimedOut)
    }

    /// True when the operation was stopped externally.
    pub fn is_stopped(&self) -> (r: bool)
        ensures
            r == (self.status_view() == Some(OperationStatus::Stopped)),
    {
        self.has_status(OperationStatus::Stopped)
    }

    /// True when the operation is waiting for a retry.
    pub fn is_pending(&self) -> (r: bool)
        ensures
            r == (self.status_view() == Some(OperationStatus::Pending)),
    {
        self.has_status(OperationStatus::Pending)
    }

    /// True when the operation is ready to resume.
    pub fn is_ready(&self) -> (r: bool)
        ensures
            r == (self.status_view() == Some(OperationStatus::Ready)),
    {
        self.has_status(OperationStatus::Ready)
    }

    /// True when an operation was checkpointed with a terminal status.
    pub fn is_terminal(&self) -> (r: bool)
        ensures
            r == (self.status_view() matches Some(s) && s.spec_is_terminal()),
    {
        match &self.operation {
            Some(op) => op.status.is_terminal(),
            None => false,
        }
    }

    /// The stored result (see `Operation::result_view`).
    pub open spec fn result_view(self) -> Option<Seq<char>> {
        match self.operation {
            Some(op) => op.result_view(),
            None => None,
        }
    }

    /// The stored result of the operation.
    pub fn result(&self) -> (r: Option<&str>)
        ensures
            match r {
                Some(s) => self.result_view() == Some(s@),
                None => self.result_view() is None,
            },
    {
        match &self.operation {
            Some(op) => op.get_result(),
            None => None,
        }
    }

    /// The stored error of the operation.
    pub open spec fn error_view(self) -> Option<ErrorObject> {
        match self.operation {
            Some(op) => op.error,
            None => None,
        }
    }

    /// The stored error of the operation.
    pub fn error(&self) -> (r: Option<&ErrorObject>)
        ensures
            r == match self.error_view() {
                Some(e) => Some(&e),
                None => None::<&ErrorObject>,
            },
    {
        match &self.operation {
            Some(op) => op.error.as_ref(),
            None => None,
        }
    }

    /// The retry payload of a checkpointed STEP operation.
    pub open spec fn retry_payload_view(self) -> Option<Seq<char>> {
        match self.operation {
            Some(op) => op.retry_payload_view(),
            None => None,
        }
    }

    /// The retry payload of a checkpointed STEP operation.
    pub fn retry_payload(&self) -> (r: Option<&str>)
        ensures
            match r {
                Some(s) => self.retry_payload_view() == Some(s@),
                None => self.retry_payload_view() is None,
            },
    {
        match &self.operation {
            Some(op) => op.get_retry_payload(),
            None => None,
        }
    }

    /// The attempt number of a checkpointed STEP operation.
    pub open spec fn attempt_view(self) -> Option<u32> {
        match self.operation {
            Some(op) => op.attempt_view(),
            None => None,
        }
    }

    /// The attempt number of a checkpointed STEP operation.
    pub fn attempt(&self) -> (r: Option<u32>)
        ensures
            r == self.attempt_view(),
    {
        match &self.operation {
            Some(op) => op.get_attempt(),
            None => None,
        }
    }
}

} // verus!
