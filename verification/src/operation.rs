//! Operation records and checkpoint updates.
//!
//! An `Operation` is the checkpointed state of one unit of durable work; an
//! `OperationUpdate` is what the SDK sends to the service to change it.
use vstd::prelude::*;
use crate::error::{opt_view, ErrorObject};

verus! {

/// A checkpointed operation in a durable execution.
#[derive(Debug, Clone)]
pub struct Operation {
    /// Unique identifier for this operation
    pub operation_id: String,
    /// The type of operation (Step, Wait, Callback, etc.)
    pub operation_type: OperationType,
    /// Current status of the operation
    pub status: OperationStatus,
    /// Serialized result (legacy field; the type-specific details take precedence)
    pub result: Option<String>,
    /// Error details if the operation failed
    pub error: Option<ErrorObject>,
    /// Parent operation ID for nested operations
    pub parent_id: Option<String>,
    /// Optional human-readable name for the operation
    pub name: Option<String>,
    /// SDK-level categorization of the operation (e.g. "map", "parallel")
    pub sub_type: Option<String>,
    /// Start timestamp (milliseconds since epoch)
    pub start_timestamp: Option<i64>,
    /// End timestamp (milliseconds since epoch)
    pub end_timestamp: Option<i64>,
    /// Details for EXECUTION operations
    pub execution_details: Option<ExecutionDetails>,
    /// Details for STEP operations
    pub step_details: Option<StepDetails>,
    /// Details for WAIT operations
    pub wait_details: Option<WaitDetails>,
    /// Details for CALLBACK operations
    pub callback_details: Option<CallbackDetails>,
    /// Details for CHAINED_INVOKE operations
    pub chained_invoke_details: Option<ChainedInvokeDetails>,
    /// Details for CONTEXT operations
    pub context_details: Option<ContextDetails>,
}

/// Details specific to EXECUTION operations.
#[derive(Debug, Clone)]
pub struct ExecutionDetails {
    /// The input payload for the execution
    pub input_payload: Option<String>,
}

/// Details specific to STEP operations.
#[derive(Debug, Clone)]
pub struct StepDetails {
    /// The result payload if the step succeeded
    pub result: Option<String>,
    /// The current retry attempt (0-indexed)
    pub attempt: Option<u32>,
    /// Timestamp for the next retry attempt
    pub next_attempt_timestamp: Option<i64>,
    /// Error details if the step failed
    pub error: Option<ErrorObject>,
    /// State carried between retry attempts (wait-for-condition)
    pub payload: Option<String>,
}

/// Details specific to WAIT operations.
#[derive(Debug, Clone)]
pub struct WaitDetails {
    /// Timestamp when the wait is scheduled to end
    pub scheduled_end_timestamp: Option<i64>,
}

/// Details specific to CALLBACK operations.
#[derive(Debug, Clone)]
pub struct CallbackDetails {
    /// The callback ID for external systems to use
    pub callback_id: Option<String>,
    /// The result payload if the callback succeeded
    pub result: Option<String>,
    /// Error details if the callback failed
    pub error: Option<ErrorObject>,
}

/// Details specific to CHAINED_INVOKE operations.
#[derive(Debug, Clone)]
pub struct ChainedInvokeDetails {
    /// The result payload if the invocation succeeded
    pub result: Option<String>,
    /// Error details if the invocation failed
    pub error: Option<ErrorObject>,
}

/// Details specific to CONTEXT operations.
#[derive(Debug, Clone)]
pub struct ContextDetails {
    /// The result payload if the context succeeded
    pub result: Option<String>,
    /// Whether to replay children when loading state
    pub replay_children: Option<bool>,
    /// Error details if the context failed
    pub error: Option<ErrorObject>,
}

/// The type of operation in a durable execution.
#[derive(Debug, Clone, Copy, PartialEq, Eq, Structural)]
pub enum OperationType {
    /// The root execution operation
    Execution,
    /// A step operation (unit of work)
    Step,
    /// A wait/sleep operation
    Wait,
    /// A callback operation waiting for an external signal
    Callback,
    /// An invoke operation calling another Lambda function
    Invoke,
    /// A context operation for nested child contexts
    Context,
}

/// The status of an operation in a durable execution.
#[derive(Debug, Clone, Copy, PartialEq, Eq, Structural)]
pub enum OperationStatus {
    /// Started but not completed
    Started,
    /// Waiting for a retry
    Pending,
    /// Ready to resume execution
    Ready,
    /// Completed successfully
    Succeeded,
    /// Failed with an error
    Failed,
    /// Cancelled
    Cancelled,
    /// Timed out
    TimedOut,
    /// Stopped externally
    Stopped,
}

/// Action to perform on an operation during checkpoint.
#[derive(Debug, Clone, Copy, PartialEq, Eq, Structural)]
pub enum OperationAction {
    /// Start a new operation
    Start,
    /// Mark operation as succeeded
    Succeed,
    /// Mark operation as failed
    Fail,
    /// Cancel an operation (e.g. a wait)
    Cancel,
    /// Retry an operation, optionally carrying a state payload
    Retry,
}

/// Options for WAIT operations.
#[derive(Debug, Clone)]
pub struct WaitOptions {
    /// Number of seconds to wait
    pub wait_seconds: u64,
}

/// Options for STEP operations.
#[derive(Debug, Clone)]
pub struct StepOptions {
    /// Delay in seconds before the next retry attempt
    pub next_attempt_delay_seconds: Option<u64>,
}

/// Options for CALLBACK operations.
#[derive(Debug, Clone)]
pub struct CallbackOptions {
    /// Timeout in seconds for the callback
    pub timeout_seconds: Option<u64>,
    /// Heartbeat timeout in seconds
    pub heartbeat_timeout_seconds: Option<u64>,
}

/// Options for CHAINED_INVOKE operations.
#[derive(Debug, Clone)]
pub struct ChainedInvokeOptions {
    /// The function name or ARN to invoke
    pub function_name: String,
    /// Optional tenant ID for multi-tenant scenarios
    pub tenant_id: Option<String>,
}

/// Options for CONTEXT operations.
#[derive(Debug, Clone)]
pub struct ContextOptions {
    /// Whether to replay children when the context is loaded
    pub replay_children: Option<bool>,
}

/// An update to be checkpointed for an operation.
#[derive(Debug, Clone)]
pub struct OperationUpdate {
    /// Unique identifier for this operation
    pub operation_id: String,
    /// The action to perform
    pub action: OperationAction,
    /// The type of operation
    pub operation_type: OperationType,
    /// Serialized result or retry state (called "Payload" by the service)
    pub result: Option<String>,
    /// Error details if failing
    pub error: Option<ErrorObject>,
    /// Parent operation ID for nested operations
    pub parent_id: Option<String>,
    /// Optional human-readable name
    pub name: Option<String>,
    /// SDK-level categorization of the operation
    pub sub_type: Option<String>,
    /// Options for WAIT operations
    pub wait_options: Option<WaitOptions>,
    /// Options for STEP operations
    pub step_options: Option<StepOptions>,
    /// Options for CALLBACK operations
    pub callback_options: Option<CallbackOptions>,
    /// Options for CHAINED_INVOKE operations
    pub chained_invoke_options: Option<ChainedInvokeOptions>,
    /// Options for CONTEXT operations
    pub context_options: Option<ContextOptions>,
}

impl OperationType {
    /// The name shown for this type (also its debug form).
    pub open spec fn name_view(self) -> Seq<char> {
        match self {
            OperationType::Execution => "Execution"@,
            OperationType::Step => "Step"@,
            OperationType::Wait => "Wait"@,
            OperationType::Callback => "Callback"@,
            OperationType::Invoke => "Invoke"@,
            OperationType::Context => "Context"@,
        }
    }

    /// The name shown for this type.
    pub fn name_str(&self) -> (r: &'static str)
        ensures
            r@ == self.name_view(),
    {
        match self {
            OperationType::Execution => "Execution",
            OperationType::Step => "Step",
            OperationType::Wait => "Wait",
            OperationType::Callback => "Callback",
            OperationType::Invoke => "Invoke",
            OperationType::Context => "Context",
        }
    }

    /// The name shown for this type, as an owned string.
    pub fn to_display_string(&self) -> (r: String)
        ensures
            r@ == self.name_view(),
    {
        self.name_str().to_owned()
    }
}

impl OperationStatus {
    /// Terminal: every status but Started, Pending and Ready.
    pub open spec fn spec_is_terminal(self) -> bool {
        !(self is Started || self is Pending || self is Ready)
    }

    /// Failure: Failed, Cancelled, TimedOut or Stopped.
    pub open spec fn spec_is_failure(self) -> bool {
        self is Failed || self is Cancelled || self is TimedOut || self is Stopped
    }

    /// Returns true if this status represents a terminal state.
    pub fn is_terminal(&self) -> (r: bool)
        ensures
            r == self.spec_is_terminal(),
    {
        match self {
            OperationStatus::Started | OperationStatus::Pending | OperationStatus::Ready => false,
            _ => true,
        }
    }

    /// Returns true if this status represents a successful completion.
    pub fn is_success(&self) -> (r: bool)
        ensures
            r == (*self is Succeeded),
    {
        match self {
            OperationStatus::Succeeded => true,
            _ => false,
        }
    }

    /// Returns true if this status represents a failure.
    pub fn is_failure(&self) -> (r: bool)
        ensures
            r == self.spec_is_failure(),
    {
        match self {
            OperationStatus::Failed | OperationStatus::Cancelled | OperationStatus::TimedOut
            | OperationStatus::Stopped => true,
            _ => false,
        }
    }

    /// Returns true if the operation is waiting for a retry.
    pub fn is_pending(&self) -> (r: bool)
        ensures
            r == (*self is Pending),
    {
        match self {
            OperationStatus::Pending => true,
            _ => false,
        }
    }

    /// Returns true if the operation is ready to resume.
    pub fn is_ready(&self) -> (r: bool)
        ensures
            r == (*self is Ready),
    {
        match self {
            OperationStatus::Ready => true,
            _ => false,
        }
    }

    /// Returns true if the operation can be resumed: Started, Pending or Ready.
    pub fn is_resumable(&self) -> (r: bool)
        ensures
            r == !self.spec_is_terminal(),
    {
        match self {
            OperationStatus::Started | OperationStatus::Pending | OperationStatus::Ready => true,
            _ => false,
        }
    }

    /// The name shown for this status (also its debug form).
    pub open spec fn name_view(self) -> Seq<char> {
        match self {
            OperationStatus::Started => "Started"@,
            OperationStatus::Pending => "Pending"@,
            OperationStatus::Ready => "Ready"@,
            OperationStatus::Succeeded => "Succeeded"@,
            OperationStatus::Failed => "Failed"@,
            OperationStatus::Cancelled => "Cancelled"@,
            OperationStatus::TimedOut => "TimedOut"@,
            OperationStatus::Stopped => "Stopped"@,
        }
    }

    /// The name shown for this status.
    pub fn name_str(&self) -> (r: &'static str)
        ensures
            r@ == self.name_view(),
    {
        match self {
            OperationStatus::Started => "Started",
            OperationStatus::Pending => "Pending",
            OperationStatus::Ready => "Ready",
            OperationStatus::Succeeded => "Succeeded",
            OperationStatus::Failed => "Failed",
            OperationStatus::Cancelled => "Cancelled",
            OperationStatus::TimedOut => "TimedOut",
            OperationStatus::Stopped => "Stopped",
        }
    }

    /// The name shown for this status, as an owned string.
    pub fn to_display_string(&self) -> (r: String)
        ensures
            r@ == self.name_view(),
    {
        self.name_str().to_owned()
    }
}

impl OperationAction {
    /// The name shown for this action.
    pub open spec fn name_view(self) -> Seq<char> {
        match self {
            OperationAction::Start => "Start"@,
            OperationAction::Succeed => "Succeed"@,
            OperationAction::Fail => "Fail"@,
            OperationAction::Cancel => "Cancel"@,
            OperationAction::Retry => "Retry"@,
        }
    }

    /// The name shown for this action, as an owned string.
    pub fn to_display_string(&self) -> (r: String)
        ensures
            r@ == self.name_view(),
    {
        match self {
            OperationAction::Start => "Start".to_owned(),
            OperationAction::Succeed => "Succeed".to_owned(),
            OperationAction::Fail => "Fail".to_owned(),
            OperationAction::Cancel => "Cancel".to_owned(),
            OperationAction::Retry => "Retry".to_owned(),
        }
    }
}

impl Operation {
    /// The result of the type-specific details field, if that field holds one.
    pub open spec fn typed_result(self) -> Option<String> {
        match self.operation_type {
            OperationType::Step => match self.step_details {
                Some(d) => d.result,
                None => None,
            },
            OperationType::Callback => match self.callback_details {
                Some(d) => d.result,
                None => None,
            },
            OperationType::Invoke => match self.chained_invoke_details {
                Some(d) => d.result,
                None => None,
            },
            OperationType::Context => match self.context_details {
                Some(d) => d.result,
                None => None,
            },
            _ => None,
        }
    }

    /// The result of the operation: the type-specific one, else the legacy field.
    pub open spec fn result_view(self) -> Option<Seq<char>> {
        match self.typed_result() {
            Some(r) => Some(r@),
            None => opt_view(self.result),
        }
    }

    /// The retry payload of a STEP operation with step details.
    pub open spec fn retry_payload_view(self) -> Option<Seq<char>> {
        if self.operation_type == OperationType::Step && self.step_details is Some {
            opt_view(self.step_details->0.payload)
        } else {
            None
        }
    }

    /// The attempt number of a STEP operation with step details.
    pub open spec fn attempt_view(self) -> Option<u32> {
        if self.operation_type == OperationType::Step && self.step_details is Some {
            self.step_details->0.attempt
        } else {
            None
        }
    }

    /// Completed: Succeeded, Failed, Cancelled, TimedOut or Stopped.
    pub open spec fn spec_is_completed(self) -> bool {
        self.status.spec_is_terminal()
    }

    /// Failed: completed without succeeding (Failed, Cancelled, TimedOut or Stopped).
    pub open spec fn spec_is_failed(self) -> bool {
        self.status.spec_is_failure()
    }

    /// Creates a new Started operation with the given ID and type and no other data.
    pub fn new(operation_id: &str, operation_type: OperationType) -> (r: Self)
        ensures
            r.operation_id@ == operation_id@,
            r.operation_type == operation_type,
            r.status == OperationStatus::Started,
            r.result is None,
            r.error is None,
            r.parent_id is None,
            r.name is None,
            r.sub_type is None,
            r.start_timestamp is None,
            r.end_timestamp is None,
            r.execution_details is None,
            r.step_details is None,
            r.wait_details is None,
            r.callback_details is None,
            r.chained_invoke_details is None,
            r.context_details is None,
    {
        Operation {
            operation_id: operation_id.to_owned(),
            operation_type,
            status: OperationStatus::Started,
            result: None,
            error: None,
            parent_id: None,
            name: None,
            sub_type: None,
            start_timestamp: None,
            end_timestamp: None,
            execution_details: None,
            step_details: None,
            wait_details: None,
            callback_details: None,
            chained_invoke_details: None,
            context_details: None,
        }
    }

    /// Sets the parent ID, leaving every other field as it was.
    pub fn with_parent_id(self, parent_id: &str) -> (r: Self)
        ensures
            opt_view(r.parent_id) == Some(parent_id@),
            r == (Operation { parent_id: r.parent_id, ..self }),
    {
        let mut s = self;
        s.parent_id = Some(parent_id.to_owned());
        s
    }

    /// Sets the name, leaving every other field as it was.
    pub fn with_name(self, name: &str) -> (r: Self)
        ensures
            opt_view(r.name) == Some(name@),
            r == (Operation { name: r.name, ..self }),
    {
        let mut s = self;
        s.name = Some(name.to_owned());
        s
    }

    /// Sets the sub-type, leaving every other field as it was.
    pub fn with_sub_type(self, sub_type: &str) -> (r: Self)
        ensures
            opt_view(r.sub_type) == Some(sub_type@),
            r == (Operation { sub_type: r.sub_type, ..self }),
    {
        let mut s = self;
        s.sub_type = Some(sub_type.to_owned());
        s
    }

    /// Returns true if the operation has completed (any terminal status).
    pub fn is_completed(&self) -> (r: bool)
        ensures
            r == self.spec_is_completed(),
    {
        self.status.is_terminal()
    }

    /// Returns true if the operation succeeded.
    pub fn is_succeeded(&self) -> (r: bool)
        ensures
            r == (self.status is Succeeded),
    {
        self.status.is_success()
    }

    /// Returns true if the operation completed without succeeding: it failed,
    /// was cancelled, timed out or was stopped.
    pub fn is_failed(&self) -> (r: bool)
        ensures
            r == self.spec_is_failed(),
    {
        self.status.is_failure()
    }

    /// The result from the details field of the operation's type, falling back
    /// to the legacy result field.
    pub fn get_result(&self) -> (r: Option<&str>)
        ensures
            match r {
                Some(s) => self.result_view() == Some(s@),
                None => self.result_view() is None,
            },
    {
        let typed: Option<&String> = match self.operation_type {
            OperationType::Step => match &self.step_details {
                Some(d) => d.result.as_ref(),
                None => None,
            },
            OperationType::Callback => match &self.callback_details {
                Some(d) => d.result.as_ref(),
                None => None,
            },
            OperationType::Invoke => match &self.chained_invoke_details {
                Some(d) => d.result.as_ref(),
                None => None,
            },
            OperationType::Context => match &self.context_details {
                Some(d) => d.result.as_ref(),
                None => None,
            },
            _ => None,
        };
        match typed {
            Some(s) => Some(s.as_str()),
            None => match &self.result {
                Some(s) => Some(s.as_str()),
                None => None,
            },
        }
    }

    /// The retry payload of a STEP operation, `None` for any other type.
    pub fn get_retry_payload(&self) -> (r: Option<&str>)
        ensures
            match r {
                Some(s) => self.retry_payload_view() == Some(s@),
                None => self.retry_payload_view() is None,
            },
    {
        if self.operation_type == OperationType::Step {
            if let Some(d) = &self.step_details {
                return match &d.payload {
                    Some(p) => Some(p.as_str()),
                    None => None,
                };
            }
        }
        None
    }

    /// The attempt number (0-indexed) of a STEP operation, `None` for any other type.
    pub fn get_attempt(&self) -> (r: Option<u32>)
        ensures
            r == self.attempt_view(),
    {
        if self.operation_type == OperationType::Step {
            if let Some(d) = &self.step_details {
                return d.attempt;
            }
        }
        None
    }
}

impl OperationUpdate {
    /// The update names this operation, action and type, and sets no parent,
    /// name, sub-type, wait, callback, chained-invoke or context options.
    pub open spec fn is_bare(self, id: Seq<char>, action: OperationAction, ty: OperationType) -> bool {
        &&& self.operation_id@ == id
        &&& self.action == action
        &&& self.operation_type == ty
        &&& self.parent_id is None
        &&& self.name is None
        &&& self.sub_type is None
        &&& self.wait_options is None
        &&& self.callback_options is None
        &&& self.chained_invoke_options is None
        &&& self.context_options is None
    }

    /// The update sets no sub-type and no wait, step, callback, chained-invoke
    /// or context options.
    pub open spec fn has_no_options(self) -> bool {
        &&& self.sub_type is None
        &&& self.wait_options is None
        &&& self.step_options is None
        &&& self.callback_options is None
        &&& self.chained_invoke_options is None
        &&& self.context_options is None
    }

    /// Creates an update that starts an operation.
    pub fn start(operation_id: &str, operation_type: OperationType) -> (r: Self)
        ensures
            r.is_bare(operation_id@, OperationAction::Start, operation_type),
            r.result is None,
            r.error is None,
            r.step_options is None,
    {
        OperationUpdate {
            operation_id: operation_id.to_owned(),
            action: OperationAction::Start,
            operation_type,
            result: None,
            error: None,
            parent_id: None,
            name: None,
            sub_type: None,
            wait_options: None,
            step_options: None,
            callback_options: None,
            chained_invoke_options: None,
            context_options: None,
        }
    }

    /// Creates an update that starts a WAIT operation for `wait_seconds`.
    pub fn start_wait(operation_id: &str, wait_seconds: u64) -> (r: Self)
        ensures
            r.operation_id@ == operation_id@,
            r.action == OperationAction::Start,
            r.operation_type == OperationType::Wait,
            r.result is None,
            r.error is None,
            r.parent_id is None,
            r.name is None,
            r.sub_type is None,
            r.wait_options matches Some(w) && w.wait_seconds == wait_seconds,
            r.step_options is None,
            r.callback_options is None,
            r.chained_invoke_options is None,
            r.context_options is None,
    {
        OperationUpdate {
            operation_id: operation_id.to_owned(),
            action: OperationAction::Start,
            operation_type: OperationType::Wait,
            result: None,
            error: None,
            parent_id: None,
            name: None,
            sub_type: None,
            wait_options: Some(WaitOptions { wait_seconds }),
            step_options: None,
            callback_options: None,
            chained_invoke_options: None,
            context_options: None,
        }
    }

    /// Creates an update that marks an operation as succeeded with `result`.
    pub fn succeed(operation_id: &str, operation_type: OperationType, result: Option<String>) -> (r: Self)
        ensures
            r.is_bare(operation_id@, OperationAction::Succeed, operation_type),
            r.result == result,
            r.error is None,
            r.step_options is None,
    {
        OperationUpdate {
            operation_id: operation_id.to_owned(),
            action: OperationAction::Succeed,
            operation_type,
            result,
            error: None,
            parent_id: None,
            name: None,
            sub_type: None,
            wait_options: None,
            step_options: None,
            callback_options: None,
            chained_invoke_options: None,
            context_options: None,
        }
    }

    /// Creates an update that marks an operation as failed with `error`.
    pub fn fail(operation_id: &str, operation_type: OperationType, error: ErrorObject) -> (r: Self)
        ensures
            r.is_bare(operation_id@, OperationAction::Fail, operation_type),
            r.result is None,
            r.error == Some(error),
            r.step_options is None,
    {
        OperationUpdate {
            operation_id: operation_id.to_owned(),
            action: OperationAction::Fail,
            operation_type,
            result: None,
            error: Some(error),
            parent_id: None,
            name: None,
            sub_type: None,
            wait_options: None,
            step_options: None,
            callback_options: None,
            chained_invoke_options: None,
            context_options: None,
        }
    }

    /// Creates an update that cancels an operation (used for waits).
    pub fn cancel(operation_id: &str, operation_type: OperationType) -> (r: Self)
        ensures
            r.is_bare(operation_id@, OperationAction::Cancel, operation_type),
            r.result is None,
            r.error is None,
            r.step_options is None,
    {
        OperationUpdate {
            operation_id: operation_id.to_owned(),
            action: OperationAction::Cancel,
            operation_type,
            result: None,
            error: None,
            parent_id: None,
            name: None,
            sub_type: None,
            wait_options: None,
            step_options: None,
            callback_options: None,
            chained_invoke_options: None,
            context_options: None,
        }
    }

    /// Creates an update that retries an operation carrying a state `payload`
    /// (not an error) and an optional delay before the next attempt.
    pub fn retry(
        operation_id: &str,
        operation_type: OperationType,
        payload: Option<String>,
        next_attempt_delay_seconds: Option<u64>,
    ) -> (r: Self)
        ensures
            r.is_bare(operation_id@, OperationAction::Retry, operation_type),
            r.result == payload,
            r.error is None,
            r.step_options matches Some(o) && o.next_attempt_delay_seconds == next_attempt_delay_seconds,
    {
        OperationUpdate {
            operation_id: operation_id.to_owned(),
            action: OperationAction::Retry,
            operation_type,
            result: payload,
            error: None,
            parent_id: None,
            name: None,
            sub_type: None,
            wait_options: None,
            step_options: Some(StepOptions { next_attempt_delay_seconds }),
            callback_options: None,
            chained_invoke_options: None,
            context_options: None,
        }
    }

    /// Creates an update that retries an operation after `error`.
    pub fn retry_with_error(
        operation_id: &str,
        operation_type: OperationType,
        error: ErrorObject,
        next_attempt_delay_seconds: Option<u64>,
    ) -> (r: Self)
        ensures
            r.is_bare(operation_id@, OperationAction::Retry, operation_type),
            r.result is None,
            r.error == Some(error),
            r.step_options matches Some(o) && o.next_attempt_delay_seconds == next_attempt_delay_seconds,
    {
        OperationUpdate {
            operation_id: operation_id.to_owned(),
            action: OperationAction::Retry,
            operation_type,
            result: None,
            error: Some(error),
            parent_id: None,
            name: None,
            sub_type: None,
            wait_options: None,
            step_options: Some(StepOptions { next_attempt_delay_seconds }),
            callback_options: None,
            chained_invoke_options: None,
            context_options: None,
        }
    }

    /// Sets the parent ID, leaving every other field as it was.
    pub fn with_parent_id(self, parent_id: &str) -> (r: Self)
        ensures
            opt_view(r.parent_id) == Some(parent_id@),
            r == (OperationUpdate { parent_id: r.parent_id, ..self }),
    {
        let mut s = self;
        s.parent_id = Some(parent_id.to_owned());
        s
    }

    /// Sets the name, leaving every other field as it was.
    pub fn with_name(self, name: &str) -> (r: Self)
        ensures
            opt_view(r.name) == Some(name@),
            r == (OperationUpdate { name: r.name, ..self }),
    {
        let mut s = self;
        s.name = Some(name.to_owned());
        s
    }

    /// Sets the sub-type, leaving every other field as it was.
    pub fn with_sub_type(self, sub_type: &str) -> (r: Self)
        ensures
            opt_view(r.sub_type) == Some(sub_type@),
            r == (OperationUpdate { sub_type: r.sub_type, ..self }),
    {
        let mut s = self;
        s.sub_type = Some(sub_type.to_owned());
        s
    }

    /// Sets the wait options, leaving every other field as it was.
    pub fn with_wait_options(self, wait_seconds: u64) -> (r: Self)
        ensures
            r.wait_options matches Some(w) && w.wait_seconds == wait_seconds,
            r == (OperationUpdate { wait_options: r.wait_options, ..self }),
    {
        let mut s = self;
        s.wait_options = Some(WaitOptions { wait_seconds });
        s
    }

    /// Sets the step options, leaving every other field as it was.
    pub fn with_step_options(self, next_attempt_delay_seconds: Option<u64>) -> (r: Self)
        ensures
            r.step_options matches Some(o) && o.next_attempt_delay_seconds == next_attempt_delay_seconds,
            r == (OperationUpdate { step_options: r.step_options, ..self }),
    {
        let mut s = self;
        s.step_options = Some(StepOptions { next_attempt_delay_seconds });
        s
    }

    /// Sets the callback options, leaving every other field as it was.
    pub fn with_callback_options(
        self,
        timeout_seconds: Option<u64>,
        heartbeat_timeout_seconds: Option<u64>,
    ) -> (r: Self)
        ensures
            r.callback_options matches Some(o) && o.timeout_seconds == timeout_seconds
                && o.heartbeat_timeout_seconds == heartbeat_timeout_seconds,
            r == (OperationUpdate { callback_options: r.callback_options, ..self }),
    {
        let mut s = self;
        s.callback_options = Some(CallbackOptions { timeout_seconds, heartbeat_timeout_seconds });
        s
    }

    /// Sets the chained invoke options, leaving every other field as it was.
    pub fn with_chained_invoke_options(self, function_name: &str, tenant_id: Option<String>) -> (r: Self)
        ensures
            r.chained_invoke_options matches Some(o) && o.function_name@ == function_name@
                && o.tenant_id == tenant_id,
            r == (OperationUpdate { chained_invoke_options: r.chained_invoke_options, ..self }),
    {
        let mut s = self;
        s.chained_invoke_options = Some(
            ChainedInvokeOptions { function_name: function_name.to_owned(), tenant_id },
        );
        s
    }

    /// Sets the context options, leaving every other field as it was.
    pub fn with_context_options(self, replay_children: Option<bool>) -> (r: Self)
        ensures
            r.context_options matches Some(o) && o.replay_children == replay_children,
            r == (OperationUpdate { context_options: r.context_options, ..self }),
    {
        let mut s = self;
        s.context_options = Some(ContextOptions { replay_children });
        s
    }
}

/// An operation has completed exactly when it succeeded or failed, and never
/// both.
pub proof fn law_completed_is_succeeded_or_failed(op: Operation)
    ensures
        op.spec_is_completed() == (op.status is Succeeded || op.spec_is_failed()),
        !(op.status is Succeeded && op.spec_is_failed()),
{
}

/// The details field that belongs to the operation's type holds the result
/// `s`: step details for a STEP, callback details for a CALLBACK, chained-invoke
/// details for an INVOKE, context details for a CONTEXT.
pub open spec fn details_hold_result(op: Operation, s: String) -> bool {
    ||| op.operation_type == OperationType::Step && (op.step_details matches Some(d) && d.result == Some(s))
    ||| op.operation_type == OperationType::Callback && (op.callback_details matches Some(d) && d.result == Some(s))
    ||| op.operation_type == OperationType::Invoke && (op.chained_invoke_details matches Some(d) && d.result == Some(s))
    ||| op.operation_type == OperationType::Context && (op.context_details matches Some(d) && d.result == Some(s))
}

/// The result recorded in the details of the operation's own type is the
/// operation's result, whatever the legacy `result` field holds: a chained
/// invoke's result, a callback's result, a step's or a child context's result
/// is what reading the operation gives.
pub proof fn law_details_result_is_the_result(op: Operation, s: String)
    requires
        details_hold_result(op, s),
    ensures
        op.result_view() == Some(s@),
{
}

/// Without a result in the details of its own type, an operation's result is
/// its legacy `result` field; WAIT and EXECUTION operations always read it.
pub proof fn law_legacy_result_is_the_fallback(op: Operation)
    requires
        !(exists|s: String| details_hold_result(op, s)),
    ensures
        op.result_view() == match op.result {
            Some(s) => Some(s@),
            None => None::<Seq<char>>,
        },
{
    match op.operation_type {
        OperationType::Step => if let Some(d) = op.step_details {
            if let Some(s) = d.result {
                assert(details_hold_result(op, s));
            }
        },
        OperationType::Callback => if let Some(d) = op.callback_details {
            if let Some(s) = d.result {
                assert(details_hold_result(op, s));
            }
        },
        OperationType::Invoke => if let Some(d) = op.chained_invoke_details {
            if let Some(s) = d.result {
                assert(details_hold_result(op, s));
            }
        },
        OperationType::Context => if let Some(d) = op.context_details {
            if let Some(s) = d.result {
                assert(details_hold_result(op, s));
            }
        },
        _ => {},
    }
}

} // verus!
