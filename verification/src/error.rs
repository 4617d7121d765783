//! Error types: the SDK's error enum, the reasons an execution terminates,
//! and the error object carried in checkpoints and Lambda responses.
use vstd::prelude::*;
use vstd::string::*;
use crate::text::{contains_seq, decimal, str_contains, usize_to_decimal, u64_to_decimal};

verus! {

/// The main error type of the SDK.
#[derive(Debug)]
pub enum DurableError {
    /// Execution error that returns FAILED status without Lambda retry.
    Execution { message: String, termination_reason: TerminationReason },
    /// Invocation error that triggers Lambda retry.
    Invocation { message: String, termination_reason: TerminationReason },
    /// Checkpoint failure.
    Checkpoint { message: String, is_retriable: bool, aws_error: Option<AwsError> },
    /// Callback-specific failure.
    Callback { message: String, callback_id: Option<String> },
    /// Replay found a different operation than the code asked for.
    NonDeterministic { message: String, operation_id: Option<String> },
    /// Invalid configuration or arguments.
    Validation { message: String },
    /// Serialization or deserialization failure.
    SerDes { message: String },
    /// Signal to pause and hand control back to the Lambda runtime.
    ///
    /// `scheduled_timestamp` holds the IEEE-754 bit pattern of the time
    /// (seconds since the epoch, as a double) at which execution should resume.
    Suspend { scheduled_timestamp: Option<u64> },
    /// A child operation whose parent has already completed.
    OrphanedChild { message: String, operation_id: String },
    /// An error raised by user code.
    UserCode { message: String, error_type: String, stack_trace: Option<String> },
    /// A payload exceeded a size limit; not retriable.
    SizeLimit { message: String, actual_size: Option<usize>, max_size: Option<usize> },
    /// The service throttled the request; retriable with backoff.
    Throttling { message: String, retry_after_ms: Option<u64> },
    /// A missing execution, operation or function; not retriable.
    ResourceNotFound { message: String, resource_id: Option<String> },
}

/// Reason for execution termination.
#[derive(Debug, Clone, Copy, PartialEq, Eq, Structural)]
pub enum TerminationReason {
    UnhandledError,
    InvocationError,
    ExecutionError,
    CheckpointFailed,
    NonDeterministicExecution,
    StepInterrupted,
    CallbackError,
    SerializationError,
    SizeLimitExceeded,
}

impl Default for TerminationReason {
    fn default() -> (r: Self)
        ensures
            r == TerminationReason::UnhandledError,
    {
        TerminationReason::UnhandledError
    }
}

/// AWS error details for checkpoint failures.
#[derive(Debug, Clone)]
pub struct AwsError {
    /// The AWS error code
    pub code: String,
    /// The AWS error message
    pub message: String,
    /// The request ID if available
    pub request_id: Option<String>,
}

/// Error object carried in checkpoints and Lambda responses.
#[derive(Debug, Clone)]
pub struct ErrorObject {
    /// The error type or name
    pub error_type: String,
    /// The error message
    pub error_message: String,
    /// Optional stack trace
    pub stack_trace: Option<String>,
}

/// The view of an optional string.
pub open spec fn opt_view(o: Option<String>) -> Option<Seq<char>> {
    match o {
        Some(s) => Some(s@),
        None => None,
    }
}

/// Copies an optional string, keeping its view.
pub fn clone_opt_string(o: &Option<String>) -> (r: Option<String>)
    ensures
        opt_view(r) == opt_view(*o),
{
    match o {
        Some(s) => Some(s.clone()),
        None => None,
    }
}

impl ErrorObject {
    /// Creates a new ErrorObject without a stack trace.
    pub fn new(error_type: &str, error_message: &str) -> (r: Self)
        ensures
            r.error_type@ == error_type@,
            r.error_message@ == error_message@,
            r.stack_trace is None,
    {
        ErrorObject {
            error_type: error_type.to_owned(),
            error_message: error_message.to_owned(),
            stack_trace: None,
        }
    }

    /// Creates a new ErrorObject with a stack trace.
    pub fn with_stack_trace(error_type: &str, error_message: &str, stack_trace: &str) -> (r: Self)
        ensures
            r.error_type@ == error_type@,
            r.error_message@ == error_message@,
            opt_view(r.stack_trace) == Some(stack_trace@),
    {
        ErrorObject {
            error_type: error_type.to_owned(),
            error_message: error_message.to_owned(),
            stack_trace: Some(stack_trace.to_owned()),
        }
    }

    /// The error type that the conversion from a `DurableError` gives.
    pub open spec fn type_of_error(e: DurableError) -> Seq<char> {
        match e {
            DurableError::Execution { .. } => "ExecutionError"@,
            DurableError::Invocation { .. } => "InvocationError"@,
            DurableError::Checkpoint { .. } => "CheckpointError"@,
            DurableError::Callback { .. } => "CallbackError"@,
            DurableError::NonDeterministic { .. } => "NonDeterministicExecutionError"@,
            DurableError::Validation { .. } => "ValidationError"@,
            DurableError::SerDes { .. } => "SerDesError"@,
            DurableError::Suspend { .. } => "SuspendExecution"@,
            DurableError::OrphanedChild { .. } => "OrphanedChildError"@,
            DurableError::UserCode { error_type, .. } => error_type@,
            DurableError::SizeLimit { .. } => "SizeLimitExceededError"@,
            DurableError::Throttling { .. } => "ThrottlingError"@,
            DurableError::ResourceNotFound { .. } => "ResourceNotFoundError"@,
        }
    }

    /// The error message that the conversion from a `DurableError` gives.
    pub open spec fn message_of_error(e: DurableError) -> Seq<char> {
        match e {
            DurableError::Suspend { .. } => "Execution suspended"@,
            DurableError::SizeLimit { message, actual_size, max_size } => {
                if actual_size is Some && max_size is Some {
                    message@ + " (actual: "@ + decimal(actual_size->0 as nat) + " bytes, max: "@
                        + decimal(max_size->0 as nat) + " bytes)"@
                } else {
                    message@
                }
            },
            DurableError::Throttling { message, retry_after_ms } => {
                match retry_after_ms {
                    Some(ms) => message@ + " (retry after: "@ + decimal(ms as nat) + "ms)"@,
                    None => message@,
                }
            },
            DurableError::ResourceNotFound { message, resource_id } => {
                match resource_id {
                    Some(id) => message@ + " (resource: "@ + id@ + ")"@,
                    None => message@,
                }
            },
            _ => e.message_field(),
        }
    }

    /// The stack trace that the conversion from a `DurableError` gives.
    pub open spec fn stack_of_error(e: DurableError) -> Option<Seq<char>> {
        match e {
            DurableError::UserCode { stack_trace, .. } => opt_view(stack_trace),
            _ => None,
        }
    }

    /// Converts a `DurableError` into the error object reported for it.
    pub fn from_durable_error(error: &DurableError) -> (r: Self)
        ensures
            r.error_type@ == Self::type_of_error(*error),
            r.error_message@ == Self::message_of_error(*error),
            opt_view(r.stack_trace) == Self::stack_of_error(*error),
    {
        match error {
            DurableError::Execution { message, .. } => ErrorObject::new("ExecutionError", message.as_str()),
            DurableError::Invocation { message, .. } => ErrorObject::new("InvocationError", message.as_str()),
            DurableError::Checkpoint { message, .. } => ErrorObject::new("CheckpointError", message.as_str()),
            DurableError::Callback { message, .. } => ErrorObject::new("CallbackError", message.as_str()),
            DurableError::NonDeterministic { message, .. } => {
                ErrorObject::new("NonDeterministicExecutionError", message.as_str())
            },
            DurableError::Validation { message } => ErrorObject::new("ValidationError", message.as_str()),
            DurableError::SerDes { message } => ErrorObject::new("SerDesError", message.as_str()),
            DurableError::Suspend { .. } => ErrorObject::new("SuspendExecution", "Execution suspended"),
            DurableError::OrphanedChild { message, .. } => {
                ErrorObject::new("OrphanedChildError", message.as_str())
            },
            DurableError::UserCode { message, error_type, stack_trace } => {
                let mut obj = ErrorObject::new(error_type.as_str(), message.as_str());
                obj.stack_trace = clone_opt_string(stack_trace);
                obj
            },
            DurableError::SizeLimit { message, actual_size, max_size } => {
                let detailed = match (actual_size, max_size) {
                    (Some(actual), Some(max)) => {
                        message.clone().concat(" (actual: ").concat(usize_to_decimal(*actual).as_str()).concat(
                            " bytes, max: ",
                        ).concat(usize_to_decimal(*max).as_str()).concat(" bytes)")
                    },
                    _ => message.clone(),
                };
                ErrorObject::new("SizeLimitExceededError", detailed.as_str())
            },
            DurableError::Throttling { message, retry_after_ms } => {
                let detailed = match retry_after_ms {
                    Some(ms) => message.clone().concat(" (retry after: ").concat(
                        u64_to_decimal(*ms).as_str(),
                    ).concat("ms)"),
                    None => message.clone(),
                };
                ErrorObject::new("ThrottlingError", detailed.as_str())
            },
            DurableError::ResourceNotFound { message, resource_id } => {
                let detailed = match resource_id {
                    Some(id) => message.clone().concat(" (resource: ").concat(id.as_str()).concat(")"),
                    None => message.clone(),
                };
                ErrorObject::new("ResourceNotFoundError", detailed.as_str())
            },
        }
    }
}

impl DurableError {
    /// The `message` field of the variants that carry one (empty for `Suspend`).
    pub open spec fn message_field(self) -> Seq<char> {
        match self {
            DurableError::Execution { message, .. } => message@,
            DurableError::Invocation { message, .. } => message@,
            DurableError::Checkpoint { message, .. } => message@,
            DurableError::Callback { message, .. } => message@,
            DurableError::NonDeterministic { message, .. } => message@,
            DurableError::Validation { message } => message@,
            DurableError::SerDes { message } => message@,
            DurableError::Suspend { .. } => Seq::empty(),
            DurableError::OrphanedChild { message, .. } => message@,
            DurableError::UserCode { message, .. } => message@,
            DurableError::SizeLimit { message, .. } => message@,
            DurableError::Throttling { message, .. } => message@,
            DurableError::ResourceNotFound { message, .. } => message@,
        }
    }

    /// The human-readable text of the error.
    pub open spec fn display_view(self) -> Seq<char> {
        match self {
            DurableError::Execution { message, .. } => "Execution error: "@ + message@,
            DurableError::Invocation { message, .. } => "Invocation error: "@ + message@,
            DurableError::Checkpoint { message, .. } => "Checkpoint error: "@ + message@,
            DurableError::Callback { message, .. } => "Callback error: "@ + message@,
            DurableError::NonDeterministic { message, .. } => "Non-deterministic execution: "@ + message@,
            DurableError::Validation { message } => "Validation error: "@ + message@,
            DurableError::SerDes { message } => "Serialization error: "@ + message@,
            DurableError::Suspend { .. } => "Suspend execution"@,
            DurableError::OrphanedChild { message, .. } => "Orphaned child: "@ + message@,
            DurableError::UserCode { message, .. } => "User code error: "@ + message@,
            DurableError::SizeLimit { message, .. } => "Size limit exceeded: "@ + message@,
            DurableError::Throttling { message, .. } => "Throttling: "@ + message@,
            DurableError::ResourceNotFound { message, .. } => "Resource not found: "@ + message@,
        }
    }

    /// The human-readable text of the error (what its `Display` shows).
    pub fn display_text(&self) -> (r: String)
        ensures
            r@ == self.display_view(),
    {
        match self {
            DurableError::Execution { message, .. } => "Execution error: ".to_owned().concat(message.as_str()),
            DurableError::Invocation { message, .. } => "Invocation error: ".to_owned().concat(message.as_str()),
            DurableError::Checkpoint { message, .. } => "Checkpoint error: ".to_owned().concat(message.as_str()),
            DurableError::Callback { message, .. } => "Callback error: ".to_owned().concat(message.as_str()),
            DurableError::NonDeterministic { message, .. } => {
                "Non-deterministic execution: ".to_owned().concat(message.as_str())
            },
            DurableError::Validation { message } => "Validation error: ".to_owned().concat(message.as_str()),
            DurableError::SerDes { message } => "Serialization error: ".to_owned().concat(message.as_str()),
            DurableError::Suspend { .. } => "Suspend execution".to_owned(),
            DurableError::OrphanedChild { message, .. } => "Orphaned child: ".to_owned().concat(message.as_str()),
            DurableError::UserCode { message, .. } => "User code error: ".to_owned().concat(message.as_str()),
            DurableError::SizeLimit { message, .. } => "Size limit exceeded: ".to_owned().concat(message.as_str()),
            DurableError::Throttling { message, .. } => "Throttling: ".to_owned().concat(message.as_str()),
            DurableError::ResourceNotFound { message, .. } => {
                "Resource not found: ".to_owned().concat(message.as_str())
            },
        }
    }

    /// Creates a new Execution error.
    pub fn execution(message: &str) -> (r: Self)
        ensures
            r matches DurableError::Execution { message: m, termination_reason: t }
                && m@ == message@ && t == TerminationReason::ExecutionError,
    {
        DurableError::Execution {
            message: message.to_owned(),
            termination_reason: TerminationReason::ExecutionError,
        }
    }

    /// Creates a new Invocation error.
    pub fn invocation(message: &str) -> (r: Self)
        ensures
            r matches DurableError::Invocation { message: m, termination_reason: t }
                && m@ == message@ && t == TerminationReason::InvocationError,
    {
        DurableError::Invocation {
            message: message.to_owned(),
            termination_reason: TerminationReason::InvocationError,
        }
    }

    /// Creates a new retriable Checkpoint error.
    pub fn checkpoint_retriable(message: &str) -> (r: Self)
        ensures
            r matches DurableError::Checkpoint { message: m, is_retriable: b, aws_error: a }
                && m@ == message@ && b && a is None,
    {
        DurableError::Checkpoint { message: message.to_owned(), is_retriable: true, aws_error: None }
    }

    /// Creates a new non-retriable Checkpoint error.
    pub fn checkpoint_non_retriable(message: &str) -> (r: Self)
        ensures
            r matches DurableError::Checkpoint { message: m, is_retriable: b, aws_error: a }
                && m@ == message@ && !b && a is None,
    {
        DurableError::Checkpoint { message: message.to_owned(), is_retriable: false, aws_error: None }
    }

    /// Creates a new Validation error.
    pub fn validation(message: &str) -> (r: Self)
        ensures
            r matches DurableError::Validation { message: m } && m@ == message@,
    {
        DurableError::Validation { message: message.to_owned() }
    }

    /// Creates a new SerDes error.
    pub fn serdes(message: &str) -> (r: Self)
        ensures
            r matches DurableError::SerDes { message: m } && m@ == message@,
    {
        DurableError::SerDes { message: message.to_owned() }
    }

    /// Creates a new Suspend signal without a scheduled time.
    pub fn suspend() -> (r: Self)
        ensures
            r == (DurableError::Suspend { scheduled_timestamp: None }),
    {
        DurableError::Suspend { scheduled_timestamp: None }
    }

    /// Creates a new Suspend signal resuming at the time whose IEEE-754
    /// double bit pattern is `timestamp_bits`.
    pub fn suspend_until(timestamp_bits: u64) -> (r: Self)
        ensures
            r == (DurableError::Suspend { scheduled_timestamp: Some(timestamp_bits) }),
    {
        DurableError::Suspend { scheduled_timestamp: Some(timestamp_bits) }
    }

    /// Creates a new SizeLimit error without size details.
    pub fn size_limit(message: &str) -> (r: Self)
        ensures
            r matches DurableError::SizeLimit { message: m, actual_size: a, max_size: x }
                && m@ == message@ && a is None && x is None,
    {
        DurableError::SizeLimit { message: message.to_owned(), actual_size: None, max_size: None }
    }

    /// Creates a new SizeLimit error with size details.
    pub fn size_limit_with_details(message: &str, actual_size: usize, max_size: usize) -> (r: Self)
        ensures
            r matches DurableError::SizeLimit { message: m, actual_size: a, max_size: x }
                && m@ == message@ && a == Some(actual_size) && x == Some(max_size),
    {
        DurableError::SizeLimit {
            message: message.to_owned(),
            actual_size: Some(actual_size),
            max_size: Some(max_size),
        }
    }

    /// Creates a new Throttling error without a retry delay.
    pub fn throttling(message: &str) -> (r: Self)
        ensures
            r matches DurableError::Throttling { message: m, retry_after_ms: d } && m@ == message@
                && d is None,
    {
        DurableError::Throttling { message: message.to_owned(), retry_after_ms: None }
    }

    /// Creates a new Throttling error with a suggested retry delay.
    pub fn throttling_with_retry_delay(message: &str, retry_after_ms: u64) -> (r: Self)
        ensures
            r matches DurableError::Throttling { message: m, retry_after_ms: d } && m@ == message@
                && d == Some(retry_after_ms),
    {
        DurableError::Throttling { message: message.to_owned(), retry_after_ms: Some(retry_after_ms) }
    }

    /// Creates a new ResourceNotFound error without a resource ID.
    pub fn resource_not_found(message: &str) -> (r: Self)
        ensures
            r matches DurableError::ResourceNotFound { message: m, resource_id: id } && m@ == message@
                && id is None,
    {
        DurableError::ResourceNotFound { message: message.to_owned(), resource_id: None }
    }

    /// Creates a new ResourceNotFound error with the missing resource's ID.
    pub fn resource_not_found_with_id(message: &str, resource_id: &str) -> (r: Self)
        ensures
            r matches DurableError::ResourceNotFound { message: m, resource_id: id } && m@ == message@
                && opt_view(id) == Some(resource_id@),
    {
        DurableError::ResourceNotFound {
            message: message.to_owned(),
            resource_id: Some(resource_id.to_owned()),
        }
    }

    /// True exactly for a retriable Checkpoint error.
    pub fn is_retriable(&self) -> (r: bool)
        ensures
            r == (*self matches DurableError::Checkpoint { is_retriable: b, .. } && b),
    {
        match self {
            DurableError::Checkpoint { is_retriable, .. } => *is_retriable,
            _ => false,
        }
    }

    /// True exactly for a Suspend signal.
    pub fn is_suspend(&self) -> (r: bool)
        ensures
            r == (*self is Suspend),
    {
        match self {
            DurableError::Suspend { .. } => true,
            _ => false,
        }
    }

    /// Whether this is an invalid checkpoint token error: a Checkpoint error whose
    /// AWS error has code `InvalidParameterValueException` and a message mentioning
    /// an invalid checkpoint token, or, without AWS details, whose own message does.
    pub open spec fn spec_is_invalid_checkpoint_token(self) -> bool {
        match self {
            DurableError::Checkpoint { message, aws_error, .. } => match aws_error {
                Some(aws) => aws.code@ == "InvalidParameterValueException"@ && contains_seq(
                    aws.message@,
                    "Invalid checkpoint token"@,
                ),
                None => contains_seq(message@, "Invalid checkpoint token"@),
            },
            _ => false,
        }
    }

    /// True for an invalid checkpoint token error (see `spec_is_invalid_checkpoint_token`).
    pub fn is_invalid_checkpoint_token(&self) -> (r: bool)
        ensures
            r == self.spec_is_invalid_checkpoint_token(),
    {
        match self {
            DurableError::Checkpoint { message, aws_error, .. } => match aws_error {
                Some(aws) => {
                    let expected = "InvalidParameterValueException".to_owned();
                    aws.code == expected && str_contains(aws.message.as_str(), "Invalid checkpoint token")
                },
                None => str_contains(message.as_str(), "Invalid checkpoint token"),
            },
            _ => false,
        }
    }

    /// True exactly for a SizeLimit error.
    pub fn is_size_limit(&self) -> (r: bool)
        ensures
            r == (*self is SizeLimit),
    {
        match self {
            DurableError::SizeLimit { .. } => true,
            _ => false,
        }
    }

    /// True exactly for a Throttling error.
    pub fn is_throttling(&self) -> (r: bool)
        ensures
            r == (*self is Throttling),
    {
        match self {
            DurableError::Throttling { .. } => true,
            _ => false,
        }
    }

    /// True exactly for a ResourceNotFound error.
    pub fn is_resource_not_found(&self) -> (r: bool)
        ensures
            r == (*self is ResourceNotFound),
    {
        match self {
            DurableError::ResourceNotFound { .. } => true,
            _ => false,
        }
    }

    /// The suggested retry delay of a Throttling error, `None` for any other error.
    pub fn get_retry_after_ms(&self) -> (r: Option<u64>)
        ensures
            r == (match *self {
                DurableError::Throttling { retry_after_ms, .. } => retry_after_ms,
                _ => None,
            }),
    {
        match self {
            DurableError::Throttling { retry_after_ms, .. } => *retry_after_ms,
            _ => None,
        }
    }

    /// Wraps a stored error object as a user-code error.
    pub fn from_error_object(error: &ErrorObject) -> (r: Self)
        ensures
            r matches DurableError::UserCode { message, error_type, stack_trace }
                && message@ == error.error_message@ && error_type@ == error.error_type@
                && opt_view(stack_trace) == opt_view(error.stack_trace),
    {
        DurableError::UserCode {
            message: error.error_message.clone(),
            error_type: error.error_type.clone(),
            stack_trace: clone_opt_string(&error.stack_trace),
        }
    }
}

impl<'a> From<&'a DurableError> for ErrorObject {
    /// The error object reported for `error` (see `ErrorObject::from_durable_error`).
    fn from(error: &'a DurableError) -> (r: Self)
        ensures
            r.error_type@ == ErrorObject::type_of_error(*error),
            r.error_message@ == ErrorObject::message_of_error(*error),
            opt_view(r.stack_trace) == ErrorObject::stack_of_error(*error),
    {
        ErrorObject::from_durable_error(error)
    }
}

impl<'a> vstd::std_specs::convert::FromSpecImpl<&'a DurableError> for ErrorObject {
    /// The conversion is described by the `ensures` of `from`, over the views
    /// of the strings it builds, not by an equality with a spec value.
    open spec fn obeys_from_spec() -> bool {
        false
    }

    open spec fn from_spec(v: &'a DurableError) -> Self {
        arbitrary()
    }
}

/// `serde_json::Error`, carried through as the source of a serialization error.
#[verifier::external_type_specification]
#[verifier::external_body]
pub struct ExJsonError(serde_json::Error);

/// The text of a `serde_json::Error`, as its `Display` prints it. Nothing is
/// stated of it: the error's content is opaque here.
#[verifier::external_body]
fn json_error_text(error: &serde_json::Error) -> String {
    error.to_string()
}

impl From<serde_json::Error> for DurableError {
    /// A serialization error carrying the JSON error's text.
    fn from(error: serde_json::Error) -> (r: Self)
        ensures
            r is SerDes,
    {
        DurableError::SerDes { message: json_error_text(&error) }
    }
}

impl vstd::std_specs::convert::FromSpecImpl<serde_json::Error> for DurableError {
    /// The conversion is described by the `ensures` of `from`: the message is
    /// the JSON error's text, which is opaque here.
    open spec fn obeys_from_spec() -> bool {
        false
    }

    open spec fn from_spec(v: serde_json::Error) -> Self {
        arbitrary()
    }
}

} // verus!
