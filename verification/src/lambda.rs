//! The Lambda invocation envelope: the initial state handed to a durable
//! function and the output it returns.
use vstd::prelude::*;
use vstd::string::*;
use vstd::utf8::encode_utf8;
use crate::error::{DurableError, ErrorObject};
use crate::operation::Operation;
use crate::text::{contains_seq, decimal, str_contains, usize_to_decimal};

verus! {

/// Previously checkpointed operations, loaded when an execution resumes.
#[derive(Debug, Clone)]
pub struct InitialExecutionState {
    /// Previously checkpointed operations
    pub operations: Vec<Operation>,
    /// Marker for the next page of operations, if there are more to load
    pub next_marker: Option<String>,
}

impl Default for InitialExecutionState {
    /// No operations and no further pages.
    fn default() -> (r: Self)
        ensures
            r.operations@.len() == 0,
            r.next_marker is None,
    {
        InitialExecutionState { operations: Vec::new(), next_marker: None }
    }
}

impl InitialExecutionState {
    /// An empty initial state.
    pub fn new() -> (r: Self)
        ensures
            r.operations@.len() == 0,
            r.next_marker is None,
    {
        InitialExecutionState::default()
    }

    /// An initial state holding `operations` and no further pages.
    pub fn with_operations(operations: Vec<Operation>) -> (r: Self)
        ensures
            r.operations == operations,
            r.next_marker is None,
    {
        InitialExecutionState { operations, next_marker: None }
    }

    /// Whether there are more operations to load.
    pub fn has_more(&self) -> (r: bool)
        ensures
            r == self.next_marker is Some,
    {
        self.next_marker.is_some()
    }
}

/// Status of a durable execution invocation.
#[derive(Debug, Clone, Copy, PartialEq, Eq, Structural)]
pub enum InvocationStatus {
    /// Completed successfully
    Succeeded,
    /// Failed with an error
    Failed,
    /// Suspended, waiting for a callback, a timer or a retry
    Pending,
}

impl InvocationStatus {
    /// The name shown for this status.
    pub open spec fn name_view(self) -> Seq<char> {
        match self {
            InvocationStatus::Succeeded => "SUCCEEDED"@,
            InvocationStatus::Failed => "FAILED"@,
            InvocationStatus::Pending => "PENDING"@,
        }
    }

    /// The name shown for this status, as an owned string.
    pub fn to_display_string(&self) -> (r: String)
        ensures
            r@ == self.name_view(),
    {
        match self {
            InvocationStatus::Succeeded => "SUCCEEDED".to_owned(),
            InvocationStatus::Failed => "FAILED".to_owned(),
            InvocationStatus::Pending => "PENDING".to_owned(),
        }
    }
}

/// The output a durable function returns to Lambda.
#[derive(Debug, Clone)]
pub struct DurableExecutionInvocationOutput {
    /// The status of the invocation
    pub status: InvocationStatus,
    /// The serialized result if the execution succeeded
    pub result: Option<String>,
    /// Error details if the execution failed
    pub error: Option<ErrorObject>,
}

/// Maximum response size in bytes (the 6MB Lambda limit).
pub open spec fn max_response_size() -> nat {
    6 * 1024 * 1024
}

/// The size in bytes of the UTF-8 encoding of `s`.
pub open spec fn byte_len(s: Seq<char>) -> nat {
    encode_utf8(s).len()
}

/// The message of the error for an oversized response of `size` bytes.
pub open spec fn too_large_message(size: nat) -> Seq<char> {
    "Response size "@ + decimal(size) + " bytes exceeds maximum "@ + decimal(max_response_size())
        + " bytes. Consider checkpointing large results."@
}

/// The text of the reference to a result that was checkpointed instead of returned.
pub open spec fn checkpointed_reference(checkpoint_id: Seq<char>, size: nat) -> Seq<char> {
    "{\"__checkpointed_result__\":\""@ + checkpoint_id + "\",\"size\":"@ + decimal(size) + "}"@
}

impl DurableExecutionInvocationOutput {
    /// Maximum response size in bytes (the 6MB Lambda limit).
    pub const MAX_RESPONSE_SIZE: usize = 6 * 1024 * 1024;

    /// A successful output carrying `result`.
    pub fn succeeded(result: Option<String>) -> (r: Self)
        ensures
            r == (DurableExecutionInvocationOutput { status: InvocationStatus::Succeeded, result, error: None }),
    {
        DurableExecutionInvocationOutput { status: InvocationStatus::Succeeded, result, error: None }
    }

    /// A failed output carrying `error`.
    pub fn failed(error: ErrorObject) -> (r: Self)
        ensures
            r == (DurableExecutionInvocationOutput {
                status: InvocationStatus::Failed,
                result: None,
                error: Some(error),
            }),
    {
        DurableExecutionInvocationOutput { status: InvocationStatus::Failed, result: None, error: Some(error) }
    }

    /// A pending output: the execution suspended.
    pub fn pending() -> (r: Self)
        ensures
            r == (DurableExecutionInvocationOutput { status: InvocationStatus::Pending, result: None, error: None }),
    {
        DurableExecutionInvocationOutput { status: InvocationStatus::Pending, result: None, error: None }
    }

    /// Whether the invocation succeeded.
    pub fn is_succeeded(&self) -> (r: bool)
        ensures
            r == (self.status is Succeeded),
    {
        match self.status {
            InvocationStatus::Succeeded => true,
            _ => false,
        }
    }

    /// Whether the invocation failed.
    pub fn is_failed(&self) -> (r: bool)
        ensures
            r == (self.status is Failed),
    {
        match self.status {
            InvocationStatus::Failed => true,
            _ => false,
        }
    }

    /// Whether the invocation is pending.
    pub fn is_pending(&self) -> (r: bool)
        ensures
            r == (self.status is Pending),
    {
        match self.status {
            InvocationStatus::Pending => true,
            _ => false,
        }
    }

    /// Whether a serialized result of this text is larger than the response limit.
    pub fn exceeds_max_size(json: &str) -> (r: bool)
        ensures
            r == (byte_len(json@) > max_response_size()),
    {
        json.as_bytes().len() > Self::MAX_RESPONSE_SIZE
    }

    /// What `from_serialized` makes of `serialized`: SUCCEEDED with the text
    /// within the size limit, FAILED with `ResponseTooLarge` beyond it, FAILED with
    /// `SerializationError` for a serializer error.
    pub open spec fn serialized_outcome(serialized: Result<String, String>, r: Self) -> bool {
        match serialized {
            Ok(json) => if byte_len(json@) > max_response_size() {
                r.status is Failed && r.result is None && (r.error matches Some(e)
                    && e.error_type@ == "ResponseTooLarge"@
                    && e.error_message@ == too_large_message(byte_len(json@))
                    && e.stack_trace is None)
            } else {
                r == Self::succeeded_spec(Some(json))
            },
            Err(msg) => r.status is Failed && r.result is None && (r.error matches Some(e)
                && e.error_type@ == "SerializationError"@
                && e.error_message@ == "Failed to serialize result: "@ + msg@
                && e.stack_trace is None),
        }
    }

    /// The output for a result that was serialized to `serialized` (the
    /// serializer's error text on failure).
    ///
    /// Success within the size limit gives SUCCEEDED with the text; an oversized
    /// text gives FAILED with a `ResponseTooLarge` error; a serialization failure
    /// gives FAILED with a `SerializationError` error.
    pub fn from_serialized(serialized: Result<String, String>) -> (r: Self)
        ensures
            Self::serialized_outcome(serialized, r),
    {
        match serialized {
            Ok(json) => {
                let size = json.as_str().as_bytes().len();
                if size > Self::MAX_RESPONSE_SIZE {
                    let message = "Response size ".to_owned().concat(usize_to_decimal(size).as_str()).concat(
                        " bytes exceeds maximum ",
                    ).concat(usize_to_decimal(Self::MAX_RESPONSE_SIZE).as_str()).concat(
                        " bytes. Consider checkpointing large results.",
                    );
                    Self::failed(ErrorObject::new("ResponseTooLarge", message.as_str()))
                } else {
                    Self::succeeded(Some(json))
                }
            },
            Err(e) => {
                let message = "Failed to serialize result: ".to_owned().concat(e.as_str());
                Self::failed(ErrorObject::new("SerializationError", message.as_str()))
            },
        }
    }

    /// The successful output carrying `result`.
    pub open spec fn succeeded_spec(result: Option<String>) -> Self {
        DurableExecutionInvocationOutput { status: InvocationStatus::Succeeded, result, error: None }
    }

    /// What `from_error` makes of `error`: PENDING for a Suspend signal, FAILED
    /// with the error's error object for any other error.
    pub open spec fn error_outcome(error: DurableError, r: Self) -> bool {
        &&& error is Suspend ==> r == Self::pending_spec()
        &&& !(error is Suspend) ==> (r.status is Failed && r.result is None && (r.error matches Some(e)
            && e.error_type@ == ErrorObject::type_of_error(error)
            && e.error_message@ == ErrorObject::message_of_error(error)
            && crate::error::opt_view(e.stack_trace) == ErrorObject::stack_of_error(error)))
    }

    /// The output for an error: PENDING for a Suspend signal, FAILED with the
    /// error's error object for any other error.
    pub fn from_error(error: &DurableError) -> (r: Self)
        ensures
            Self::error_outcome(*error, r),
    {
        match error {
            DurableError::Suspend { .. } => Self::pending(),
            _ => Self::failed(ErrorObject::from_durable_error(error)),
        }
    }

    /// The pending output.
    pub open spec fn pending_spec() -> Self {
        DurableExecutionInvocationOutput { status: InvocationStatus::Pending, result: None, error: None }
    }

    /// A successful output referring to a result that was checkpointed under
    /// `checkpoint_id` instead of being returned; `original_size` is its size.
    pub fn checkpointed_result(checkpoint_id: &str, original_size: usize) -> (r: Self)
        ensures
            r.status is Succeeded,
            r.error is None,
            r.result matches Some(t) && t@ == checkpointed_reference(checkpoint_id@, original_size as nat),
    {
        let text = "{\"__checkpointed_result__\":\"".to_owned().concat(checkpoint_id).concat(
            "\",\"size\":",
        ).concat(usize_to_decimal(original_size).as_str()).concat("}");
        Self::succeeded(Some(text))
    }

    /// Whether this output refers to a checkpointed result: its result text
    /// mentions the checkpointed-result marker.
    pub fn is_checkpointed_result(&self) -> (r: bool)
        ensures
            r == (self.result matches Some(t) && contains_seq(t@, "__checkpointed_result__"@)),
    {
        match &self.result {
            Some(t) => str_contains(t.as_str(), "__checkpointed_result__"),
            None => false,
        }
    }
}

impl From<Result<String, ErrorObject>> for DurableExecutionInvocationOutput {
    /// SUCCEEDED with the text, or FAILED with the error.
    fn from(result: Result<String, ErrorObject>) -> (r: Self) {
        match result {
            Ok(value) => Self::succeeded(Some(value)),
            Err(error) => Self::failed(error),
        }
    }
}

impl vstd::std_specs::convert::FromSpecImpl<Result<String, ErrorObject>> for DurableExecutionInvocationOutput {
    open spec fn obeys_from_spec() -> bool {
        true
    }

    open spec fn from_spec(v: Result<String, ErrorObject>) -> Self {
        match v {
            Ok(value) => DurableExecutionInvocationOutput {
                status: InvocationStatus::Succeeded,
                result: Some(value),
                error: None,
            },
            Err(error) => DurableExecutionInvocationOutput {
                status: InvocationStatus::Failed,
                result: None,
                error: Some(error),
            },
        }
    }
}

impl From<Result<Option<String>, ErrorObject>> for DurableExecutionInvocationOutput {
    /// SUCCEEDED with the optional text, or FAILED with the error.
    fn from(result: Result<Option<String>, ErrorObject>) -> (r: Self) {
        match result {
            Ok(value) => Self::succeeded(value),
            Err(error) => Self::failed(error),
        }
    }
}

impl vstd::std_specs::convert::FromSpecImpl<Result<Option<String>, ErrorObject>> for DurableExecutionInvocationOutput {
    open spec fn obeys_from_spec() -> bool {
        true
    }

    open spec fn from_spec(v: Result<Option<String>, ErrorObject>) -> Self {
        match v {
            Ok(value) => DurableExecutionInvocationOutput {
                status: InvocationStatus::Succeeded,
                result: value,
                error: None,
            },
            Err(error) => DurableExecutionInvocationOutput {
                status: InvocationStatus::Failed,
                result: None,
                error: Some(error),
            },
        }
    }
}

/// The size check agrees with the output: a serialized result yields a failed
/// output exactly when `exceeds_max_size` says it is too large, and otherwise is
/// returned as it is.
pub proof fn law_size_check_agrees_with_output(json: String, r: DurableExecutionInvocationOutput)
    requires
        DurableExecutionInvocationOutput::serialized_outcome(Ok(json), r),
    ensures
        (r.status is Failed) == (byte_len(json@) > max_response_size()),
        !(r.status is Failed) ==> r.status is Succeeded && r.result == Some(json) && r.error is None,
{
}

/// The output matches the outcome of the execution: a suspension is PENDING
/// with neither result nor error, any other error is FAILED with an error and
/// no result.
pub proof fn law_error_output_matches_outcome(error: DurableError, r: DurableExecutionInvocationOutput)
    requires
        DurableExecutionInvocationOutput::error_outcome(error, r),
    ensures
        (r.status is Pending) == (error is Suspend),
        (r.status is Failed) == !(error is Suspend),
        r.result is None,
        (r.error is Some) == !(error is Suspend),
{
}

/// A reference to a checkpointed result is recognized as one: its text holds
/// the checkpointed-result marker, whatever the checkpoint ID and size.
pub proof fn law_checkpointed_reference_is_recognized(checkpoint_id: Seq<char>, size: nat)
    ensures
        contains_seq(checkpointed_reference(checkpoint_id, size), "__checkpointed_result__"@),
{
    reveal_strlit("{\"__checkpointed_result__\":\"");
    reveal_strlit("__checkpointed_result__");
    let text = checkpointed_reference(checkpoint_id, size);
    assert(text.subrange(2, 25) =~= "__checkpointed_result__"@);
    assert(crate::text::occurs_at(text, "__checkpointed_result__"@, 2));
}

} // verus!
